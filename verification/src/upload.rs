//! One request as it is read: what each read yields, what is kept of it, and
//! what is read next.

use crate::receipt::Receipt;
use vstd::prelude::*;

verus! {

/// The file name that is reported when no part declares one.
pub const DEFAULT_FILENAME: &'static str = "unknown.bin";

/// The outcome of asking the request for its next part.
#[derive(Clone, Copy, Debug)]
pub enum PartRead<'a> {
    /// A part has begun; `filename` is the file name it declares, if any.
    Part { filename: Option<&'a str> },
    /// The request has no further part.
    End,
    /// The read failed.
    Failed,
}

/// The outcome of asking the current part for its next chunk.
#[derive(Clone, Copy, Debug)]
pub enum ChunkRead<'a> {
    /// The part has yielded these bytes.
    Chunk(&'a [u8]),
    /// The part has no further chunk.
    End,
    /// The read failed.
    Failed,
}

/// What to do after a read.
#[derive(Clone, Copy, Debug, PartialEq, Eq, Structural)]
pub enum Next {
    /// Ask the current part for its next chunk.
    ReadChunk,
    /// Ask the request for its next part.
    ReadPart,
    /// Read no more and send the reply.
    Respond,
}

impl<'a> PartRead<'a> {
    /// What follows this read: the chunks of the part that has begun, or, when
    /// the request has ended or the read has failed, the reply.
    pub open spec fn next(self) -> Next {
        match self {
            PartRead::Part { .. } => Next::ReadChunk,
            PartRead::End => Next::Respond,
            PartRead::Failed => Next::Respond,
        }
    }
}

impl<'a> ChunkRead<'a> {
    /// What follows this read: the next chunk of the same part, or, when the
    /// part has ended or the read has failed, the next part.
    pub open spec fn next(self) -> Next {
        match self {
            ChunkRead::Chunk(_) => Next::ReadChunk,
            ChunkRead::End => Next::ReadPart,
            ChunkRead::Failed => Next::ReadPart,
        }
    }
}

/// What the reads of one request have yielded so far: the model of an
/// [`Upload`].
pub struct UploadView {
    /// The file name declared last, or the default while none was declared.
    pub filename: Seq<char>,
    /// Every byte read, of all parts, in arrival order.
    pub bytes: Seq<u8>,
}

impl UploadView {
    /// The number of bytes read.
    pub open spec fn size(self) -> nat {
        self.bytes.len()
    }

    /// Before the first read: the default name and no bytes.
    pub open spec fn initial() -> UploadView {
        UploadView { filename: DEFAULT_FILENAME@, bytes: Seq::empty() }
    }

    /// With the file name of a part: a declared name replaces the one recorded
    /// before, a part that declares none leaves it.
    pub open spec fn with_name(self, filename: Option<Seq<char>>) -> UploadView {
        match filename {
            Some(name) => UploadView { filename: name, bytes: self.bytes },
            None => self,
        }
    }

    /// With the bytes of a chunk: they follow those read before, whichever
    /// part they came from.
    pub open spec fn with_bytes(self, chunk: Seq<u8>) -> UploadView {
        UploadView { filename: self.filename, bytes: self.bytes + chunk }
    }

    /// After asking for the next part: a part brings its file name, the end
    /// of the request and a failed read bring nothing.
    pub open spec fn after_part(self, read: PartRead) -> UploadView {
        match read {
            PartRead::Part { filename: Some(name) } => self.with_name(Some(name@)),
            PartRead::Part { filename: None } => self.with_name(None),
            PartRead::End => self,
            PartRead::Failed => self,
        }
    }

    /// After asking for the next chunk: a chunk brings its bytes, the end of
    /// the part and a failed read bring nothing.
    pub open spec fn after_chunk(self, read: ChunkRead) -> UploadView {
        match read {
            ChunkRead::Chunk(data) => self.with_bytes(data@),
            ChunkRead::End => self,
            ChunkRead::Failed => self,
        }
    }
}

/// The record of one request while it is read.
pub struct Upload {
    filename: String,
    bytes: Vec<u8>,
}

impl View for Upload {
    type V = UploadView;

    closed spec fn view(&self) -> UploadView {
        UploadView { filename: self.filename@, bytes: self.bytes@ }
    }
}

impl Upload {
    /// A request of which nothing has been read.
    pub fn new() -> (upload: Upload)
        ensures
            upload@ == UploadView::initial(),
    {
        Upload { filename: DEFAULT_FILENAME.to_owned(), bytes: Vec::new() }
    }

    /// Takes the outcome of asking for the next part. A declared file name
    /// replaces the recorded one. A failed read is taken as the end of the
    /// request.
    pub fn on_part(&mut self, read: PartRead) -> (next: Next)
        ensures
            final(self)@ == old(self)@.after_part(read),
            next == read.next(),
    {
        match read {
            PartRead::Part { filename } => {
                if let Some(name) = filename {
                    self.filename = name.to_owned();
                }
                Next::ReadChunk
            },
            PartRead::End => Next::Respond,
            PartRead::Failed => Next::Respond,
        }
    }

    /// Takes the outcome of asking the current part for its next chunk. The
    /// bytes of a chunk are kept behind those read before. A failed read is
    /// taken as the end of the part.
    pub fn on_chunk(&mut self, read: ChunkRead) -> (next: Next)
        ensures
            final(self)@ == old(self)@.after_chunk(read),
            next == read.next(),
    {
        match read {
            ChunkRead::Chunk(data) => {
                self.bytes.extend_from_slice(data);
                assert(self.bytes@ =~= old(self).bytes@ + data@);
                Next::ReadChunk
            },
            ChunkRead::End => Next::ReadPart,
            ChunkRead::Failed => Next::ReadPart,
        }
    }

    /// The file name recorded so far.
    pub fn filename(&self) -> (name: &str)
        ensures
            name@ == self@.filename,
    {
        self.filename.as_str()
    }

    /// The bytes read so far.
    pub fn bytes(&self) -> (bytes: &[u8])
        ensures
            bytes@ == self@.bytes,
    {
        self.bytes.as_slice()
    }

    /// The acknowledgement of what has been read: the file name recorded last
    /// and the count of all bytes.
    pub fn receipt(&self) -> (receipt: Receipt)
        ensures
            receipt.filename@ == self@.filename,
            receipt.size == self@.size(),
    {
        Receipt { filename: self.filename.clone(), size: self.bytes.len() }
    }
}

/// A read that fails is taken as the end of what was being read: the upload
/// holds after it what it held before, and what is to be done next is what
/// the end of the part, or of the request, asks for. After a failed read of
/// the request that is the reply, so no failure stands in its way.
pub proof fn failure_reads_as_end(upload: UploadView)
    ensures
        upload.after_chunk(ChunkRead::Failed) == upload,
        upload.after_chunk(ChunkRead::Failed) == upload.after_chunk(ChunkRead::End),
        ChunkRead::Failed.next() == ChunkRead::End.next(),
        upload.after_part(PartRead::Failed) == upload,
        upload.after_part(PartRead::Failed) == upload.after_part(PartRead::End),
        PartRead::Failed.next() == PartRead::End.next(),
        PartRead::Failed.next() == Next::Respond,
{
}

} // verus!
