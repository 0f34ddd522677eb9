//! A whole request at once: its parts as they were read, what an upload keeps
//! of them, and what follows from that for every request.

use crate::upload::{ChunkRead, PartRead, Upload, UploadView, DEFAULT_FILENAME};
use vstd::prelude::*;

verus! {

/// One part of a request as it was read: the file name it declares, if any,
/// and its chunks in arrival order.
#[derive(Clone, Debug, PartialEq, Eq)]
pub struct Part {
    pub filename: Option<String>,
    pub chunks: Vec<Vec<u8>>,
}

/// The model of a [`Part`].
pub struct PartView {
    pub filename: Option<Seq<char>>,
    pub chunks: Seq<Seq<u8>>,
}

impl PartView {
    /// The bytes of the part: its chunks joined in arrival order.
    pub open spec fn bytes(self) -> Seq<u8> {
        self.chunks.flatten()
    }
}

impl DeepView for Part {
    type V = PartView;

    open spec fn deep_view(&self) -> PartView {
        PartView { filename: self.filename.deep_view(), chunks: self.chunks.deep_view() }
    }
}

/// The file name that the request declares: that of the last part that
/// declares one.
pub open spec fn declared_name(parts: Seq<PartView>) -> Option<Seq<char>>
    decreases parts.len(),
{
    if parts.len() == 0 {
        None
    } else if parts.last().filename is Some {
        parts.last().filename
    } else {
        declared_name(parts.drop_last())
    }
}

/// Every byte of the request: the bytes of all parts, joined in arrival order.
pub open spec fn payload(parts: Seq<PartView>) -> Seq<u8>
    decreases parts.len(),
{
    if parts.len() == 0 {
        Seq::empty()
    } else {
        payload(parts.drop_last()) + parts.last().bytes()
    }
}

/// The sum of the byte lengths of all parts.
pub open spec fn total_len(parts: Seq<PartView>) -> nat
    decreases parts.len(),
{
    if parts.len() == 0 {
        0
    } else {
        total_len(parts.drop_last()) + parts.last().bytes().len()
    }
}

/// What an upload holds once these parts have been read: the file name
/// declared last, or the default where no part declares one, and every byte.
pub open spec fn outcome(parts: Seq<PartView>) -> UploadView {
    UploadView {
        filename: match declared_name(parts) {
            Some(name) => name,
            None => DEFAULT_FILENAME@,
        },
        bytes: payload(parts),
    }
}

/// One more part takes the outcome where its reads take it: the name first,
/// then the bytes.
pub proof fn outcome_of_push(parts: Seq<PartView>, part: PartView)
    ensures
        outcome(parts.push(part)) == outcome(parts).with_name(part.filename).with_bytes(
            part.bytes(),
        ),
{
    assert(parts.push(part).drop_last() =~= parts);
}

/// The size of a request is the sum of the byte lengths of its parts: every
/// byte of every part is counted, whichever part it came from.
pub proof fn size_is_sum_of_parts(parts: Seq<PartView>)
    ensures
        outcome(parts).size() == total_len(parts),
    decreases parts.len(),
{
    if parts.len() > 0 {
        size_is_sum_of_parts(parts.drop_last());
    }
}

/// A request of one part has the size of that part: a part of `n` bytes, in
/// however many chunks they came, gives the size `n`.
pub proof fn single_part_size(part: PartView)
    ensures
        outcome(seq![part]).bytes == part.bytes(),
        outcome(seq![part]).size() == part.bytes().len(),
{
    let parts = seq![part];
    assert(payload(parts.drop_last()) =~= Seq::<u8>::empty());
    assert(payload(parts) =~= part.bytes());
}

/// A request in which no part declares a file name keeps the default name.
pub proof fn undeclared_name_is_default(parts: Seq<PartView>)
    requires
        forall|i: int| 0 <= i < parts.len() ==> (#[trigger] parts[i]).filename is None,
    ensures
        outcome(parts).filename == DEFAULT_FILENAME@,
    decreases parts.len(),
{
    if parts.len() > 0 {
        undeclared_name_is_default(parts.drop_last());
    }
}

/// The parts of a request are merged: the file name is the one that the last
/// part declares, and the size is the sum of the byte lengths of all parts.
pub proof fn last_name_and_total_size(parts: Seq<PartView>)
    requires
        parts.len() > 0,
        parts.last().filename is Some,
    ensures
        outcome(parts).filename == parts.last().filename->0,
        outcome(parts).size() == total_len(parts),
{
    size_is_sum_of_parts(parts);
}

/// A request without parts is what an upload starts as: no bytes, and the
/// default name.
pub proof fn empty_request()
    ensures
        outcome(Seq::empty()) == UploadView::initial(),
        outcome(Seq::empty()).size() == 0,
        outcome(Seq::empty()).filename == DEFAULT_FILENAME@,
{
}

impl Upload {
    /// Reads a request that is in memory: each part in turn, and each chunk of
    /// it in turn, as they would arrive, up to the end of the request.
    pub fn receive(parts: &Vec<Part>) -> (upload: Upload)
        ensures
            upload@ == outcome(parts.deep_view()),
    {
        let ghost request = parts.deep_view();
        let mut upload = Upload::new();
        let mut i: usize = 0;
        while i < parts.len()
            invariant
                i <= parts.len(),
                request == parts.deep_view(),
                upload@ == outcome(request.take(i as int)),
            decreases parts.len() - i,
        {
            let part = &parts[i];
            let ghost before = upload@;
            let ghost chunks = part.chunks.deep_view();
            let name: Option<&str> = match &part.filename {
                Some(name) => Some(name.as_str()),
                None => None,
            };
            upload.on_part(PartRead::Part { filename: name });
            let ghost named = before.with_name(request[i as int].filename);
            assert(named.bytes + chunks.take(0).flatten() =~= named.bytes);
            let mut j: usize = 0;
            while j < part.chunks.len()
                invariant
                    j <= part.chunks.len(),
                    chunks == part.chunks.deep_view(),
                    upload@ == named.with_bytes(chunks.take(j as int).flatten()),
                decreases part.chunks.len() - j,
            {
                upload.on_chunk(ChunkRead::Chunk(part.chunks[j].as_slice()));
                proof {
                    let sofar = chunks.take(j as int);
                    assert(chunks[j as int] =~= part.chunks[j as int]@);
                    assert(chunks.take(j + 1) =~= sofar.push(chunks[j as int]));
                    sofar.lemma_flatten_push(chunks[j as int]);
                    assert(named.bytes + sofar.flatten() + chunks[j as int] =~= named.bytes
                        + (sofar.flatten() + chunks[j as int]));
                }
                j += 1;
            }
            upload.on_chunk(ChunkRead::End);
            proof {
                assert(chunks.take(j as int) =~= chunks);
                assert(request.take(i + 1) =~= request.take(i as int).push(request[i as int]));
                outcome_of_push(request.take(i as int), request[i as int]);
            }
            i += 1;
        }
        upload.on_part(PartRead::End);
        assert(request.take(i as int) =~= request);
        upload
    }
}

} // verus!
