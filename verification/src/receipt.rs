//! The acknowledgement of an upload, and the reply that carries it.

use crate::json::{decimal, decimal_text, is_plain, json_string_text, quote};
use vstd::prelude::*;

verus! {

/// The status of every reply: a request is acknowledged whatever was read of
/// it.
pub const STATUS_OK: u16 = 200;

/// What is acknowledged of one request: the name of the file and the number of
/// bytes that were read.
#[derive(Clone, Debug, PartialEq, Eq)]
pub struct Receipt {
    pub filename: String,
    pub size: usize,
}

/// A reply as it goes back to the client: the HTTP status and the JSON body.
#[derive(Clone, Debug, PartialEq, Eq)]
pub struct Reply {
    pub status: u16,
    pub body: String,
}

/// The acknowledgement as compact JSON: an object of three members, the file
/// name as a string (`quoted_name` is that string as JSON text), the byte
/// count as a number, and the status, which is always `stored`.
pub open spec fn receipt_text(quoted_name: Seq<char>, size: nat) -> Seq<char> {
    "{\"filename\":"@ + quoted_name + ",\"size\":"@ + decimal_text(size)
        + ",\"status\":\"stored\"}"@
}

/// Writes the acknowledgement around a file name that is JSON text already.
pub fn receipt_body(quoted_name: &str, size: usize) -> (body: String)
    ensures
        body@ == receipt_text(quoted_name@, size as nat),
{
    let mut body: String = "{\"filename\":".to_owned();
    body.append(quoted_name);
    body.append(",\"size\":");
    body.append(decimal(size).as_str());
    body.append(",\"status\":\"stored\"}");
    body
}

impl Receipt {
    /// The body of the reply: the receipt as compact JSON, with the file name
    /// as the JSON string that `serde_json` writes for it.
    pub open spec fn body_text(self) -> Seq<char> {
        receipt_text(json_string_text(self.filename@), self.size as nat)
    }

    /// The reply for this receipt. Its status is [`STATUS_OK`] for every
    /// receipt. Where the file name is plain, it stands in the body as it is,
    /// between double quotes.
    pub fn reply(&self) -> (reply: Reply)
        ensures
            reply.status == STATUS_OK,
            reply.body@ == self.body_text(),
            is_plain(self.filename@) ==> reply.body@ == receipt_text(
                seq!['"'] + self.filename@ + seq!['"'],
                self.size as nat,
            ),
    {
        let quoted_name: String = quote(self.filename.as_str());
        Reply { status: STATUS_OK, body: receipt_body(quoted_name.as_str(), self.size) }
    }
}

} // verus!
