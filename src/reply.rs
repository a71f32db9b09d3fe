use vstd::prelude::*;
use vstd::utf8::encode_utf8;

use crate::error::{kind_of, message_of, status_of, GatewayError};

verus! {

/// The response to one request.
pub struct Reply {
    pub status: u16,
    pub content_type: String,
    pub body: Vec<u8>,
}

/// The media type of a produced artifact.
pub open spec fn artifact_media_type() -> Seq<char> {
    "application/pdf"@
}

/// The media type of an error diagnostic.
pub open spec fn diagnostic_media_type() -> Seq<char> {
    "text/plain; charset=utf-8"@
}

/// The response that carries a produced artifact.
pub fn success_reply(artifact: Vec<u8>) -> (r: Reply)
    ensures
        r.status == 200,
        r.content_type@ == artifact_media_type(),
        r.body@ == artifact@,
{
    Reply { status: 200, content_type: String::from_str("application/pdf"), body: artifact }
}

/// The response that reports an error: its status and its diagnostic as text.
pub fn error_reply(e: &GatewayError) -> (r: Reply)
    ensures
        r.status == status_of(kind_of(*e)),
        r.content_type@ == diagnostic_media_type(),
        r.body@ == encode_utf8(message_of(*e)),
{
    let message = e.message();
    let mut body: Vec<u8> = Vec::new();
    body.extend_from_slice(message.as_str().as_bytes());
    assert(body@ =~= encode_utf8(message_of(*e)));
    Reply {
        status: e.status(),
        content_type: String::from_str("text/plain; charset=utf-8"),
        body,
    }
}

/// The response for the outcome of a request: the artifact, or the error that
/// ended the request.
pub fn reply_for(outcome: Result<Vec<u8>, GatewayError>) -> (r: Reply)
    ensures
        outcome matches Ok(a) ==> r.status == 200 && r.content_type@ == artifact_media_type()
            && r.body@ == a@,
        outcome matches Err(e) ==> r.status == status_of(kind_of(e)) && r.content_type@
            == diagnostic_media_type() && r.body@ == encode_utf8(message_of(e)),
{
    match outcome {
        Ok(a) => success_reply(a),
        Err(e) => error_reply(&e),
    }
}

} // verus!
