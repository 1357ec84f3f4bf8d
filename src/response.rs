//! Responses and their serialisation to the wire.

use vstd::prelude::*;

use crate::bytes::{append_bytes, decimal, push_decimal};
use crate::tokens::{
    content_encoding_gzip, content_encoding_gzip_vec, content_length_field, content_length_field_vec,
    content_type_field, content_type_field_vec, crlf, crlf_vec, octet_stream, octet_stream_vec,
    reason_bad_request, reason_bad_request_vec, reason_created, reason_created_vec,
    reason_not_found, reason_not_found_vec, reason_ok, reason_ok_vec, reason_server_error,
    reason_server_error_vec, status_prefix, status_prefix_vec, text_plain, text_plain_vec,
};

verus! {

#[derive(Clone, Copy, Debug, PartialEq, Eq, Structural)]
pub enum Status {
    Okay,
    Created,
    BadRequest,
    NotFound,
    InternalServerError,
}

#[derive(Clone, Copy, Debug, PartialEq, Eq, Structural)]
pub enum ContentType {
    TextPlain,
    OctetStream,
}

/// One response: its status, whether the body is gzip-encoded, its media type
/// and its body. The `Content-Length` header is derived from the body when the
/// response is serialised, so it cannot disagree with it.
pub struct Response {
    pub status: Status,
    pub gzip: bool,
    pub content_type: ContentType,
    pub body: Vec<u8>,
}

/// Numeric code of a status.
pub open spec fn code(s: Status) -> nat {
    match s {
        Status::Okay => 200,
        Status::Created => 201,
        Status::BadRequest => 400,
        Status::NotFound => 404,
        Status::InternalServerError => 500,
    }
}

/// Code and reason phrase of a status line.
pub open spec fn reason(s: Status) -> Seq<u8> {
    match s {
        Status::Okay => reason_ok(),
        Status::Created => reason_created(),
        Status::BadRequest => reason_bad_request(),
        Status::NotFound => reason_not_found(),
        Status::InternalServerError => reason_server_error(),
    }
}

pub open spec fn media(c: ContentType) -> Seq<u8> {
    match c {
        ContentType::TextPlain => text_plain(),
        ContentType::OctetStream => octet_stream(),
    }
}

/// Status line and headers, up to and including the blank line. Headers come
/// in the order `Content-Encoding`, `Content-Type`, `Content-Length`.
pub open spec fn head_bytes(status: Status, gzip: bool, ct: ContentType, body_len: nat) -> Seq<u8> {
    status_prefix() + reason(status) + crlf() + (if gzip {
        content_encoding_gzip()
    } else {
        Seq::<u8>::empty()
    }) + content_type_field() + media(ct) + crlf() + content_length_field() + decimal(body_len)
        + crlf() + crlf()
}

/// The full wire form of a response: head, then the raw body.
pub open spec fn wire(status: Status, gzip: bool, ct: ContentType, body: Seq<u8>) -> Seq<u8> {
    head_bytes(status, gzip, ct, body.len()) + body
}

/// The response is exactly the given one, body by value.
pub open spec fn is_response(
    r: Response,
    status: Status,
    gzip: bool,
    ct: ContentType,
    body: Seq<u8>,
) -> bool {
    r.status == status && r.gzip == gzip && r.content_type == ct && r.body@ == body
}

impl Response {
    /// A `text/plain` response with an empty body.
    pub fn empty(status: Status) -> (r: Response)
        ensures
            is_response(r, status, false, ContentType::TextPlain, Seq::empty()),
    {
        Response { status, gzip: false, content_type: ContentType::TextPlain, body: Vec::new() }
    }

    /// A `200 OK` response carrying `body` unencoded.
    pub fn ok(content_type: ContentType, body: Vec<u8>) -> (r: Response)
        ensures
            is_response(r, Status::Okay, false, content_type, body@),
    {
        Response { status: Status::Okay, gzip: false, content_type, body }
    }

    /// A `200 OK` `text/plain` response whose body `encoded` is already
    /// gzip-encoded, so it is marked `Content-Encoding: gzip`.
    pub fn gzipped(encoded: Vec<u8>) -> (r: Response)
        ensures
            is_response(r, Status::Okay, true, ContentType::TextPlain, encoded@),
    {
        Response { status: Status::Okay, gzip: true, content_type: ContentType::TextPlain, body: encoded }
    }

    /// The numeric status code.
    pub fn status_code(&self) -> (r: u16)
        ensures
            r == code(self.status),
    {
        match self.status {
            Status::Okay => 200,
            Status::Created => 201,
            Status::BadRequest => 400,
            Status::NotFound => 404,
            Status::InternalServerError => 500,
        }
    }

    /// Serialises the response: status line, headers, blank line, body.
    pub fn to_bytes(&self) -> (r: Vec<u8>)
        ensures
            r@ == wire(self.status, self.gzip, self.content_type, self.body@),
    {
        let mut out = status_prefix_vec();
        let reason_text = match self.status {
            Status::Okay => reason_ok_vec(),
            Status::Created => reason_created_vec(),
            Status::BadRequest => reason_bad_request_vec(),
            Status::NotFound => reason_not_found_vec(),
            Status::InternalServerError => reason_server_error_vec(),
        };
        append_bytes(&mut out, reason_text.as_slice());
        let line_end = crlf_vec();
        append_bytes(&mut out, line_end.as_slice());
        let ghost mid = out@;
        if self.gzip {
            let enc = content_encoding_gzip_vec();
            append_bytes(&mut out, enc.as_slice());
        }
        let ct = content_type_field_vec();
        append_bytes(&mut out, ct.as_slice());
        let media_text = match self.content_type {
            ContentType::TextPlain => text_plain_vec(),
            ContentType::OctetStream => octet_stream_vec(),
        };
        append_bytes(&mut out, media_text.as_slice());
        append_bytes(&mut out, line_end.as_slice());
        let cl = content_length_field_vec();
        append_bytes(&mut out, cl.as_slice());
        push_decimal(&mut out, self.body.len());
        append_bytes(&mut out, line_end.as_slice());
        append_bytes(&mut out, line_end.as_slice());
        append_bytes(&mut out, self.body.as_slice());
        assert(out@ =~= wire(self.status, self.gzip, self.content_type, self.body@));
        out
    }
}

} // verus!
