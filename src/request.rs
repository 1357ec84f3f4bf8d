//! Parsing of a request head: the request line and the header lines that
//! precede the blank line.
//!
//! Lines are handed over as read from the connection, each with its line
//! terminator. Whitespace means ASCII whitespace throughout.

use vstd::prelude::*;

use crate::bytes::{
    contains, contains_exec, copy_range, ends_with, has_prefix, has_suffix, lower, lowered, parse_unsigned, starts_with, trim, trimmed, unsigned_value,
};
use crate::tokens::{
    accept_encoding_field, accept_encoding_field_vec, content_length_field,
    content_length_field_vec, crlf, crlf_vec, gzip_token, gzip_token_vec, user_agent_field,
    user_agent_field_vec,
};

verus! {

/// What routing needs of a request head.
pub struct RequestHead {
    /// The first line, without its terminator; empty when there was no line.
    pub request_line: Vec<u8>,
    /// The declared body length: the last `Content-Length` value, 0 when no
    /// such header came, `None` when some `Content-Length` value is not an
    /// unsigned number that fits in `usize`.
    pub content_length: Option<usize>,
    /// Whether the client accepts a gzip-encoded body.
    pub accepts_gzip: bool,
    /// The value of the first `User-Agent` header, if any.
    pub user_agent: Option<Vec<u8>>,
}

/// The lines as byte sequences.
pub open spec fn views(lines: Seq<Vec<u8>>) -> Seq<Seq<u8>> {
    lines.map_values(|l: Vec<u8>| l@)
}

pub open spec fn opt_view(o: Option<Vec<u8>>) -> Option<Seq<u8>> {
    match o {
        Some(v) => Some(v@),
        None => None,
    }
}

/// A line that ends the head: `\r\n` alone, `\n` alone, or nothing at all
/// (the end of the stream).
pub open spec fn is_blank(l: Seq<u8>) -> bool {
    l.len() == 0 || l == seq![10u8] || l == seq![13u8, 10u8]
}

/// A line without its terminator (`\r\n` or `\n`).
pub open spec fn line_text(l: Seq<u8>) -> Seq<u8> {
    if has_suffix(l, crlf()) {
        l.subrange(0, l.len() - 2)
    } else if l.len() > 0 && l.last() == 10 {
        l.drop_last()
    } else {
        l
    }
}

/// What follows `field` at the start of `l`.
pub open spec fn after(l: Seq<u8>, field: Seq<u8>) -> Seq<u8> {
    l.subrange(field.len() as int, l.len() as int)
}

/// The value of a `Content-Length` line.
pub open spec fn length_value(l: Seq<u8>) -> Option<nat> {
    unsigned_value(trim(after(l, content_length_field())))
}

/// A line that is either no `Content-Length` header or one with a usable value.
pub open spec fn length_line_ok(l: Seq<u8>) -> bool {
    has_prefix(l, content_length_field()) ==> (length_value(l) is Some && length_value(l).unwrap()
        <= usize::MAX)
}

/// Every `Content-Length` header of the head has a usable value.
pub open spec fn head_ok(lines: Seq<Seq<u8>>) -> bool {
    forall|i: int| 0 <= i < lines.len() ==> length_line_ok(#[trigger] lines[i])
}

/// The value of the last `Content-Length` header; 0 when there is none.
pub open spec fn last_length(lines: Seq<Seq<u8>>) -> nat
    decreases lines.len(),
{
    if lines.len() == 0 {
        0
    } else if has_prefix(lines.last(), content_length_field()) {
        length_value(lines.last()).unwrap()
    } else {
        last_length(lines.drop_last())
    }
}

/// The declared body length; `None` when some `Content-Length` header is unusable.
pub open spec fn declared_length(lines: Seq<Seq<u8>>) -> Option<nat> {
    if head_ok(lines) {
        Some(last_length(lines))
    } else {
        None
    }
}

/// Whether an `Accept-Encoding` value names gzip: "gzip" occurs in it once
/// ASCII letters are lowered (a plain substring test, so "gzipper" counts).
pub open spec fn names_gzip(value: Seq<u8>) -> bool {
    contains(lower(trim(value)), gzip_token())
}

/// Whether the last `Accept-Encoding` header names gzip; false when there is none.
pub open spec fn gzip_accepted(lines: Seq<Seq<u8>>) -> bool
    decreases lines.len(),
{
    if lines.len() == 0 {
        false
    } else if has_prefix(lines.last(), accept_encoding_field()) {
        names_gzip(after(lines.last(), accept_encoding_field()))
    } else {
        gzip_accepted(lines.drop_last())
    }
}

/// The value of the first line that starts with `User-Agent: `, taken
/// verbatim up to the line terminator.
pub open spec fn user_agent(lines: Seq<Seq<u8>>) -> Option<Seq<u8>>
    decreases lines.len(),
{
    if lines.len() == 0 {
        None
    } else if user_agent(lines.drop_last()) is Some {
        user_agent(lines.drop_last())
    } else if has_prefix(line_text(lines.last()), user_agent_field()) {
        Some(after(line_text(lines.last()), user_agent_field()))
    } else {
        None
    }
}

/// The request line: the first line's text, or nothing.
pub open spec fn request_line_of(lines: Seq<Seq<u8>>) -> Seq<u8> {
    if lines.len() > 0 {
        line_text(lines[0])
    } else {
        Seq::empty()
    }
}

/// Whether `line` ends the head, so that no further line is to be read.
pub fn is_blank_line(line: &[u8]) -> (r: bool)
    ensures
        r == is_blank(line@),
{
    let r = line.len() == 0 || (line.len() == 1 && line[0] == 10) || (line.len() == 2 && line[0]
        == 13 && line[1] == 10);
    proof {
        if line@.len() == 1 && line@[0] == 10 {
            assert(line@ =~= seq![10u8]);
        }
        if line@.len() == 2 && line@[0] == 13 && line@[1] == 10 {
            assert(line@ =~= seq![13u8, 10u8]);
        }
    }
    r
}

/// `line` without its terminator.
pub fn line_text_exec(line: &[u8]) -> (r: Vec<u8>)
    ensures
        r@ == line_text(line@),
{
    let end = crlf_vec();
    if ends_with(line, end.as_slice()) {
        copy_range(line, 0, line.len() - 2)
    } else if line.len() > 0 && line[line.len() - 1] == 10 {
        copy_range(line, 0, line.len() - 1)
    } else {
        copy_range(line, 0, line.len())
    }
}

/// Parses the head lines (all lines before the blank one, each with its
/// terminator). Every head parses; an unusable `Content-Length` value only
/// leaves the declared length unknown.
pub fn parse_head(lines: &Vec<Vec<u8>>) -> (h: RequestHead)
    ensures
        h.request_line@ == request_line_of(views(lines@)),
        h.content_length matches Some(n) ==> declared_length(views(lines@)) == Some(n as nat),
        h.content_length is None ==> declared_length(views(lines@)) is None,
        h.accepts_gzip == gzip_accepted(views(lines@)),
        opt_view(h.user_agent) == user_agent(views(lines@)),
{
    let ghost all = views(lines@);
    let cl_field = content_length_field_vec();
    let ae_field = accept_encoding_field_vec();
    let ua_field = user_agent_field_vec();
    let gz = gzip_token_vec();
    let mut content_length: usize = 0;
    let mut unusable = false;
    let mut accepts_gzip = false;
    let mut agent: Option<Vec<u8>> = None;
    let mut i: usize = 0;
    assert(all.subrange(0, 0) =~= Seq::<Seq<u8>>::empty());
    while i < lines.len()
        invariant
            all == views(lines@),
            cl_field@ == content_length_field(),
            ae_field@ == accept_encoding_field(),
            ua_field@ == user_agent_field(),
            gz@ == gzip_token(),
            i <= lines@.len(),
            unusable == !head_ok(all.subrange(0, i as int)),
            !unusable ==> content_length == last_length(all.subrange(0, i as int)),
            accepts_gzip == gzip_accepted(all.subrange(0, i as int)),
            opt_view(agent) == user_agent(all.subrange(0, i as int)),
        decreases lines@.len() - i,
    {
        let line = lines[i].as_slice();
        let ghost pre = all.subrange(0, i as int);
        let ghost next = all.subrange(0, i + 1);
        assert(next.drop_last() =~= pre);
        assert(next.last() == line@);
        if starts_with(line, cl_field.as_slice()) {
            let rest = copy_range(line, cl_field.len(), line.len());
            let value = trimmed(rest.as_slice());
            match parse_unsigned(value.as_slice()) {
                Some(v) => {
                    content_length = v;
                },
                None => {
                    unusable = true;
                },
            }
        } else if starts_with(line, ae_field.as_slice()) {
            let rest = copy_range(line, ae_field.len(), line.len());
            let value = trimmed(rest.as_slice());
            let low = lowered(value.as_slice());
            accepts_gzip = contains_exec(low.as_slice(), gz.as_slice());
        }
        if agent.is_none() {
            let text = line_text_exec(line);
            if starts_with(text.as_slice(), ua_field.as_slice()) {
                agent = Some(copy_range(text.as_slice(), ua_field.len(), text.len()));
            }
        }
        assert(head_ok(next) == (head_ok(pre) && length_line_ok(line@))) by {
            assert forall|j: int| 0 <= j < pre.len() implies pre[j] == #[trigger] next[j] by {}
            if head_ok(pre) && length_line_ok(line@) {
                assert forall|j: int| 0 <= j < next.len() implies length_line_ok(#[trigger] next[j]) by {
                    if j < i {
                        assert(next[j] == pre[j]);
                    }
                }
            }
            if head_ok(next) {
                assert(length_line_ok(next[i as int]));
                assert forall|j: int| 0 <= j < pre.len() implies length_line_ok(#[trigger] pre[j]) by {
                    assert(next[j] == pre[j]);
                }
            }
        }
        i = i + 1;
    }
    assert(all.subrange(0, lines@.len() as int) =~= all);
    let request_line = if lines.len() > 0 {
        line_text_exec(lines[0].as_slice())
    } else {
        Vec::new()
    };
    let content_length = if unusable {
        None
    } else {
        Some(content_length)
    };
    RequestHead { request_line, content_length, accepts_gzip, user_agent: agent }
}

} // verus!
