//! Properties of the whole request-to-response path, proved from the
//! contracts of `dispatch`, `file_read_response` and `Response::to_bytes`.

use vstd::prelude::*;

use crate::bytes::{decimal, has_prefix};
use crate::gzip::gzip_of;
use crate::request::{declared_length, gzip_accepted, line_text, user_agent};
use crate::response::{head_bytes, wire, ContentType, Response, Status};
use crate::router::{dispatched, file_path, middle, read_outcome, routed, Action};
use crate::tokens::{
    crlf, echo_prefix, files_get_prefix, files_post_prefix, root_line, user_agent_prefix,
    version_suffix,
};

verus! {

/// A line read with its `\r\n` terminator has the text before it.
pub proof fn lemma_line_text_crlf(x: Seq<u8>)
    ensures
        line_text(x + crlf()) == x,
{
    let l = x + crlf();
    assert(l.subrange(l.len() - 2, l.len() as int) =~= crlf());
    assert(l.subrange(0, l.len() - 2) =~= x);
}

/// `prefix`, then `name`, then ` HTTP/1.1` is routed under `prefix` with
/// `name` in the middle.
pub proof fn lemma_routed(prefix: Seq<u8>, name: Seq<u8>)
    ensures
        routed(prefix + name + version_suffix(), prefix),
        middle(prefix + name + version_suffix(), prefix) == name,
{
    let l = prefix + name + version_suffix();
    assert(l.subrange(0, prefix.len() as int) =~= prefix);
    assert(l.subrange(l.len() - version_suffix().len(), l.len() as int) =~= version_suffix());
    assert(l.subrange(prefix.len() as int, l.len() - version_suffix().len()) =~= name);
}

/// A sequence that starts with `q` does not start with `p` when the two differ
/// at some index within both.
pub proof fn lemma_prefix_clash(s: Seq<u8>, p: Seq<u8>, q: Seq<u8>, k: int)
    requires
        has_prefix(s, q),
        0 <= k < p.len(),
        k < q.len(),
        p[k] != q[k],
    ensures
        !has_prefix(s, p),
{
    assert(s.subrange(0, q.len() as int)[k] == q[k]);
    if has_prefix(s, p) {
        assert(s.subrange(0, p.len() as int)[k] == p[k]);
    }
}

/// Not the root line, nor an echo or a user-agent request: a line that starts
/// with `GET /files/` or `POST /files/`.
proof fn lemma_file_line_not_earlier(line: Seq<u8>, prefix: Seq<u8>)
    requires
        prefix == files_get_prefix() || prefix == files_post_prefix(),
        has_prefix(line, prefix),
    ensures
        line != root_line(),
        !routed(line, echo_prefix()),
        !routed(line, user_agent_prefix()),
        prefix == files_post_prefix() ==> !routed(line, files_get_prefix()),
{
    let k: int = if prefix == files_get_prefix() { 5 } else { 0 };
    lemma_prefix_clash(line, echo_prefix(), prefix, k);
    lemma_prefix_clash(line, user_agent_prefix(), prefix, k);
    if prefix == files_post_prefix() {
        lemma_prefix_clash(line, files_get_prefix(), files_post_prefix(), 0);
    }
    if line == root_line() {
        assert(has_prefix(line, root_line())) by {
            assert(line.subrange(0, line.len() as int) =~= line);
        }
        lemma_prefix_clash(line, root_line(), prefix, k);
    }
}

/// Echo without gzip: for every text `text`, a request whose line is
/// `GET /echo/{text} HTTP/1.1` and that does not negotiate gzip gets `200 OK`
/// with body `text` and `Content-Length` equal to its byte length.
pub proof fn law_echo_plain(lines: Seq<Seq<u8>>, dir: Seq<u8>, text: Seq<u8>, r: Action)
    requires
        lines.len() > 0,
        lines[0] == echo_prefix() + text + version_suffix() + crlf(),
        !gzip_accepted(lines),
        dispatched(r, lines, dir),
    ensures
        r matches Action::Respond(resp) && {
            &&& resp.status == Status::Okay
            &&& resp.body@ == text
            &&& wire(resp.status, resp.gzip, resp.content_type, resp.body@) == head_bytes(
                Status::Okay,
                false,
                ContentType::TextPlain,
                text.len(),
            ) + text
        },
{
    let line = echo_prefix() + text + version_suffix();
    lemma_line_text_crlf(line);
    lemma_routed(echo_prefix(), text);
    assert(line != root_line()) by {
        assert(line.len() != root_line().len());
    }
}

/// Echo with gzip: for every text `text`, a request whose line is
/// `GET /echo/{text} HTTP/1.1` and that negotiates gzip gets `200 OK`, marked
/// `Content-Encoding: gzip`, whose body is the gzip encoding of `text` and
/// whose `Content-Length` is that encoding's length.
pub proof fn law_echo_gzip(lines: Seq<Seq<u8>>, dir: Seq<u8>, text: Seq<u8>, r: Action)
    requires
        lines.len() > 0,
        lines[0] == echo_prefix() + text + version_suffix() + crlf(),
        gzip_accepted(lines),
        dispatched(r, lines, dir),
    ensures
        r matches Action::Respond(resp) && {
            &&& resp.status == Status::Okay
            &&& resp.gzip
            &&& resp.body@ == gzip_of(text)
            &&& wire(resp.status, resp.gzip, resp.content_type, resp.body@) == head_bytes(
                Status::Okay,
                true,
                ContentType::TextPlain,
                gzip_of(text).len(),
            ) + gzip_of(text)
        },
{
    let line = echo_prefix() + text + version_suffix();
    lemma_line_text_crlf(line);
    lemma_routed(echo_prefix(), text);
    assert(line != root_line()) by {
        assert(line.len() != root_line().len());
    }
}

/// The root: a request whose line is `GET / HTTP/1.1` gets `200 OK` with an
/// empty body and `Content-Length: 0`, whatever headers follow.
pub proof fn law_root(lines: Seq<Seq<u8>>, dir: Seq<u8>, r: Action)
    requires
        lines.len() > 0,
        lines[0] == root_line() + crlf(),
        dispatched(r, lines, dir),
    ensures
        r matches Action::Respond(resp) && {
            &&& resp.status == Status::Okay
            &&& resp.body@.len() == 0
            &&& wire(resp.status, resp.gzip, resp.content_type, resp.body@) == head_bytes(
                Status::Okay,
                false,
                ContentType::TextPlain,
                0,
            )
            &&& decimal(0) == seq![48u8]
        },
{
    lemma_line_text_crlf(root_line());
    assert(decimal(0) =~= seq![48u8]);
    if let Action::Respond(resp) = r {
        assert(resp.body@ + Seq::<u8>::empty() =~= resp.body@);
        assert(head_bytes(Status::Okay, false, ContentType::TextPlain, 0) + Seq::<u8>::empty()
            =~= head_bytes(Status::Okay, false, ContentType::TextPlain, 0));
    }
}

/// User agent: a request whose line is `GET /user-agent HTTP/1.1` gets `200 OK`
/// with the first `User-Agent` value as body when it has one, and
/// `400 Bad Request` with an empty body when it has none.
pub proof fn law_user_agent(lines: Seq<Seq<u8>>, dir: Seq<u8>, r: Action)
    requires
        lines.len() > 0,
        lines[0] == user_agent_prefix() + version_suffix() + crlf(),
        dispatched(r, lines, dir),
    ensures
        r matches Action::Respond(resp) && match user_agent(lines) {
            Some(v) => resp.status == Status::Okay && resp.body@ == v,
            None => resp.status == Status::BadRequest && resp.body@.len() == 0,
        },
{
    let line = user_agent_prefix() + version_suffix();
    assert(line =~= user_agent_prefix() + Seq::<u8>::empty() + version_suffix());
    lemma_line_text_crlf(line);
    lemma_routed(user_agent_prefix(), Seq::<u8>::empty());
    lemma_prefix_clash(line, echo_prefix(), user_agent_prefix(), 5);
    assert(line != root_line()) by {
        assert(line.len() != root_line().len());
    }
}

/// What a whole-file read finds at `path` in a store of files keyed by path.
pub open spec fn lookup(store: Map<Seq<u8>, Seq<u8>>, path: Seq<u8>) -> Option<Seq<u8>> {
    if store.contains_key(path) {
        Some(store[path])
    } else {
        None
    }
}

/// Upload then download: a `POST /files/{name}` whose `Content-Length` is the
/// length of `body` writes some path; once the store holds `body` there, a
/// `GET /files/{name}` reads that same path and answers `200 OK` with body
/// `body`.
pub proof fn law_upload_then_download(
    post: Seq<Seq<u8>>,
    get: Seq<Seq<u8>>,
    dir: Seq<u8>,
    name: Seq<u8>,
    body: Seq<u8>,
    store: Map<Seq<u8>, Seq<u8>>,
    r1: Action,
    r2: Action,
    resp: Response,
)
    requires
        post.len() > 0,
        post[0] == files_post_prefix() + name + version_suffix() + crlf(),
        declared_length(post) == Some(body.len()),
        get.len() > 0,
        get[0] == files_get_prefix() + name + version_suffix() + crlf(),
        dispatched(r1, post, dir),
        dispatched(r2, get, dir),
        r1 matches Action::WriteFile { path, length } ==> (r2 matches Action::ReadFile(p)
            ==> read_outcome(resp, lookup(store.insert(path@, body), p@))),
    ensures
        r1 matches Action::WriteFile { path, length } && length == body.len(),
        r2 matches Action::ReadFile(p) && r1 matches Action::WriteFile { path, length }
            && p@ == path@,
        resp.status == Status::Okay && resp.body@ == body,
{
    let pl = files_post_prefix() + name + version_suffix();
    let gl = files_get_prefix() + name + version_suffix();
    lemma_line_text_crlf(pl);
    lemma_line_text_crlf(gl);
    lemma_routed(files_post_prefix(), name);
    lemma_routed(files_get_prefix(), name);
    lemma_file_line_not_earlier(pl, files_post_prefix());
    lemma_file_line_not_earlier(gl, files_get_prefix());
}

/// Missing file: a `GET /files/{name}` reads the path of `name` under the
/// directory, and when the store has no file there the answer is
/// `404 Not Found` with an empty body.
pub proof fn law_missing_file(
    get: Seq<Seq<u8>>,
    dir: Seq<u8>,
    name: Seq<u8>,
    store: Map<Seq<u8>, Seq<u8>>,
    r: Action,
    resp: Response,
)
    requires
        get.len() > 0,
        get[0] == files_get_prefix() + name + version_suffix() + crlf(),
        !store.contains_key(file_path(dir, name)),
        dispatched(r, get, dir),
        r matches Action::ReadFile(p) ==> read_outcome(resp, lookup(store, p@)),
    ensures
        r matches Action::ReadFile(p) && p@ == file_path(dir, name),
        resp.status == Status::NotFound && resp.body@.len() == 0,
{
    let gl = files_get_prefix() + name + version_suffix();
    lemma_line_text_crlf(gl);
    lemma_routed(files_get_prefix(), name);
    lemma_file_line_not_earlier(gl, files_get_prefix());
}

/// Unusable length: a `POST /files/{name}` whose `Content-Length` is not an
/// unsigned number fitting in `usize` writes nothing and is answered
/// `400 Bad Request` with an empty body.
pub proof fn law_upload_bad_length(lines: Seq<Seq<u8>>, dir: Seq<u8>, name: Seq<u8>, r: Action)
    requires
        lines.len() > 0,
        lines[0] == files_post_prefix() + name + version_suffix() + crlf(),
        declared_length(lines) is None,
        dispatched(r, lines, dir),
    ensures
        r matches Action::Respond(resp) && resp.status == Status::BadRequest && resp.body@.len()
            == 0,
{
    let pl = files_post_prefix() + name + version_suffix();
    lemma_line_text_crlf(pl);
    lemma_routed(files_post_prefix(), name);
    lemma_file_line_not_earlier(pl, files_post_prefix());
}

/// Overwrite: two uploads to the same `/files/{name}`, each with a usable
/// `Content-Length`, write the same path, and
/// a store that takes each upload as the whole new contents holds only the
/// second body there.
pub proof fn law_second_upload_wins(
    first: Seq<Seq<u8>>,
    second: Seq<Seq<u8>>,
    dir: Seq<u8>,
    name: Seq<u8>,
    b1: Seq<u8>,
    b2: Seq<u8>,
    store: Map<Seq<u8>, Seq<u8>>,
    r1: Action,
    r2: Action,
)
    requires
        first.len() > 0,
        first[0] == files_post_prefix() + name + version_suffix() + crlf(),
        second.len() > 0,
        second[0] == first[0],
        declared_length(first) == Some(b1.len()),
        declared_length(second) == Some(b2.len()),
        dispatched(r1, first, dir),
        dispatched(r2, second, dir),
    ensures
        r1 matches Action::WriteFile { path: p1, length: n1 } && r2 matches Action::WriteFile {
            path: p2,
            length: n2,
        } && n1 == b1.len() && n2 == b2.len() && p1@ == p2@ && store.insert(p1@, b1).insert(p2@, b2)[p1@] == b2
            && store.insert(p1@, b1).insert(p2@, b2) == store.insert(p2@, b2),
{
    let pl = files_post_prefix() + name + version_suffix();
    lemma_line_text_crlf(pl);
    lemma_routed(files_post_prefix(), name);
    lemma_file_line_not_earlier(pl, files_post_prefix());
    if let Action::WriteFile { path: p1, length: n1 } = r1 {
        assert(store.insert(p1@, b1).insert(p1@, b2) =~= store.insert(p1@, b2));
    }
}

} // verus!
