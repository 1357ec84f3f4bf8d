//! Route dispatch. A request head and the configured base directory decide
//! either a finished response or a file operation; the outcome of a file
//! operation then decides the response.

use vstd::prelude::*;

use crate::bytes::{append_bytes, copy_range, ends_with, has_prefix, has_suffix, starts_with};
use crate::gzip::{gzip_encode, gzip_of};
use crate::request::{
    declared_length, gzip_accepted, opt_view, parse_head, request_line_of, user_agent, views,
    RequestHead,
};
use crate::response::{is_response, ContentType, Response, Status};
use crate::tokens::{
    echo_prefix, echo_prefix_vec, files_get_prefix, files_get_prefix_vec, files_post_prefix,
    files_post_prefix_vec, root_line, root_line_vec, slash, slash_vec, user_agent_prefix,
    user_agent_prefix_vec, version_suffix, version_suffix_vec,
};

verus! {

/// What a request line asks for.
pub enum Target {
    Root,
    Echo(Vec<u8>),
    UserAgent,
    FileGet(Vec<u8>),
    FilePost(Vec<u8>),
    Unknown,
}

/// What is to be done for a request.
pub enum Action {
    /// Send this response.
    Respond(Response),
    /// Read the whole file at this path; see `file_read_response`.
    ReadFile(Vec<u8>),
    /// Read `length` body bytes from the connection and write them as the whole
    /// new contents of the file at `path`; see `file_write_response`. Only an
    /// upload with a usable `Content-Length` leads here.
    WriteFile { path: Vec<u8>, length: usize },
}

/// `line` starts with `prefix`, ends with ` HTTP/1.1`, and the two do not overlap.
pub open spec fn routed(line: Seq<u8>, prefix: Seq<u8>) -> bool {
    has_prefix(line, prefix) && has_suffix(line, version_suffix()) && prefix.len()
        + version_suffix().len() <= line.len()
}

/// The part of a routed line between `prefix` and ` HTTP/1.1`.
pub open spec fn middle(line: Seq<u8>, prefix: Seq<u8>) -> Seq<u8> {
    line.subrange(prefix.len() as int, line.len() - version_suffix().len())
}

/// The routes in priority order; the first that matches wins.
pub open spec fn target_of(t: Target, line: Seq<u8>) -> bool {
    if line == root_line() {
        t is Root
    } else if routed(line, echo_prefix()) {
        t matches Target::Echo(x) && x@ == middle(line, echo_prefix())
    } else if routed(line, user_agent_prefix()) {
        t is UserAgent
    } else if routed(line, files_get_prefix()) {
        t matches Target::FileGet(x) && x@ == middle(line, files_get_prefix())
    } else if routed(line, files_post_prefix()) {
        t matches Target::FilePost(x) && x@ == middle(line, files_post_prefix())
    } else {
        t is Unknown
    }
}

/// The path of file `name` under directory `dir`: they are joined with `/`,
/// with no check of what `name` holds.
pub open spec fn file_path(dir: Seq<u8>, name: Seq<u8>) -> Seq<u8> {
    dir + slash() + name
}

/// The action owed for a head with these parts.
pub open spec fn action_for(
    a: Action,
    line: Seq<u8>,
    gzip: bool,
    agent: Option<Seq<u8>>,
    length: Option<nat>,
    dir: Seq<u8>,
) -> bool {
    if line == root_line() {
        a matches Action::Respond(r) && is_response(r, Status::Okay, false, ContentType::TextPlain, Seq::empty())
    } else if routed(line, echo_prefix()) {
        let text = middle(line, echo_prefix());
        if gzip {
            a matches Action::Respond(r) && is_response(r, Status::Okay, true, ContentType::TextPlain, gzip_of(text))
        } else {
            a matches Action::Respond(r) && is_response(r, Status::Okay, false, ContentType::TextPlain, text)
        }
    } else if routed(line, user_agent_prefix()) {
        match agent {
            Some(v) => a matches Action::Respond(r) && is_response(r, Status::Okay, false, ContentType::TextPlain, v),
            None => a matches Action::Respond(r) && is_response(r, Status::BadRequest, false, ContentType::TextPlain, Seq::empty()),
        }
    } else if routed(line, files_get_prefix()) {
        a matches Action::ReadFile(p) && p@ == file_path(dir, middle(line, files_get_prefix()))
    } else if routed(line, files_post_prefix()) {
        match length {
            Some(len) => a matches Action::WriteFile { path, length: n } && path@ == file_path(
                dir,
                middle(line, files_post_prefix()),
            ) && n == len,
            None => a matches Action::Respond(r) && is_response(r, Status::BadRequest, false, ContentType::TextPlain, Seq::empty()),
        }
    } else {
        a matches Action::Respond(r) && is_response(r, Status::NotFound, false, ContentType::TextPlain, Seq::empty())
    }
}

/// What `dispatch` owes for the head lines `lines` under directory `dir`.
pub open spec fn dispatched(a: Action, lines: Seq<Seq<u8>>, dir: Seq<u8>) -> bool {
    action_for(
        a,
        request_line_of(lines),
        gzip_accepted(lines),
        user_agent(lines),
        declared_length(lines),
        dir,
    )
}

/// Whether `line` is routed under `prefix`.
fn routed_exec(line: &[u8], prefix: &[u8], suffix: &[u8]) -> (r: bool)
    requires
        suffix@ == version_suffix(),
    ensures
        r == routed(line@, prefix@),
{
    starts_with(line, prefix) && ends_with(line, suffix) && prefix.len() <= line.len()
        && suffix.len() <= line.len() - prefix.len()
}

/// Classifies a request line by the routes, in priority order.
pub fn classify(line: &[u8]) -> (t: Target)
    ensures
        target_of(t, line@),
{
    let root = root_line_vec();
    if line.len() == root.len() && starts_with(line, root.as_slice()) {
        assert(line@ =~= root_line());
        return Target::Root;
    }
    assert(line@ != root_line()) by {
        if line@ == root_line() {
            assert(line@.subrange(0, root@.len() as int) =~= root@);
        }
    }
    let suffix = version_suffix_vec();
    let end = line.len() - if suffix.len() <= line.len() { suffix.len() } else { line.len() };
    let echo = echo_prefix_vec();
    if routed_exec(line, echo.as_slice(), suffix.as_slice()) {
        return Target::Echo(copy_range(line, echo.len(), end));
    }
    let agent = user_agent_prefix_vec();
    if routed_exec(line, agent.as_slice(), suffix.as_slice()) {
        return Target::UserAgent;
    }
    let get = files_get_prefix_vec();
    if routed_exec(line, get.as_slice(), suffix.as_slice()) {
        return Target::FileGet(copy_range(line, get.len(), end));
    }
    let post = files_post_prefix_vec();
    if routed_exec(line, post.as_slice(), suffix.as_slice()) {
        return Target::FilePost(copy_range(line, post.len(), end));
    }
    Target::Unknown
}

/// The path of file `name` under `dir`.
pub fn join_path(dir: &[u8], name: &[u8]) -> (r: Vec<u8>)
    ensures
        r@ == file_path(dir@, name@),
{
    let mut r = copy_range(dir, 0, dir.len());
    assert(dir@.subrange(0, dir@.len() as int) =~= dir@);
    let sep = slash_vec();
    append_bytes(&mut r, sep.as_slice());
    append_bytes(&mut r, name);
    r
}

/// Decides what to do for a parsed head.
pub fn route(head: &RequestHead, directory: &[u8]) -> (a: Action)
    ensures
        action_for(
            a,
            head.request_line@,
            head.accepts_gzip,
            opt_view(head.user_agent),
            match head.content_length {
                Some(n) => Some(n as nat),
                None => None,
            },
            directory@,
        ),
{
    match classify(head.request_line.as_slice()) {
        Target::Root => Action::Respond(Response::empty(Status::Okay)),
        Target::Echo(text) => {
            if head.accepts_gzip {
                Action::Respond(Response::gzipped(gzip_encode(text.as_slice())))
            } else {
                Action::Respond(Response::ok(ContentType::TextPlain, text))
            }
        },
        Target::UserAgent => match &head.user_agent {
            Some(v) => {
                assert(opt_view(head.user_agent) == Some(v@));
                let body = copy_range(v.as_slice(), 0, v.len());
                assert(body@ =~= v@);
                Action::Respond(Response::ok(ContentType::TextPlain, body))
            },
            None => Action::Respond(Response::empty(Status::BadRequest)),
        },
        Target::FileGet(name) => Action::ReadFile(join_path(directory, name.as_slice())),
        Target::FilePost(name) => match head.content_length {
            Some(length) => Action::WriteFile { path: join_path(directory, name.as_slice()), length },
            None => Action::Respond(Response::empty(Status::BadRequest)),
        },
        Target::Unknown => Action::Respond(Response::empty(Status::NotFound)),
    }
}

/// Parses the head lines (those before the blank line, each with its
/// terminator) and decides what to do for them under `directory`. Every head
/// gets an action.
pub fn dispatch(lines: &Vec<Vec<u8>>, directory: &[u8]) -> (a: Action)
    ensures
        dispatched(a, views(lines@), directory@),
{
    let head = parse_head(lines);
    route(&head, directory)
}

/// The response owed for a file download whose read gave `contents`.
pub open spec fn read_outcome(r: Response, contents: Option<Seq<u8>>) -> bool {
    match contents {
        Some(b) => is_response(r, Status::Okay, false, ContentType::OctetStream, b),
        None => is_response(r, Status::NotFound, false, ContentType::TextPlain, Seq::empty()),
    }
}

/// The response owed for a file upload that was, or was not, written.
pub open spec fn write_outcome(r: Response, written: bool) -> bool {
    if written {
        is_response(r, Status::Created, false, ContentType::TextPlain, Seq::empty())
    } else {
        is_response(r, Status::InternalServerError, false, ContentType::TextPlain, Seq::empty())
    }
}

/// The response to a file download, given the file's contents, or `None` when
/// it could not be read for any reason.
pub fn file_read_response(contents: Option<Vec<u8>>) -> (r: Response)
    ensures
        read_outcome(r, opt_view(contents)),
{
    match contents {
        Some(b) => Response::ok(ContentType::OctetStream, b),
        None => Response::empty(Status::NotFound),
    }
}

/// The response to a file upload, given whether the file was written.
pub fn file_write_response(written: bool) -> (r: Response)
    ensures
        write_outcome(r, written),
{
    if written {
        Response::empty(Status::Created)
    } else {
        Response::empty(Status::InternalServerError)
    }
}

} // verus!
