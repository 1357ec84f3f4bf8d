//! The fixed byte strings of the wire protocol.

use vstd::prelude::*;

verus! {

/// The request line of a request for the root.
///
/// The bytes of `GET / HTTP/1.1`.
pub open spec fn root_line() -> Seq<u8> {
    seq![71u8, 69, 84, 32, 47, 32, 72, 84, 84, 80, 47, 49, 46, 49]
}

pub fn root_line_vec() -> (r: Vec<u8>)
    ensures
        r@ == root_line(),
{
    let r: Vec<u8> = vec![71u8, 69, 84, 32, 47, 32, 72, 84, 84, 80, 47, 49, 46, 49];
    assert(r@ =~= root_line());
    r
}

/// Start of an echo request line.
///
/// The bytes of `GET /echo/`.
pub open spec fn echo_prefix() -> Seq<u8> {
    seq![71u8, 69, 84, 32, 47, 101, 99, 104, 111, 47]
}

pub fn echo_prefix_vec() -> (r: Vec<u8>)
    ensures
        r@ == echo_prefix(),
{
    let r: Vec<u8> = vec![71u8, 69, 84, 32, 47, 101, 99, 104, 111, 47];
    assert(r@ =~= echo_prefix());
    r
}

/// End of every routed request line.
///
/// The bytes of ` HTTP/1.1`.
pub open spec fn version_suffix() -> Seq<u8> {
    seq![32u8, 72, 84, 84, 80, 47, 49, 46, 49]
}

pub fn version_suffix_vec() -> (r: Vec<u8>)
    ensures
        r@ == version_suffix(),
{
    let r: Vec<u8> = vec![32u8, 72, 84, 84, 80, 47, 49, 46, 49];
    assert(r@ =~= version_suffix());
    r
}

/// Start of a user-agent request line.
///
/// The bytes of `GET /user-agent`.
pub open spec fn user_agent_prefix() -> Seq<u8> {
    seq![71u8, 69, 84, 32, 47, 117, 115, 101, 114, 45, 97, 103, 101, 110, 116]
}

pub fn user_agent_prefix_vec() -> (r: Vec<u8>)
    ensures
        r@ == user_agent_prefix(),
{
    let r: Vec<u8> = vec![71u8, 69, 84, 32, 47, 117, 115, 101, 114, 45, 97, 103, 101, 110, 116];
    assert(r@ =~= user_agent_prefix());
    r
}

/// Start of a file download request line.
///
/// The bytes of `GET /files/`.
pub open spec fn files_get_prefix() -> Seq<u8> {
    seq![71u8, 69, 84, 32, 47, 102, 105, 108, 101, 115, 47]
}

pub fn files_get_prefix_vec() -> (r: Vec<u8>)
    ensures
        r@ == files_get_prefix(),
{
    let r: Vec<u8> = vec![71u8, 69, 84, 32, 47, 102, 105, 108, 101, 115, 47];
    assert(r@ =~= files_get_prefix());
    r
}

/// Start of a file upload request line.
///
/// The bytes of `POST /files/`.
pub open spec fn files_post_prefix() -> Seq<u8> {
    seq![80u8, 79, 83, 84, 32, 47, 102, 105, 108, 101, 115, 47]
}

pub fn files_post_prefix_vec() -> (r: Vec<u8>)
    ensures
        r@ == files_post_prefix(),
{
    let r: Vec<u8> = vec![80u8, 79, 83, 84, 32, 47, 102, 105, 108, 101, 115, 47];
    assert(r@ =~= files_post_prefix());
    r
}

/// Header name and separator of the body length, in requests and responses.
///
/// The bytes of `Content-Length: `.
pub open spec fn content_length_field() -> Seq<u8> {
    seq![67u8, 111, 110, 116, 101, 110, 116, 45, 76, 101, 110, 103, 116, 104, 58, 32]
}

pub fn content_length_field_vec() -> (r: Vec<u8>)
    ensures
        r@ == content_length_field(),
{
    let r: Vec<u8> = vec![67u8, 111, 110, 116, 101, 110, 116, 45, 76, 101, 110, 103, 116, 104, 58, 32];
    assert(r@ =~= content_length_field());
    r
}

/// Header name and separator of the accepted encodings.
///
/// The bytes of `Accept-Encoding: `.
pub open spec fn accept_encoding_field() -> Seq<u8> {
    seq![65u8, 99, 99, 101, 112, 116, 45, 69, 110, 99, 111, 100, 105, 110, 103, 58, 32]
}

pub fn accept_encoding_field_vec() -> (r: Vec<u8>)
    ensures
        r@ == accept_encoding_field(),
{
    let r: Vec<u8> = vec![65u8, 99, 99, 101, 112, 116, 45, 69, 110, 99, 111, 100, 105, 110, 103, 58, 32];
    assert(r@ =~= accept_encoding_field());
    r
}

/// Header name and separator of the client identification.
///
/// The bytes of `User-Agent: `.
pub open spec fn user_agent_field() -> Seq<u8> {
    seq![85u8, 115, 101, 114, 45, 65, 103, 101, 110, 116, 58, 32]
}

pub fn user_agent_field_vec() -> (r: Vec<u8>)
    ensures
        r@ == user_agent_field(),
{
    let r: Vec<u8> = vec![85u8, 115, 101, 114, 45, 65, 103, 101, 110, 116, 58, 32];
    assert(r@ =~= user_agent_field());
    r
}

/// The encoding token looked for in `Accept-Encoding`.
///
/// The bytes of `gzip`.
pub open spec fn gzip_token() -> Seq<u8> {
    seq![103u8, 122, 105, 112]
}

pub fn gzip_token_vec() -> (r: Vec<u8>)
    ensures
        r@ == gzip_token(),
{
    let r: Vec<u8> = vec![103u8, 122, 105, 112];
    assert(r@ =~= gzip_token());
    r
}

/// Start of every status line.
///
/// The bytes of `HTTP/1.1 `.
pub open spec fn status_prefix() -> Seq<u8> {
    seq![72u8, 84, 84, 80, 47, 49, 46, 49, 32]
}

pub fn status_prefix_vec() -> (r: Vec<u8>)
    ensures
        r@ == status_prefix(),
{
    let r: Vec<u8> = vec![72u8, 84, 84, 80, 47, 49, 46, 49, 32];
    assert(r@ =~= status_prefix());
    r
}

/// The bytes of `200 OK`.
pub open spec fn reason_ok() -> Seq<u8> {
    seq![50u8, 48, 48, 32, 79, 75]
}

pub fn reason_ok_vec() -> (r: Vec<u8>)
    ensures
        r@ == reason_ok(),
{
    let r: Vec<u8> = vec![50u8, 48, 48, 32, 79, 75];
    assert(r@ =~= reason_ok());
    r
}

/// The bytes of `201 Created`.
pub open spec fn reason_created() -> Seq<u8> {
    seq![50u8, 48, 49, 32, 67, 114, 101, 97, 116, 101, 100]
}

pub fn reason_created_vec() -> (r: Vec<u8>)
    ensures
        r@ == reason_created(),
{
    let r: Vec<u8> = vec![50u8, 48, 49, 32, 67, 114, 101, 97, 116, 101, 100];
    assert(r@ =~= reason_created());
    r
}

/// The bytes of `400 Bad Request`.
pub open spec fn reason_bad_request() -> Seq<u8> {
    seq![52u8, 48, 48, 32, 66, 97, 100, 32, 82, 101, 113, 117, 101, 115, 116]
}

pub fn reason_bad_request_vec() -> (r: Vec<u8>)
    ensures
        r@ == reason_bad_request(),
{
    let r: Vec<u8> = vec![52u8, 48, 48, 32, 66, 97, 100, 32, 82, 101, 113, 117, 101, 115, 116];
    assert(r@ =~= reason_bad_request());
    r
}

/// The bytes of `404 Not Found`.
pub open spec fn reason_not_found() -> Seq<u8> {
    seq![52u8, 48, 52, 32, 78, 111, 116, 32, 70, 111, 117, 110, 100]
}

pub fn reason_not_found_vec() -> (r: Vec<u8>)
    ensures
        r@ == reason_not_found(),
{
    let r: Vec<u8> = vec![52u8, 48, 52, 32, 78, 111, 116, 32, 70, 111, 117, 110, 100];
    assert(r@ =~= reason_not_found());
    r
}

/// The bytes of `500 Internal Server Error`.
pub open spec fn reason_server_error() -> Seq<u8> {
    seq![53u8, 48, 48, 32, 73, 110, 116, 101, 114, 110, 97, 108, 32, 83, 101, 114, 118, 101, 114, 32, 69, 114, 114, 111, 114]
}

pub fn reason_server_error_vec() -> (r: Vec<u8>)
    ensures
        r@ == reason_server_error(),
{
    let r: Vec<u8> = vec![53u8, 48, 48, 32, 73, 110, 116, 101, 114, 110, 97, 108, 32, 83, 101, 114, 118, 101, 114, 32, 69, 114, 114, 111, 114];
    assert(r@ =~= reason_server_error());
    r
}

/// Line terminator.
///
/// The bytes of `\r\n`.
pub open spec fn crlf() -> Seq<u8> {
    seq![13u8, 10]
}

pub fn crlf_vec() -> (r: Vec<u8>)
    ensures
        r@ == crlf(),
{
    let r: Vec<u8> = vec![13u8, 10];
    assert(r@ =~= crlf());
    r
}

/// The header line of a gzip-encoded body.
///
/// The bytes of `Content-Encoding: gzip\r\n`.
pub open spec fn content_encoding_gzip() -> Seq<u8> {
    seq![67u8, 111, 110, 116, 101, 110, 116, 45, 69, 110, 99, 111, 100, 105, 110, 103, 58, 32, 103, 122, 105, 112, 13, 10]
}

pub fn content_encoding_gzip_vec() -> (r: Vec<u8>)
    ensures
        r@ == content_encoding_gzip(),
{
    let r: Vec<u8> = vec![67u8, 111, 110, 116, 101, 110, 116, 45, 69, 110, 99, 111, 100, 105, 110, 103, 58, 32, 103, 122, 105, 112, 13, 10];
    assert(r@ =~= content_encoding_gzip());
    r
}

/// Header name and separator of the media type.
///
/// The bytes of `Content-Type: `.
pub open spec fn content_type_field() -> Seq<u8> {
    seq![67u8, 111, 110, 116, 101, 110, 116, 45, 84, 121, 112, 101, 58, 32]
}

pub fn content_type_field_vec() -> (r: Vec<u8>)
    ensures
        r@ == content_type_field(),
{
    let r: Vec<u8> = vec![67u8, 111, 110, 116, 101, 110, 116, 45, 84, 121, 112, 101, 58, 32];
    assert(r@ =~= content_type_field());
    r
}

/// The bytes of `text/plain`.
pub open spec fn text_plain() -> Seq<u8> {
    seq![116u8, 101, 120, 116, 47, 112, 108, 97, 105, 110]
}

pub fn text_plain_vec() -> (r: Vec<u8>)
    ensures
        r@ == text_plain(),
{
    let r: Vec<u8> = vec![116u8, 101, 120, 116, 47, 112, 108, 97, 105, 110];
    assert(r@ =~= text_plain());
    r
}

/// The bytes of `application/octet-stream`.
pub open spec fn octet_stream() -> Seq<u8> {
    seq![97u8, 112, 112, 108, 105, 99, 97, 116, 105, 111, 110, 47, 111, 99, 116, 101, 116, 45, 115, 116, 114, 101, 97, 109]
}

pub fn octet_stream_vec() -> (r: Vec<u8>)
    ensures
        r@ == octet_stream(),
{
    let r: Vec<u8> = vec![97u8, 112, 112, 108, 105, 99, 97, 116, 105, 111, 110, 47, 111, 99, 116, 101, 116, 45, 115, 116, 114, 101, 97, 109];
    assert(r@ =~= octet_stream());
    r
}

/// Separator between the base directory and a file name.
///
/// The bytes of `/`.
pub open spec fn slash() -> Seq<u8> {
    seq![47u8]
}

pub fn slash_vec() -> (r: Vec<u8>)
    ensures
        r@ == slash(),
{
    let r: Vec<u8> = vec![47u8];
    assert(r@ =~= slash());
    r
}

} // verus!
