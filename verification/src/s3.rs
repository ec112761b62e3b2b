//! The object store's protocol: the requests that reach an object, and
//! what its responses mean.

pub mod context;
pub mod signature;

use crate::s3::context::Context;
use crate::s3::context::ContextView;
use crate::s3::signature::authorization;
use crate::s3::signature::spec_authorization_header;
use crate::s3::signature::spec_sign;
use crate::s3::signature::spec_string_to_sign;
use vstd::prelude::*;
use vstd::utf8::encode_utf8;

verus! {

/// The store answered with an error.
#[derive(Debug, Clone, PartialEq, Eq)]
pub enum S3Error {
    General { reason: String },
}

/// The verbs that the cache uses.
#[derive(Clone, Copy, PartialEq, Eq, Structural, Debug)]
pub enum Method {
    Get,
    Put,
}

/// A request to the store, ready to be sent.
#[derive(Debug)]
pub struct Request {
    pub method: Method,
    pub url: String,
    /// Header names and values, in the order in which they are set.
    pub headers: Vec<(String, String)>,
    pub body: Vec<u8>,
}

pub struct RequestView {
    pub method: Method,
    pub url: Seq<char>,
    pub headers: Seq<(Seq<char>, Seq<char>)>,
    pub body: Seq<u8>,
}

impl View for Request {
    type V = RequestView;

    open spec fn view(&self) -> RequestView {
        RequestView {
            method: self.method,
            url: self.url@,
            headers: self.headers@.map_values(|h: (String, String)| (h.0@, h.1@)),
            body: self.body@,
        }
    }
}

/// What the store answered: the status code and the body.
#[derive(Debug)]
pub struct Response {
    pub status: u16,
    pub body: Vec<u8>,
}

/// The text that `String::from_utf8_lossy` makes of a byte string.
pub uninterp spec fn utf8_lossy(bytes: Seq<u8>) -> Seq<char>;

/// The decimal digit of a number below 10.
pub open spec fn decimal_digit(d: nat) -> char {
    seq!['0', '1', '2', '3', '4', '5', '6', '7', '8', '9'][d as int]
}

/// A number in decimal, without leading zeros; zero is `0`.
pub open spec fn decimal_digits(n: nat) -> Seq<char>
    decreases n,
{
    if n < 10 {
        seq![decimal_digit(n)]
    } else {
        decimal_digits(n / 10).push(decimal_digit(n % 10))
    }
}

/// The address of an object.
pub open spec fn spec_url(endpoint: Seq<char>, bucket: Seq<char>, key: Seq<char>) -> Seq<char> {
    seq!['h', 't', 't', 'p', 's', ':', '/', '/'] + endpoint + seq!['/'] + bucket + seq!['/'] + key
}

/// Whether a status code reports success.
pub open spec fn is_success(status: u16) -> bool {
    200 <= status < 300
}

/// The reason given for a response that reports an error.
pub open spec fn spec_failure_reason(operation: Seq<char>, text: Seq<char>, status: u16) -> Seq<
    char,
> {
    operation + seq![':', ' '] + text + seq![' ', '('] + decimal_digits(status as nat) + seq![')']
}

/// The authorization header of a request without content MD5 and without
/// canonical headers.
pub open spec fn spec_signed(
    c: ContextView,
    verb: Seq<char>,
    date: Seq<char>,
    key: Seq<char>,
    content_type: Seq<char>,
) -> Seq<char> {
    spec_authorization_header(
        c.access_key_id,
        spec_sign(
            encode_utf8(
                spec_string_to_sign(
                    verb,
                    Seq::empty(),
                    content_type,
                    date,
                    Seq::empty(),
                    c.bucket,
                    key,
                ),
            ),
            c.secret_access_key,
        ),
    )
}

/// The request that puts `data` under `key`.
pub open spec fn spec_put(c: ContextView, key: Seq<char>, date: Seq<char>, data: Seq<u8>) -> RequestView {
    RequestView {
        method: Method::Put,
        url: spec_url(c.endpoint, c.bucket, key),
        headers: seq![
            ("Date"@, date),
            ("Content-Type"@, "application/octet-stream"@),
            ("Content-Length"@, decimal_digits(data.len())),
            ("Authorization"@, spec_signed(c, "PUT"@, date, key, "application/octet-stream"@)),
        ],
        body: data,
    }
}

/// The request that gets the object under `key`.
pub open spec fn spec_get(c: ContextView, key: Seq<char>, date: Seq<char>) -> RequestView {
    RequestView {
        method: Method::Get,
        url: spec_url(c.endpoint, c.bucket, key),
        headers: seq![
            ("Date"@, date),
            ("Authorization"@, spec_signed(c, "GET"@, date, key, Seq::empty())),
        ],
        body: Seq::empty(),
    }
}

/// `format!` of std with `{}` on an unsigned integer: its decimal digits.
#[verifier::external_body]
fn decimal(n: u64) -> (text: String)
    ensures
        text@ == decimal_digits(n as nat),
{
    format!("{}", n)
}

/// `String::from_utf8_lossy` of std: the text of `bytes`, with a
/// replacement character for what is not UTF-8; believed to be the named
/// function of the bytes.
#[verifier::external_body]
fn lossy_text(bytes: &[u8]) -> (text: String)
    ensures
        text@ == utf8_lossy(bytes@),
{
    String::from_utf8_lossy(bytes).into_owned()
}

/// The address of the object `key` in the context's bucket.
pub fn url(context: &Context, key: &str) -> (r: String)
    ensures
        r@ == spec_url(context@.endpoint, context@.bucket, key@),
{
    proof {
        reveal_strlit("https://");
        reveal_strlit("/");
        assert("https://"@ =~= seq!['h', 't', 't', 'p', 's', ':', '/', '/']);
        assert("/"@ =~= seq!['/']);
    }
    let mut r = "https://".to_owned();
    r.append(context.endpoint().as_str());
    r.append("/");
    r.append(context.bucket().as_str());
    r.append("/");
    r.append(key);
    r
}

/// One header.
fn header(name: &str, value: String) -> (h: (String, String))
    ensures
        h.0@ == name@,
        h.1@ == value@,
{
    (name.to_owned(), value)
}

/// The request that puts `data` under `key`, dated `date`.
pub fn put(context: &Context, key: &str, date: &str, data: Vec<u8>) -> (r: Request)
    ensures
        r@ == spec_put(context@, key@, date@, data@),
{
    let signed = authorization("PUT", date, key, "", "", "application/octet-stream", context);
    proof {
        reveal_strlit("");
        assert(""@ =~= Seq::<char>::empty());
    }
    let mut headers: Vec<(String, String)> = Vec::new();
    headers.push(header("Date", date.to_owned()));
    headers.push(header("Content-Type", "application/octet-stream".to_owned()));
    headers.push(header("Content-Length", decimal(data.len() as u64)));
    headers.push(header("Authorization", signed));
    let r = Request { method: Method::Put, url: url(context, key), headers, body: data };
    proof {
        assert(r@.headers =~= spec_put(context@, key@, date@, data@).headers);
    }
    r
}

/// The request that gets the object under `key`, dated `date`.
pub fn get(context: &Context, key: &str, date: &str) -> (r: Request)
    ensures
        r@ == spec_get(context@, key@, date@),
{
    let signed = authorization("GET", date, key, "", "", "", context);
    proof {
        reveal_strlit("");
        assert(""@ =~= Seq::<char>::empty());
    }
    let mut headers: Vec<(String, String)> = Vec::new();
    headers.push(header("Date", date.to_owned()));
    headers.push(header("Authorization", signed));
    let r = Request { method: Method::Get, url: url(context, key), headers, body: Vec::new() };
    proof {
        assert(r@.headers =~= spec_get(context@, key@, date@).headers);
    }
    r
}

/// The request that gets the access control list of the object under
/// `key`: the request for the object `key?acl`.
pub fn get_acl(context: &Context, key: &str, date: &str) -> (r: Request)
    ensures
        r@ == spec_get(context@, key@ + seq!['?', 'a', 'c', 'l'], date@),
{
    proof {
        reveal_strlit("?acl");
        assert("?acl"@ =~= seq!['?', 'a', 'c', 'l']);
    }
    let mut resource = key.to_owned();
    resource.append("?acl");
    get(context, resource.as_str(), date)
}

/// The reason given for a response that reports an error: the operation,
/// the response's text and, in brackets, its status code.
pub fn failure_reason(operation: &str, text: &str, status: u16) -> (r: String)
    ensures
        r@ == spec_failure_reason(operation@, text@, status),
{
    proof {
        reveal_strlit(": ");
        reveal_strlit(" (");
        reveal_strlit(")");
        assert(": "@ =~= seq![':', ' ']);
        assert(" ("@ =~= seq![' ', '(']);
        assert(")"@ =~= seq![')']);
    }
    let code = decimal(status as u64);
    let mut r = operation.to_owned();
    r.append(": ");
    r.append(text);
    r.append(" (");
    r.append(code.as_str());
    r.append(")");
    r
}

/// The error that a response reports for an operation.
fn failure(operation: &str, response: &Response) -> (e: S3Error)
    ensures
        e matches S3Error::General { reason } && reason@ == spec_failure_reason(
            operation@,
            utf8_lossy(response.body@),
            response.status,
        ),
{
    let text = lossy_text(response.body.as_slice());
    S3Error::General { reason: failure_reason(operation, text.as_str(), response.status) }
}

/// The object that a response to `get` carries, or the error that it
/// reports: a status from 200 to 299 is success.
pub fn download(response: Response) -> (r: Result<Vec<u8>, S3Error>)
    ensures
        match r {
            Ok(data) => is_success(response.status) && data@ == response.body@,
            Err(S3Error::General { reason }) => !is_success(response.status) && reason@
                == spec_failure_reason(
                "Get Object"@,
                utf8_lossy(response.body@),
                response.status,
            ),
        },
{
    if !(200 <= response.status && response.status < 300) {
        return Err(failure("Get Object", &response));
    }
    Ok(response.body)
}

/// Whether a response to `put` reports success, or the error that it
/// reports.
pub fn upload(response: Response) -> (r: Result<(), S3Error>)
    ensures
        match r {
            Ok(_) => is_success(response.status),
            Err(S3Error::General { reason }) => !is_success(response.status) && reason@
                == spec_failure_reason(
                "Put Object"@,
                utf8_lossy(response.body@),
                response.status,
            ),
        },
{
    if !(200 <= response.status && response.status < 300) {
        return Err(failure("Put Object", &response));
    }
    Ok(())
}

/// Whether the object exists, from the response to `get_acl`: status 200
/// says that it does, 404 that it does not, any other is an error.
pub fn key_exists(response: Response) -> (r: Result<bool, S3Error>)
    ensures
        match r {
            Ok(present) => (response.status == 200 || response.status == 404) && present == (
                response.status == 200
            ),
            Err(S3Error::General { reason }) => response.status != 200 && response.status != 404
                && reason@ == spec_failure_reason(
                "Get Object ACL"@,
                utf8_lossy(response.body@),
                response.status,
            ),
        },
{
    if response.status == 200 {
        Ok(true)
    } else if response.status == 404 {
        Ok(false)
    } else {
        Err(failure("Get Object ACL", &response))
    }
}

} // verus!
