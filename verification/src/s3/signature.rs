//! Request signing: the canonical string of a request, its HMAC-SHA1 under
//! the secret key, and the authorization header made of it.

use crate::s3::context::Context;
use crypto::hmac::Hmac;
use crypto::mac::Mac;
use crypto::sha1::Sha1;
use vstd::prelude::*;
use vstd::utf8::encode_utf8;

verus! {

/// The HMAC-SHA1 code of `data` under `key`, as the `crypto` crate computes
/// it.
pub uninterp spec fn hmac_sha1(key: Seq<u8>, data: Seq<u8>) -> Seq<u8>;

/// The standard base64 encoding, with padding, as the `base64` crate
/// writes it.
pub uninterp spec fn base64_standard(bytes: Seq<u8>) -> Seq<char>;

/// The string that is signed for a request.
pub open spec fn spec_string_to_sign(
    verb: Seq<char>,
    md5: Seq<char>,
    content_type: Seq<char>,
    date: Seq<char>,
    headers: Seq<char>,
    bucket: Seq<char>,
    key: Seq<char>,
) -> Seq<char> {
    verb + seq!['\n'] + md5 + seq!['\n'] + content_type + seq!['\n'] + date + seq!['\n'] + headers
        + seq!['/'] + bucket + seq!['/'] + key
}

/// The signature of `data` under the secret key.
pub open spec fn spec_sign(data: Seq<u8>, secret_access_key: Seq<char>) -> Seq<char> {
    base64_standard(hmac_sha1(encode_utf8(secret_access_key), data))
}

/// The value of the authorization header.
pub open spec fn spec_authorization_header(access_key_id: Seq<char>, signature: Seq<char>) -> Seq<
    char,
> {
    seq!['A', 'W', 'S', ' '] + access_key_id + seq![':'] + signature
}

/// `Hmac::new` over `Sha1::new()`, `input` and `result().code()` of
/// `crypto`: the code of `data` under `key`, believed to be the named
/// function of both.
#[verifier::external_body]
fn hmac_sha1_code(key: &[u8], data: &[u8]) -> (code: Vec<u8>)
    ensures
        code@ == hmac_sha1(key@, data@),
{
    let mut mac = Hmac::new(Sha1::new(), key);
    mac.input(data);
    mac.result().code().to_vec()
}

/// `base64::encode_config` with `base64::STANDARD`: the encoding of `bytes`,
/// believed to be the named function of them.
#[verifier::external_body]
fn base64_encode(bytes: &[u8]) -> (text: String)
    ensures
        text@ == base64_standard(bytes@),
{
    base64::encode_config(bytes, base64::STANDARD)
}

/// The string that is signed for a request: verb, content MD5, content
/// type and date, each followed by a line feed, then the canonical headers
/// and the resource `/bucket/key`.
pub fn string_to_sign(
    verb: &str,
    md5: &str,
    content_type: &str,
    date: &str,
    headers: &str,
    bucket: &str,
    key: &str,
) -> (r: String)
    ensures
        r@ == spec_string_to_sign(verb@, md5@, content_type@, date@, headers@, bucket@, key@),
{
    proof {
        reveal_strlit("\n");
        reveal_strlit("/");
        assert("\n"@ =~= seq!['\n']);
        assert("/"@ =~= seq!['/']);
    }
    let mut r = verb.to_owned();
    r.append("\n");
    r.append(md5);
    r.append("\n");
    r.append(content_type);
    r.append("\n");
    r.append(date);
    r.append("\n");
    r.append(headers);
    r.append("/");
    r.append(bucket);
    r.append("/");
    r.append(key);
    r
}

/// The value of the authorization header for a signature.
pub fn authorization_header(access_key_id: &str, signature: &str) -> (r: String)
    ensures
        r@ == spec_authorization_header(access_key_id@, signature@),
{
    proof {
        reveal_strlit("AWS ");
        reveal_strlit(":");
        assert("AWS "@ =~= seq!['A', 'W', 'S', ' ']);
        assert(":"@ =~= seq![':']);
    }
    let mut r = "AWS ".to_owned();
    r.append(access_key_id);
    r.append(":");
    r.append(signature);
    r
}

/// The HMAC-SHA1 code of `data` under the bytes of `key`.
pub fn hmac(key: &str, data: &[u8]) -> (code: Vec<u8>)
    ensures
        code@ == hmac_sha1(encode_utf8(key@), data@),
{
    hmac_sha1_code(key.as_bytes(), data)
}

/// The signature of `data`: its HMAC-SHA1 code under the secret key, in
/// base64.
pub fn sign(data: &[u8], secret_access_key: &str) -> (signature: String)
    ensures
        signature@ == spec_sign(data@, secret_access_key@),
{
    let code = hmac(secret_access_key, data);
    base64_encode(code.as_slice())
}

/// The authorization header of a request on the object `key` of the
/// context's bucket: the access key id and the signature of the request's
/// canonical string.
pub fn authorization(
    verb: &str,
    date: &str,
    key: &str,
    md5: &str,
    headers: &str,
    content_type: &str,
    context: &Context,
) -> (r: String)
    ensures
        r@ == spec_authorization_header(
            context@.access_key_id,
            spec_sign(
                encode_utf8(
                    spec_string_to_sign(
                        verb@,
                        md5@,
                        content_type@,
                        date@,
                        headers@,
                        context@.bucket,
                        key@,
                    ),
                ),
                context@.secret_access_key,
            ),
        ),
{
    let string = string_to_sign(
        verb,
        md5,
        content_type,
        date,
        headers,
        context.bucket().as_str(),
        key,
    );
    let signature = sign(string.as_str().as_bytes(), context.secret_access_key().as_str());
    authorization_header(context.access_key_id().as_str(), signature.as_str())
}

} // verus!
