//! Where the object store is, and the credentials to sign requests with.

use vstd::prelude::*;

verus! {

/// The settings of one object store.
#[derive(Default, Debug)]
pub struct Context {
    region: String,
    endpoint: String,
    access_key_id: String,
    secret_access_key: String,
    bucket: String,
    key: Option<String>,
}

pub struct ContextView {
    pub region: Seq<char>,
    pub endpoint: Seq<char>,
    pub access_key_id: Seq<char>,
    pub secret_access_key: Seq<char>,
    pub bucket: Seq<char>,
    /// The prefix under which the bucket keeps the cache, if it has one.
    pub key: Option<Seq<char>>,
}

/// The text of a string that may be absent.
pub open spec fn text_of(s: Option<&str>) -> Option<Seq<char>> {
    match s {
        Some(t) => Some(t@),
        None => None,
    }
}

/// The text of an owned string that may be absent.
pub open spec fn text_of_owned(s: Option<String>) -> Option<Seq<char>> {
    match s {
        Some(t) => Some(t@),
        None => None,
    }
}

/// An object's key: the cache key under the prefix, where there is one.
pub open spec fn spec_object_key(prefix: Option<Seq<char>>, hex: Seq<char>) -> Seq<char> {
    match prefix {
        Some(p) => p + seq!['/'] + hex,
        None => hex,
    }
}

impl View for Context {
    type V = ContextView;

    closed spec fn view(&self) -> ContextView {
        ContextView {
            region: self.region@,
            endpoint: self.endpoint@,
            access_key_id: self.access_key_id@,
            secret_access_key: self.secret_access_key@,
            bucket: self.bucket@,
            key: text_of_owned(self.key),
        }
    }
}

impl Context {
    /// The settings as given.
    pub fn new(
        region: &str,
        endpoint: &str,
        access_key_id: &str,
        secret_access_key: &str,
        bucket: &str,
        key: Option<&str>,
    ) -> (context: Self)
        ensures
            context@ == (ContextView {
                region: region@,
                endpoint: endpoint@,
                access_key_id: access_key_id@,
                secret_access_key: secret_access_key@,
                bucket: bucket@,
                key: text_of(key),
            }),
    {
        let key = match key {
            Some(k) => Some(k.to_owned()),
            None => None,
        };
        Self {
            region: region.to_owned(),
            endpoint: endpoint.to_owned(),
            access_key_id: access_key_id.to_owned(),
            secret_access_key: secret_access_key.to_owned(),
            bucket: bucket.to_owned(),
            key,
        }
    }

    pub fn region(&self) -> (r: &String)
        ensures
            r@ == self@.region,
    {
        &self.region
    }

    pub fn endpoint(&self) -> (r: &String)
        ensures
            r@ == self@.endpoint,
    {
        &self.endpoint
    }

    pub fn access_key_id(&self) -> (r: &String)
        ensures
            r@ == self@.access_key_id,
    {
        &self.access_key_id
    }

    pub fn secret_access_key(&self) -> (r: &String)
        ensures
            r@ == self@.secret_access_key,
    {
        &self.secret_access_key
    }

    pub fn bucket(&self) -> (r: &String)
        ensures
            r@ == self@.bucket,
    {
        &self.bucket
    }

    pub fn key(&self) -> (r: &Option<String>)
        ensures
            text_of_owned(*r) == self@.key,
    {
        &self.key
    }

    /// The key under which the artifact of the fingerprint `hex` is kept.
    pub fn object_key(&self, hex: &str) -> (r: String)
        ensures
            r@ == spec_object_key(self@.key, hex@),
    {
        match &self.key {
            Some(prefix) => {
                let mut r = prefix.clone();
                r.append("/");
                r.append(hex);
                proof {
                    reveal_strlit("/");
                    assert("/"@ =~= seq!['/']);
                }
                r
            },
            None => hex.to_owned(),
        }
    }
}

} // verus!
