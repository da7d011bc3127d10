use vstd::prelude::*;
use vstd::string::*;
use crate::object::{copy_option_string, ObjectContents, ObjectMetadataResponse};

verus! {

/// Connection settings of the destination service, for one bucket.
#[derive(Clone, Debug)]
pub struct RadosGW {
    pub endpoint: String,
    pub access_key: String,
    pub secret_key: String,
    pub bucket: String,
}

/// Headers of a write request: a single PUT or the creation of a
/// multipart upload.
#[derive(Clone, Debug)]
pub struct ObjectHeaders {
    pub content_length: Option<u64>,
    pub acl: Option<String>,
    pub cache_control: Option<String>,
    pub content_disposition: Option<String>,
    pub content_encoding: Option<String>,
    pub content_language: Option<String>,
    pub content_md5: Option<String>,
    pub content_type: Option<String>,
    pub expires: Option<String>,
}

/// A part of a multipart upload as the completion request lists it.
#[derive(Clone, Debug)]
pub struct CompletedPart {
    pub part_number: u64,
    pub etag: String,
}

/// The canned ACL that makes an object readable by everyone.
pub open spec fn public_read() -> Seq<char> {
    "public-read"@
}

/// The ACL header: `public-read` for public objects, unset otherwise.
pub open spec fn acl_matches(acl: Option<String>, acl_public: bool) -> bool {
    if acl_public {
        acl.is_some() && acl.unwrap()@ == public_read()
    } else {
        acl.is_none()
    }
}

/// The headers carried over from the source that both kinds of write share.
pub open spec fn shared_headers_match(h: ObjectHeaders, m: ObjectMetadataResponse) -> bool {
    &&& acl_matches(h.acl, m.acl_public)
    &&& h.cache_control == m.metadata.cache_control
    &&& h.content_disposition == m.metadata.content_disposition
    &&& h.content_encoding == m.metadata.content_encoding
    &&& h.content_language == m.metadata.content_language
    &&& h.content_type == m.metadata.content_type
    &&& h.expires == m.metadata.expires
}

fn acl_header(acl_public: bool) -> (r: Option<String>)
    ensures
        acl_matches(r, acl_public),
{
    if acl_public {
        Some(String::from_str("public-read"))
    } else {
        None
    }
}

/// Headers of the single PUT of an object of `size` bytes.
pub fn put_object_headers(metadata: &ObjectMetadataResponse, size: u64) -> (r: ObjectHeaders)
    ensures
        shared_headers_match(r, *metadata),
        r.content_length == Some(size),
        r.content_md5 == metadata.metadata.content_md5,
{
    let m = &metadata.metadata;
    ObjectHeaders {
        content_length: Some(size),
        acl: acl_header(metadata.acl_public),
        cache_control: copy_option_string(&m.cache_control),
        content_disposition: copy_option_string(&m.content_disposition),
        content_encoding: copy_option_string(&m.content_encoding),
        content_language: copy_option_string(&m.content_language),
        content_md5: copy_option_string(&m.content_md5),
        content_type: copy_option_string(&m.content_type),
        expires: copy_option_string(&m.expires),
    }
}

/// Headers of the creation of a multipart upload: those of a single PUT but
/// for the length and the MD5, which belong to each part.
pub fn multipart_upload_headers(metadata: &ObjectMetadataResponse) -> (r: ObjectHeaders)
    ensures
        shared_headers_match(r, *metadata),
        r.content_length.is_none(),
        r.content_md5.is_none(),
{
    let m = &metadata.metadata;
    ObjectHeaders {
        content_length: None,
        acl: acl_header(metadata.acl_public),
        cache_control: copy_option_string(&m.cache_control),
        content_disposition: copy_option_string(&m.content_disposition),
        content_encoding: copy_option_string(&m.content_encoding),
        content_language: copy_option_string(&m.content_language),
        content_md5: None,
        content_type: copy_option_string(&m.content_type),
        expires: copy_option_string(&m.expires),
    }
}

/// Where the next page of a destination listing starts: after the last key
/// listed so far, or at the beginning.
pub fn start_after(listed: &Vec<ObjectContents>) -> (r: Option<String>)
    ensures
        listed@.len() == 0 ==> r.is_none(),
        listed@.len() > 0 ==> r == Some(listed@.last().key),
{
    if listed.len() == 0 {
        None
    } else {
        Some(listed[listed.len() - 1].key.clone())
    }
}

impl RadosGW {
    pub fn new(endpoint: String, access_key: String, secret_key: String, bucket: String) -> (r:
        RadosGW)
        ensures
            r.endpoint == endpoint,
            r.access_key == access_key,
            r.secret_key == secret_key,
            r.bucket == bucket,
    {
        RadosGW { endpoint, access_key, secret_key, bucket }
    }
}

} // verus!
