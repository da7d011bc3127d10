use vstd::prelude::*;
use vstd::string::*;

verus! {

/// An object as a bucket listing describes it.
#[derive(Clone, Debug)]
pub struct ObjectContents {
    pub key: String,
    pub size: u64,
    pub etag: String,
    pub last_modified: String,
}

/// HTTP-style headers of a source object, carried verbatim when present.
#[derive(Clone, Debug)]
pub struct ObjectMetadata {
    pub cache_control: Option<String>,
    pub content_disposition: Option<String>,
    pub content_encoding: Option<String>,
    pub content_language: Option<String>,
    pub content_md5: Option<String>,
    pub content_type: Option<String>,
    pub expires: Option<String>,
}

/// What the source tells about one object before it is transferred.
#[derive(Clone, Debug)]
pub struct ObjectMetadataResponse {
    pub acl_public: bool,
    pub metadata: ObjectMetadata,
}

pub fn copy_option_string(o: &Option<String>) -> (r: Option<String>)
    ensures
        r == *o,
{
    match o {
        Some(s) => Some(s.clone()),
        None => None,
    }
}

impl ObjectContents {
    pub fn new(key: String, size: u64, etag: String, last_modified: String) -> (r: ObjectContents)
        ensures
            r.key == key,
            r.size == size,
            r.etag == etag,
            r.last_modified == last_modified,
    {
        ObjectContents { key, size, etag, last_modified }
    }

    /// A field-by-field copy, equal to `self`.
    pub fn duplicate(&self) -> (r: ObjectContents)
        ensures
            r == *self,
    {
        ObjectContents {
            key: self.key.clone(),
            size: self.size,
            etag: self.etag.clone(),
            last_modified: self.last_modified.clone(),
        }
    }

    pub fn get_key(&self) -> (r: String)
        ensures
            r == self.key,
    {
        self.key.clone()
    }

    pub fn get_size(&self) -> (r: u64)
        ensures
            r == self.size,
    {
        self.size
    }
}

impl ObjectMetadata {
    /// A field-by-field copy, equal to `self`.
    pub fn duplicate(&self) -> (r: ObjectMetadata)
        ensures
            r == *self,
    {
        ObjectMetadata {
            cache_control: copy_option_string(&self.cache_control),
            content_disposition: copy_option_string(&self.content_disposition),
            content_encoding: copy_option_string(&self.content_encoding),
            content_language: copy_option_string(&self.content_language),
            content_md5: copy_option_string(&self.content_md5),
            content_type: copy_option_string(&self.content_type),
            expires: copy_option_string(&self.expires),
        }
    }
}

/// One grant of an object's access control list.
#[derive(Clone, Debug)]
pub struct AclGrant {
    pub grantee_uri: Option<String>,
    pub permission: Option<String>,
}

/// The group of every user, anonymous ones included.
pub open spec fn all_users() -> Seq<char> {
    "http://acs.amazonaws.com/groups/global/AllUsers"@
}

pub open spec fn grants_everyone_read(g: AclGrant) -> bool {
    &&& g.grantee_uri is Some
    &&& g.grantee_uri.unwrap()@ == all_users()
    &&& g.permission is Some
    &&& g.permission.unwrap()@ == "READ"@
}

pub open spec fn grants_public_read(grants: Seq<AclGrant>) -> bool {
    exists|i: int| 0 <= i < grants.len() && grants_everyone_read(#[trigger] grants[i])
}

/// An object is public when everyone may read it.
pub fn is_public_read(grants: &Vec<AclGrant>) -> (r: bool)
    ensures
        r == grants_public_read(grants@),
{
    let everyone = String::from_str("http://acs.amazonaws.com/groups/global/AllUsers");
    let read = String::from_str("READ");
    let mut i: usize = 0;
    while i < grants.len()
        invariant
            i <= grants@.len(),
            everyone@ == all_users(),
            read@ == "READ"@,
            forall|k: int| 0 <= k < i ==> !grants_everyone_read(#[trigger] grants@[k]),
        decreases grants@.len() - i,
    {
        let g = &grants[i];
        match (&g.grantee_uri, &g.permission) {
            (Some(u), Some(p)) => {
                if *u == everyone && *p == read {
                    return true;
                }
            },
            _ => {},
        }
        i = i + 1;
    }
    false
}

} // verus!
