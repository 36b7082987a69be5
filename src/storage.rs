use vstd::prelude::*;
use crate::error::{AppError, ErrorModel};
use crate::text::{find_from, find_text, same_text};

verus! {

/// The file extension stored for a content type; JPEG's when the type is not known.
pub open spec fn extension_of(content_type: Seq<char>) -> Seq<char> {
    if content_type == "image/jpeg"@ || content_type == "image/jpg"@ {
        "jpg"@
    } else if content_type == "image/png"@ {
        "png"@
    } else if content_type == "image/gif"@ {
        "gif"@
    } else if content_type == "image/webp"@ {
        "webp"@
    } else {
        "jpg"@
    }
}

/// The object key for a file named `name` with extension `ext` under `folder`.
pub open spec fn key_of(folder: Seq<char>, name: Seq<char>, ext: Seq<char>) -> Seq<char> {
    folder + "/"@ + name + "."@ + ext
}

/// The public address of an object.
pub open spec fn url_of(bucket: Seq<char>, region: Seq<char>, key: Seq<char>) -> Seq<char> {
    "https://"@ + bucket + ".s3."@ + region + ".amazonaws.com/"@ + key
}

/// The object key that a public address names for `bucket`: the text that follows
/// the first occurrence of the bucket name, up to its next occurrence, with
/// everything up to and including its first slash dropped. `None` when the
/// bucket name does not occur, or is empty.
pub open spec fn key_in_url(url: Seq<char>, bucket: Seq<char>) -> Option<Seq<char>> {
    let b = find_from(url, bucket, 0);
    if bucket.len() == 0 || b < 0 {
        None
    } else {
        let start = b + bucket.len();
        let e = find_from(url, bucket, start);
        let end = if e < 0 {
            url.len() as int
        } else {
            e
        };
        let segment = url.subrange(start, end);
        let slash = find_from(segment, "/"@, 0);
        if slash < 0 {
            Some(Seq::empty())
        } else {
            Some(segment.subrange(slash + 1, segment.len() as int))
        }
    }
}

/// Relies on `uuid::Uuid::new_v4`: a random identifier in its hyphenated text
/// form, 32 hex digits and four hyphens.
#[verifier::external_body]
fn random_name() -> (r: String)
    ensures
        r@.len() == 36,
{
    uuid::Uuid::new_v4().to_string()
}

/// The object key that a public address names for `bucket`.
pub fn key_from_url(url: &str, bucket: &str) -> (r: Result<String, AppError>)
    ensures
        match key_in_url(url@, bucket@) {
            Some(k) => r matches Ok(s) && s@ == k,
            None => r matches Err(e) && e@ == ErrorModel::ValidationError("Invalid S3 URL"@),
        },
{
    let blen = bucket.unicode_len();
    let n = url.unicode_len();
    let b = if blen == 0 {
        None
    } else {
        find_text(url, bucket, 0)
    };
    let b = match b {
        Some(b) => b,
        None => {
            return Err(AppError::ValidationError(String::from_str("Invalid S3 URL")));
        },
    };
    let start = b + blen;
    let end = match find_text(url, bucket, start) {
        Some(e) => e,
        None => n,
    };
    let segment = url.substring_char(start, end);
    let slen = segment.unicode_len();
    proof {
        reveal_strlit("/");
    }
    match find_text(segment, "/", 0) {
        Some(p) => Ok(segment.substring_char(p + 1, slen).to_string()),
        None => Ok(String::new()),
    }
}

/// The file extension stored for a content type.
pub fn extension_for(content_type: &str) -> (r: &'static str)
    ensures
        r@ == extension_of(content_type@),
{
    if same_text(content_type, "image/jpeg") || same_text(content_type, "image/jpg") {
        "jpg"
    } else if same_text(content_type, "image/png") {
        "png"
    } else if same_text(content_type, "image/gif") {
        "gif"
    } else if same_text(content_type, "image/webp") {
        "webp"
    } else {
        "jpg"
    }
}

/// The object key for a file named `name` with extension `ext` under `folder`.
pub fn object_key(folder: &str, name: &str, ext: &str) -> (r: String)
    ensures
        r@ == key_of(folder@, name@, ext@),
{
    let mut key = folder.to_string();
    key.append("/");
    key.append(name);
    key.append(".");
    key.append(ext);
    key
}

/// A fresh object key under `folder` for a file of the given content type.
pub fn new_object_key(folder: &str, content_type: &str) -> (r: String)
    ensures
        exists|name: Seq<char>|
            name.len() == 36 && r@ == key_of(folder@, name, extension_of(content_type@)),
{
    let name = random_name();
    object_key(folder, name.as_str(), extension_for(content_type))
}

/// The public address of an object.
pub fn public_url(bucket: &str, region: &str, key: &str) -> (r: String)
    ensures
        r@ == url_of(bucket@, region@, key@),
{
    let mut url = String::from_str("https://");
    url.append(bucket);
    url.append(".s3.");
    url.append(region);
    url.append(".amazonaws.com/");
    url.append(key);
    url
}

} // verus!
