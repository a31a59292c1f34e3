//! A storage bucket: where its objects are downloaded from and uploaded to,
//! and what an endpoint's answer means.
use crate::encoding::{
    encode_form_value, encode_path_segment, form_encoded, ends_path_segment, ends_query_value,
    lemma_download_upload_same_object, path_segment_encoded, percent_decoded,
};
use crate::errors::{is_success, GcsError};
use vstd::prelude::*;
use vstd::string::*;
use vstd::utf8::encode_utf8;

verus! {

/// A bucket by name, served from `base_url`.
pub struct Bucket {
    pub name: String,
    pub base_url: String,
}

/// The download address of `key` in bucket `name` served from `base`.
pub open spec fn download_url_of(base: Seq<char>, name: Seq<char>, key: Seq<char>) -> Seq<char> {
    base + "/download/storage/v1/b/"@ + path_segment_encoded(encode_utf8(name))
        + "/o/"@ + path_segment_encoded(encode_utf8(key)) + "?alt=media"@
}

/// The upload address of `key` in bucket `name` served from `base`: the key
/// travels, form-encoded, as the `name` query parameter.
pub open spec fn upload_url_of(base: Seq<char>, name: Seq<char>, key: Seq<char>) -> Seq<char> {
    base + "/upload/storage/v1/b/"@ + path_segment_encoded(encode_utf8(name))
        + "/o?name="@ + form_encoded(encode_utf8(key))
        + "&uploadType=media"@
}

/// The outcome that an answer with `status` stands for.
pub open spec fn status_outcome(status: u16) -> Result<(), GcsError> {
    if is_success(status) {
        Ok(())
    } else {
        Err(GcsError::BadStatus { status })
    }
}

impl Bucket {
    /// The bucket `name` served from `base_url`.
    pub fn new(name: String, base_url: String) -> (r: Bucket)
        ensures
            r.name@ == name@,
            r.base_url@ == base_url@,
    {
        Bucket { name, base_url }
    }

    /// A description of the bucket for people.
    pub fn describe(&self) -> (r: String)
        ensures
            r@ == "Bucket(name="@ + self.name@ + ", base_url="@ + self.base_url@ + ")"@,
    {
        let mut r = String::from_str("Bucket(name=");
        r.append(self.name.as_str());
        r.append(", base_url=");
        r.append(self.base_url.as_str());
        r.append(")");
        r
    }

    /// Where the object `key` is downloaded from. The key's segment reads back
    /// as exactly the key and holds nothing that ends it.
    pub fn download_url(&self, key: &str) -> (r: String)
        ensures
            r@ == download_url_of(self.base_url@, self.name@, key@),
            percent_decoded(path_segment_encoded(encode_utf8(key@)), false) == encode_utf8(key@),
            forall|i: int|
                0 <= i < path_segment_encoded(encode_utf8(key@)).len() ==> !ends_path_segment(
                    #[trigger] path_segment_encoded(encode_utf8(key@))[i],
                ),
    {
        proof {
            lemma_download_upload_same_object(encode_utf8(key@));
        }
        let name = encode_path_segment(self.name.as_str().as_bytes());
        let object = encode_path_segment(key.as_bytes());
        let mut r = self.base_url.clone();
        r.append("/download/storage/v1/b/");
        r.append(name.as_str());
        r.append("/o/");
        r.append(object.as_str());
        r.append("?alt=media");
        r
    }

    /// Where the object `key` is uploaded to. The `name` value reads back as
    /// exactly the key and holds no `&` or `#`, so the upload writes the object
    /// that `download_url` reads.
    pub fn upload_url(&self, key: &str) -> (r: String)
        ensures
            r@ == upload_url_of(self.base_url@, self.name@, key@),
            percent_decoded(form_encoded(encode_utf8(key@)), true) == encode_utf8(key@),
            forall|i: int|
                0 <= i < form_encoded(encode_utf8(key@)).len() ==> !ends_query_value(
                    #[trigger] form_encoded(encode_utf8(key@))[i],
                ),
    {
        proof {
            lemma_download_upload_same_object(encode_utf8(key@));
        }
        let name = encode_path_segment(self.name.as_str().as_bytes());
        let object = encode_form_value(key.as_bytes());
        let mut r = self.base_url.clone();
        r.append("/upload/storage/v1/b/");
        r.append(name.as_str());
        r.append("/o?name=");
        r.append(object.as_str());
        r.append("&uploadType=media");
        r
    }

    /// What an answer of the storage endpoint with `status` means: success for
    /// 200..=299, else a `BadStatus` error carrying the status.
    pub fn check_status(status: u16) -> (r: Result<(), GcsError>)
        ensures
            r == status_outcome(status),
            r is Ok <==> is_success(status),
    {
        if 200 <= status && status <= 299 {
            Ok(())
        } else {
            Err(GcsError::BadStatus { status })
        }
    }
}

} // verus!
