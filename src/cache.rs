//! The bucket and the credential provider seen as a build cache: lookups
//! that fail are misses, writes that fail are errors.
use crate::bucket::{status_outcome, Bucket};
use crate::credentials::GCSCredentialProvider;
use crate::encoding::{
    form_encoded, lemma_download_upload_same_object, path_segment_encoded, percent_decoded,
};
use crate::errors::{is_success, GcsError};
use vstd::prelude::*;
use vstd::string::*;

verus! {

/// The answer to a lookup.
pub enum Lookup {
    /// The entry, as stored.
    Hit { data: Vec<u8> },
    /// No entry could be had.
    Miss,
}

/// A lookup's answer for what the download yielded: its bytes, or a miss for
/// any failure on the way (credentials, transport, status, body).
pub open spec fn lookup_of(fetched: Result<Vec<u8>, GcsError>) -> Lookup {
    match fetched {
        Ok(data) => Lookup::Hit { data },
        Err(_) => Lookup::Miss,
    }
}

/// A write's answer for what the upload yielded: the failure that stopped it
/// as it was, else the meaning of the endpoint's status.
pub open spec fn write_outcome_of(sent: Result<u16, GcsError>) -> Result<(), GcsError> {
    match sent {
        Ok(status) => status_outcome(status),
        Err(e) => Err(e),
    }
}

/// The object that an upload of `key` writes, as the store reads the `name`
/// parameter of its address.
pub open spec fn uploaded_object(key: Seq<u8>) -> Seq<u8> {
    percent_decoded(form_encoded(key), true)
}

/// The object that a download of `key` reads, as the store reads the object
/// segment of its address.
pub open spec fn downloaded_object(key: Seq<u8>) -> Seq<u8> {
    percent_decoded(path_segment_encoded(key), false)
}

/// Round trip: against a store that keeps what is uploaded under the object
/// name it reads, an upload of `data` under `key` followed by a download of
/// `key` finds `data`, and the lookup is a hit with exactly those bytes, for
/// every key.
pub proof fn lemma_put_then_get(
    store: Map<Seq<u8>, Seq<u8>>,
    key: Seq<u8>,
    data: Seq<u8>,
    answer: Vec<u8>,
)
    requires
        answer@ == store.insert(uploaded_object(key), data)[downloaded_object(key)],
    ensures
        uploaded_object(key) == key,
        downloaded_object(key) == key,
        store.insert(uploaded_object(key), data).contains_key(downloaded_object(key)),
        answer@ == data,
        lookup_of(Ok(answer)) is Hit,
        lookup_of(Ok(answer))->Hit_data@ == data,
{
    lemma_download_upload_same_object(key);
}

/// A build cache kept in a storage bucket.
pub struct GCSCache {
    bucket: Bucket,
    credential_provider: GCSCredentialProvider,
}

impl GCSCache {
    /// A cache in the bucket named `bucket` served from `endpoint`, with
    /// credentials from `credential_provider`.
    pub fn new(bucket: String, endpoint: String, credential_provider: GCSCredentialProvider) -> (r:
        GCSCache)
        ensures
            r.bucket().name@ == bucket@,
            r.bucket().base_url@ == endpoint@,
            r.credential_provider()@ == credential_provider@,
    {
        GCSCache { bucket: Bucket::new(bucket, endpoint), credential_provider }
    }

    /// The bucket.
    pub closed spec fn bucket(&self) -> Bucket {
        self.bucket
    }

    /// The credential provider.
    pub closed spec fn credential_provider(&self) -> GCSCredentialProvider {
        self.credential_provider
    }

    /// The bucket that holds the entries.
    pub fn get_bucket(&self) -> (r: &Bucket)
        ensures
            *r == self.bucket(),
    {
        &self.bucket
    }

    /// The credential provider, to ask for credentials and report exchanges.
    pub fn provider_mut(&mut self) -> (r: &mut GCSCredentialProvider)
        ensures
            *r == old(self).credential_provider(),
            final(self).bucket() == old(self).bucket(),
            final(self).credential_provider() == *final(r),
    {
        &mut self.credential_provider
    }

    /// The lookup's answer for a download that yielded `fetched`: a hit with
    /// the bytes, or a miss whatever the failure was. A lookup never fails.
    pub fn get(fetched: Result<Vec<u8>, GcsError>) -> (r: Lookup)
        ensures
            r == lookup_of(fetched),
            r is Hit <==> fetched is Ok,
    {
        match fetched {
            Ok(data) => Lookup::Hit { data },
            Err(_) => Lookup::Miss,
        }
    }

    /// The write's answer for an upload that yielded `sent` (the endpoint's
    /// status, or the failure that stopped it): success only for a status in
    /// 200..=299; a failure is handed on as it was.
    pub fn put(sent: Result<u16, GcsError>) -> (r: Result<(), GcsError>)
        ensures
            r == write_outcome_of(sent),
            r is Ok <==> (sent is Ok && is_success(sent->Ok_0)),
            sent is Err ==> r is Err && r->Err_0 == sent->Err_0,
    {
        match sent {
            Ok(status) => Bucket::check_status(status),
            Err(e) => Err(e),
        }
    }

    /// A description of where the entries are kept.
    pub fn location(&self) -> (r: String)
        ensures
            r@ == "GCS, bucket: "@ + "Bucket(name="@ + self.bucket().name@ + ", base_url="@
                + self.bucket().base_url@ + ")"@,
    {
        let mut r = String::from_str("GCS, bucket: ");
        let d = self.bucket.describe();
        r.append(d.as_str());
        r
    }

    /// The space the entries take: not observable in a bucket.
    pub fn current_size(&self) -> (r: Option<usize>)
        ensures
            r is None,
    {
        None
    }

    /// The space the entries may take: not observable in a bucket.
    pub fn max_size(&self) -> (r: Option<usize>)
        ensures
            r is None,
    {
        None
    }
}

} // verus!
