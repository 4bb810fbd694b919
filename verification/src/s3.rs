//! The credentialed storage gateway.

use crate::exchange::opening;
use crate::exchange::Action;
use crate::exchange::ActionView;
use crate::exchange::Exchange;
use crate::exchange::Operation;
use vstd::prelude::*;

verus! {

/// Where a gateway works: the mathematical value of an [`AwsS3Manager`].
pub struct StorageTarget {
    pub bucket: Seq<char>,
    pub region: Seq<char>,
}

/// A gateway to one bucket in one region.
///
/// It holds no session and no credentials: each operation has the driver
/// open a session of its own, so operations neither share state nor wait for
/// one another.
#[derive(Debug, Clone)]
pub struct AwsS3Manager {
    bucket: String,
    region: String,
}

impl View for AwsS3Manager {
    type V = StorageTarget;

    closed spec fn view(&self) -> StorageTarget {
        StorageTarget { bucket: self.bucket@, region: self.region@ }
    }
}

impl AwsS3Manager {
    /// A gateway to `bucket` in `region`. Both are taken as they are given:
    /// whether they name anything is for the backend to say.
    pub fn new(bucket: String, region: String) -> (gateway: Self)
        ensures
            gateway@ == (StorageTarget { bucket: bucket@, region: region@ }),
    {
        AwsS3Manager { bucket, region }
    }

    /// The bucket that the gateway works on.
    pub fn bucket(&self) -> (bucket: &String)
        ensures
            bucket@ == self@.bucket,
    {
        &self.bucket
    }

    /// The region that holds the bucket.
    pub fn region(&self) -> (region: &String)
        ensures
            region@ == self@.region,
    {
        &self.region
    }

    /// The first step of every operation: a fresh session in the gateway's
    /// region.
    pub fn setup_client(&self) -> (action: Action)
        ensures
            action@ == (ActionView::OpenSession { region: self@.region }),
    {
        Action::OpenSession { region: self.region.clone() }
    }

    /// Begins minting a grant that authorizes one upload to `key`.
    pub fn create_upload_url(&self, key: String) -> (begun: (Exchange, Action))
        ensures
            begun.0@ == opening(Operation::UploadGrant, self@.bucket, key@),
            begun.1@ == (ActionView::OpenSession { region: self@.region }),
    {
        (Exchange::begin(Operation::UploadGrant, self.bucket.clone(), key), self.setup_client())
    }

    /// Begins a direct write to `key` with the gateway's own credentials.
    /// The body stays with the driver, which streams it once the exchange
    /// asks for the transfer.
    pub fn send(&self, key: String) -> (begun: (Exchange, Action))
        ensures
            begun.0@ == opening(Operation::DirectWrite, self@.bucket, key@),
            begun.1@ == (ActionView::OpenSession { region: self@.region }),
    {
        (Exchange::begin(Operation::DirectWrite, self.bucket.clone(), key), self.setup_client())
    }

    /// Begins minting a grant that authorizes one download of `key`.
    pub fn get_object(&self, key: String) -> (begun: (Exchange, Action))
        ensures
            begun.0@ == opening(Operation::DownloadGrant, self@.bucket, key@),
            begun.1@ == (ActionView::OpenSession { region: self@.region }),
    {
        (Exchange::begin(Operation::DownloadGrant, self.bucket.clone(), key), self.setup_client())
    }
}

} // verus!
