//! What the storage backend tells of an object that has landed in a bucket.

use crate::common_types::UserIdentity;
use crate::common_types::UserIdentityView;
use vstd::prelude::*;

verus! {

/// One notification: a completed operation on one object.
#[derive(Debug, Clone, PartialEq, Eq)]
pub struct S3Entity {
    /// The version of the notification format.
    pub s3_schema_version: String,
    /// The notification rule that produced the event.
    pub configuration_id: String,
    pub bucket: Bucket,
    pub object: S3Object,
}

/// The bucket that holds the object.
#[derive(Debug, Clone, PartialEq, Eq)]
pub struct Bucket {
    pub name: String,
    pub owner_identity: UserIdentity,
    pub arn: String,
}

/// The object that the operation touched.
#[derive(Debug, Clone, PartialEq, Eq)]
pub struct S3Object {
    pub key: String,
    /// The size of the object in bytes.
    pub size: u64,
    /// The digest of the object's content.
    pub e_tag: String,
    /// Orders the events on one key.
    pub sequencer: String,
}

/// The mathematical value of an [`S3Entity`].
pub struct S3EntityView {
    pub s3_schema_version: Seq<char>,
    pub configuration_id: Seq<char>,
    pub bucket: BucketView,
    pub object: S3ObjectView,
}

/// The mathematical value of a [`Bucket`].
pub struct BucketView {
    pub name: Seq<char>,
    pub owner_identity: UserIdentityView,
    pub arn: Seq<char>,
}

/// The mathematical value of an [`S3Object`].
pub struct S3ObjectView {
    pub key: Seq<char>,
    pub size: u64,
    pub e_tag: Seq<char>,
    pub sequencer: Seq<char>,
}

impl View for S3Entity {
    type V = S3EntityView;

    open spec fn view(&self) -> S3EntityView {
        S3EntityView {
            s3_schema_version: self.s3_schema_version@,
            configuration_id: self.configuration_id@,
            bucket: self.bucket@,
            object: self.object@,
        }
    }
}

impl View for Bucket {
    type V = BucketView;

    open spec fn view(&self) -> BucketView {
        BucketView { name: self.name@, owner_identity: self.owner_identity@, arn: self.arn@ }
    }
}

impl View for S3Object {
    type V = S3ObjectView;

    open spec fn view(&self) -> S3ObjectView {
        S3ObjectView {
            key: self.key@,
            size: self.size,
            e_tag: self.e_tag@,
            sequencer: self.sequencer@,
        }
    }
}

} // verus!
