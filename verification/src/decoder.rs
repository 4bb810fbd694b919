//! The wire form of a notification, and the way from it and back.
//!
//! A notification travels as a record of named values:
//!
//! ```text
//! s3SchemaVersion                   text
//! configurationId                   text
//! bucket.name                       text
//! bucket.ownerIdentity.principalId  text
//! bucket.arn                        text
//! object.key                        text
//! object.size                       whole number from 0 to 2^64 - 1
//! object.eTag                       text
//! object.sequencer                  text
//! ```
//!
//! Decoding checks that each of these is there, once, and of its kind, and
//! nothing else: names that the format does not know are passed over, and no
//! value is made up for one that is missing.

use crate::common_types::UserIdentity;
use crate::common_types::UserIdentityView;
use crate::payload::entries_view;
use crate::payload::find;
use crate::payload::lemma_lookup_passes_over;
use crate::payload::lemma_lookup_sole;
use crate::payload::lemma_record_view;
use crate::payload::lookup;
use crate::payload::Entries;
use crate::payload::Payload;
use crate::payload::PayloadView;
use crate::s3_types::Bucket;
use crate::s3_types::BucketView;
use crate::s3_types::S3Entity;
use crate::s3_types::S3EntityView;
use crate::s3_types::S3Object;
use crate::s3_types::S3ObjectView;
use vstd::prelude::*;

verus! {

/// A place in the wire form of a notification.
#[derive(Debug, Clone, Copy, PartialEq, Eq)]
pub enum WireField {
    /// The payload itself.
    Root,
    SchemaVersion,
    ConfigurationId,
    Bucket,
    BucketName,
    BucketOwnerIdentity,
    OwnerPrincipalId,
    BucketArn,
    Object,
    ObjectKey,
    ObjectSize,
    ObjectETag,
    ObjectSequencer,
}

impl WireField {
    /// The name under which the field stands in its record. The payload
    /// itself stands in no record: its name is empty.
    pub open spec fn name_spec(self) -> Seq<char> {
        match self {
            WireField::Root => ""@,
            WireField::SchemaVersion => "s3SchemaVersion"@,
            WireField::ConfigurationId => "configurationId"@,
            WireField::Bucket => "bucket"@,
            WireField::BucketName => "name"@,
            WireField::BucketOwnerIdentity => "ownerIdentity"@,
            WireField::OwnerPrincipalId => "principalId"@,
            WireField::BucketArn => "arn"@,
            WireField::Object => "object"@,
            WireField::ObjectKey => "key"@,
            WireField::ObjectSize => "size"@,
            WireField::ObjectETag => "eTag"@,
            WireField::ObjectSequencer => "sequencer"@,
        }
    }

    /// The name under which the field stands in its record.
    pub fn name(&self) -> (name: &'static str)
        ensures
            name@ == self.name_spec(),
    {
        match self {
            WireField::Root => "",
            WireField::SchemaVersion => "s3SchemaVersion",
            WireField::ConfigurationId => "configurationId",
            WireField::Bucket => "bucket",
            WireField::BucketName => "name",
            WireField::BucketOwnerIdentity => "ownerIdentity",
            WireField::OwnerPrincipalId => "principalId",
            WireField::BucketArn => "arn",
            WireField::Object => "object",
            WireField::ObjectKey => "key",
            WireField::ObjectSize => "size",
            WireField::ObjectETag => "eTag",
            WireField::ObjectSequencer => "sequencer",
        }
    }

    /// The way to the field from the payload, `$` standing for the payload.
    pub open spec fn path_spec(self) -> Seq<char> {
        match self {
            WireField::Root => "$"@,
            WireField::SchemaVersion => "$.s3SchemaVersion"@,
            WireField::ConfigurationId => "$.configurationId"@,
            WireField::Bucket => "$.bucket"@,
            WireField::BucketName => "$.bucket.name"@,
            WireField::BucketOwnerIdentity => "$.bucket.ownerIdentity"@,
            WireField::OwnerPrincipalId => "$.bucket.ownerIdentity.principalId"@,
            WireField::BucketArn => "$.bucket.arn"@,
            WireField::Object => "$.object"@,
            WireField::ObjectKey => "$.object.key"@,
            WireField::ObjectSize => "$.object.size"@,
            WireField::ObjectETag => "$.object.eTag"@,
            WireField::ObjectSequencer => "$.object.sequencer"@,
        }
    }

    /// The way to the field from the payload, `$` standing for the payload.
    pub fn path(&self) -> (path: &'static str)
        ensures
            path@ == self.path_spec(),
    {
        match self {
            WireField::Root => "$",
            WireField::SchemaVersion => "$.s3SchemaVersion",
            WireField::ConfigurationId => "$.configurationId",
            WireField::Bucket => "$.bucket",
            WireField::BucketName => "$.bucket.name",
            WireField::BucketOwnerIdentity => "$.bucket.ownerIdentity",
            WireField::OwnerPrincipalId => "$.bucket.ownerIdentity.principalId",
            WireField::BucketArn => "$.bucket.arn",
            WireField::Object => "$.object",
            WireField::ObjectKey => "$.object.key",
            WireField::ObjectSize => "$.object.size",
            WireField::ObjectETag => "$.object.eTag",
            WireField::ObjectSequencer => "$.object.sequencer",
        }
    }
}

/// Why a payload is no notification.
#[derive(Debug, Clone, Copy, PartialEq, Eq)]
pub enum DecodeError {
    /// `field` is missing, given more than once, or not of its kind. Of
    /// several such fields this is the first in wire order.
    MalformedNotification { field: WireField },
}

impl DecodeError {
    /// The text of [`DecodeError::message`].
    pub open spec fn message_spec(self) -> Seq<char> {
        match self {
            DecodeError::MalformedNotification { field } => "Notificação malformada em "@
                + field.path_spec(),
        }
    }

    /// A description of the failure for people to read.
    pub fn message(&self) -> (text: String)
        ensures
            text@ == self.message_spec(),
    {
        match self {
            DecodeError::MalformedNotification { field } => {
                let mut text = "Notificação malformada em ".to_owned();
                text.append(field.path());
                text
            },
        }
    }
}

/// The failure at `field`.
pub open spec fn malformed<T>(field: WireField) -> Result<T, DecodeError> {
    Err(DecodeError::MalformedNotification { field })
}

/// The mathematical value of a decoder's result.
pub open spec fn viewed<T: View>(result: Result<T, DecodeError>) -> Result<T::V, DecodeError> {
    match result {
        Ok(value) => Ok(value@),
        Err(error) => Err(error),
    }
}

/// The entries of the record that stands at `field`.
pub open spec fn record_of(value: PayloadView, field: WireField) -> Result<Entries, DecodeError> {
    match value {
        PayloadView::Record(entries) => Ok(entries),
        _ => malformed(field),
    }
}

/// The text that `entries` hold at `field`.
pub open spec fn text_at(entries: Entries, field: WireField) -> Result<Seq<char>, DecodeError> {
    match lookup(entries, field.name_spec()) {
        Some(PayloadView::Text(text)) => Ok(text),
        _ => malformed(field),
    }
}

/// The byte count that `entries` hold at `field`: a whole number that an
/// unsigned 64-bit integer can hold.
pub open spec fn size_at(entries: Entries, field: WireField) -> Result<u64, DecodeError> {
    match lookup(entries, field.name_spec()) {
        Some(PayloadView::Integer(n)) => if 0 <= n <= u64::MAX {
            Ok(n as u64)
        } else {
            malformed(field)
        },
        _ => malformed(field),
    }
}

/// The value that `entries` hold at `field`, of whatever kind.
pub open spec fn value_at(entries: Entries, field: WireField) -> Result<PayloadView, DecodeError> {
    match lookup(entries, field.name_spec()) {
        Some(value) => Ok(value),
        None => malformed(field),
    }
}

/// The owner that `value` describes.
pub open spec fn decode_identity(value: PayloadView) -> Result<UserIdentityView, DecodeError> {
    match record_of(value, WireField::BucketOwnerIdentity) {
        Ok(entries) => match text_at(entries, WireField::OwnerPrincipalId) {
            Ok(principal_id) => Ok(UserIdentityView { principal_id }),
            Err(error) => Err(error),
        },
        Err(error) => Err(error),
    }
}

/// The bucket that `value` describes.
pub open spec fn decode_bucket(value: PayloadView) -> Result<BucketView, DecodeError> {
    match record_of(value, WireField::Bucket) {
        Ok(entries) => {
            let owner = match value_at(entries, WireField::BucketOwnerIdentity) {
                Ok(inner) => decode_identity(inner),
                Err(error) => Err(error),
            };
            match (text_at(entries, WireField::BucketName), owner, text_at(entries, WireField::BucketArn)) {
                (Ok(name), Ok(owner_identity), Ok(arn)) => Ok(BucketView { name, owner_identity, arn }),
                (Err(error), _, _) => Err(error),
                (_, Err(error), _) => Err(error),
                (_, _, Err(error)) => Err(error),
            }
        },
        Err(error) => Err(error),
    }
}

/// The object that `value` describes.
pub open spec fn decode_object(value: PayloadView) -> Result<S3ObjectView, DecodeError> {
    match record_of(value, WireField::Object) {
        Ok(entries) => match (
            text_at(entries, WireField::ObjectKey),
            size_at(entries, WireField::ObjectSize),
            text_at(entries, WireField::ObjectETag),
            text_at(entries, WireField::ObjectSequencer),
        ) {
            (Ok(key), Ok(size), Ok(e_tag), Ok(sequencer)) => Ok(
                S3ObjectView { key, size, e_tag, sequencer },
            ),
            (Err(error), _, _, _) => Err(error),
            (_, Err(error), _, _) => Err(error),
            (_, _, Err(error), _) => Err(error),
            (_, _, _, Err(error)) => Err(error),
        },
        Err(error) => Err(error),
    }
}

/// The notification that `value` describes.
pub open spec fn decode_entity(value: PayloadView) -> Result<S3EntityView, DecodeError> {
    match record_of(value, WireField::Root) {
        Ok(entries) => {
            let bucket = match value_at(entries, WireField::Bucket) {
                Ok(inner) => decode_bucket(inner),
                Err(error) => Err(error),
            };
            let object = match value_at(entries, WireField::Object) {
                Ok(inner) => decode_object(inner),
                Err(error) => Err(error),
            };
            match (
                text_at(entries, WireField::SchemaVersion),
                text_at(entries, WireField::ConfigurationId),
                bucket,
                object,
            ) {
                (Ok(s3_schema_version), Ok(configuration_id), Ok(bucket), Ok(object)) => Ok(
                    S3EntityView { s3_schema_version, configuration_id, bucket, object },
                ),
                (Err(error), _, _, _) => Err(error),
                (_, Err(error), _, _) => Err(error),
                (_, _, Err(error), _) => Err(error),
                (_, _, _, Err(error)) => Err(error),
            }
        },
        Err(error) => Err(error),
    }
}

/// The wire form of an owner.
pub open spec fn encode_identity(identity: UserIdentityView) -> PayloadView {
    PayloadView::Record(
        seq![
            (WireField::OwnerPrincipalId.name_spec(), PayloadView::Text(identity.principal_id)),
        ],
    )
}

/// The wire form of a bucket.
pub open spec fn encode_bucket(bucket: BucketView) -> PayloadView {
    PayloadView::Record(
        seq![
            (WireField::BucketName.name_spec(), PayloadView::Text(bucket.name)),
            (WireField::BucketOwnerIdentity.name_spec(), encode_identity(bucket.owner_identity)),
            (WireField::BucketArn.name_spec(), PayloadView::Text(bucket.arn)),
        ],
    )
}

/// The wire form of an object.
pub open spec fn encode_object(object: S3ObjectView) -> PayloadView {
    PayloadView::Record(
        seq![
            (WireField::ObjectKey.name_spec(), PayloadView::Text(object.key)),
            (WireField::ObjectSize.name_spec(), PayloadView::Integer(object.size as int)),
            (WireField::ObjectETag.name_spec(), PayloadView::Text(object.e_tag)),
            (WireField::ObjectSequencer.name_spec(), PayloadView::Text(object.sequencer)),
        ],
    )
}

/// The wire form of a notification.
pub open spec fn encode_entity(entity: S3EntityView) -> PayloadView {
    PayloadView::Record(
        seq![
            (WireField::SchemaVersion.name_spec(), PayloadView::Text(entity.s3_schema_version)),
            (WireField::ConfigurationId.name_spec(), PayloadView::Text(entity.configuration_id)),
            (WireField::Bucket.name_spec(), encode_bucket(entity.bucket)),
            (WireField::Object.name_spec(), encode_object(entity.object)),
        ],
    )
}

/// The entries of the record that stands at `field`.
fn read_record<'a>(value: &'a Payload, field: WireField) -> (entries: Result<
    &'a Vec<(String, Payload)>,
    DecodeError,
>)
    ensures
        match record_of(value@, field) {
            Ok(named) => entries matches Ok(found) && entries_view(found) == named,
            Err(error) => entries == Err::<&Vec<(String, Payload)>, DecodeError>(error),
        },
{
    match value {
        Payload::Record(entries) => {
            proof {
                lemma_record_view(entries);
            }
            Ok(entries)
        },
        _ => Err(DecodeError::MalformedNotification { field }),
    }
}

/// The value that `entries` hold at `field`, of whatever kind.
fn read_value<'a>(entries: &'a Vec<(String, Payload)>, field: WireField) -> (value: Result<
    &'a Payload,
    DecodeError,
>)
    ensures
        viewed(value) == value_at(entries_view(entries), field),
{
    match find(entries, field.name()) {
        Some(value) => Ok(value),
        None => Err(DecodeError::MalformedNotification { field }),
    }
}

/// The text that `entries` hold at `field`.
fn read_text(entries: &Vec<(String, Payload)>, field: WireField) -> (text: Result<String, DecodeError>)
    ensures
        viewed(text) == text_at(entries_view(entries), field),
{
    match find(entries, field.name()) {
        Some(Payload::Text(text)) => Ok(text.clone()),
        _ => Err(DecodeError::MalformedNotification { field }),
    }
}

/// The byte count that `entries` hold at `field`.
fn read_size(entries: &Vec<(String, Payload)>, field: WireField) -> (size: Result<u64, DecodeError>)
    ensures
        size == size_at(entries_view(entries), field),
{
    match find(entries, field.name()) {
        Some(Payload::Integer(n)) => {
            if 0 <= *n && *n <= u64::MAX as i128 {
                Ok(*n as u64)
            } else {
                Err(DecodeError::MalformedNotification { field })
            }
        },
        _ => Err(DecodeError::MalformedNotification { field }),
    }
}

impl UserIdentity {
    /// Reads an owner from its wire form.
    pub fn decode(value: &Payload) -> (decoded: Result<UserIdentity, DecodeError>)
        ensures
            viewed(decoded) == decode_identity(value@),
    {
        let entries = read_record(value, WireField::BucketOwnerIdentity)?;
        let principal_id = read_text(entries, WireField::OwnerPrincipalId)?;
        Ok(UserIdentity { principal_id })
    }
}

impl Bucket {
    /// Reads a bucket from its wire form.
    pub fn decode(value: &Payload) -> (decoded: Result<Bucket, DecodeError>)
        ensures
            viewed(decoded) == decode_bucket(value@),
    {
        let entries = read_record(value, WireField::Bucket)?;
        let name = read_text(entries, WireField::BucketName)?;
        let owner = read_value(entries, WireField::BucketOwnerIdentity)?;
        let owner_identity = UserIdentity::decode(owner)?;
        let arn = read_text(entries, WireField::BucketArn)?;
        Ok(Bucket { name, owner_identity, arn })
    }
}

impl S3Object {
    /// Reads an object from its wire form.
    pub fn decode(value: &Payload) -> (decoded: Result<S3Object, DecodeError>)
        ensures
            viewed(decoded) == decode_object(value@),
    {
        let entries = read_record(value, WireField::Object)?;
        let key = read_text(entries, WireField::ObjectKey)?;
        let size = read_size(entries, WireField::ObjectSize)?;
        let e_tag = read_text(entries, WireField::ObjectETag)?;
        let sequencer = read_text(entries, WireField::ObjectSequencer)?;
        Ok(S3Object { key, size, e_tag, sequencer })
    }
}

impl S3Entity {
    /// Reads a notification from its wire form.
    ///
    /// Succeeds exactly when every field of the format is there once and of
    /// its kind, and then holds what the payload holds, unchanged. Otherwise
    /// the error names the first field in wire order that is not so, and
    /// nothing is returned of the rest.
    pub fn decode(value: &Payload) -> (decoded: Result<S3Entity, DecodeError>)
        ensures
            viewed(decoded) == decode_entity(value@),
    {
        let entries = read_record(value, WireField::Root)?;
        let s3_schema_version = read_text(entries, WireField::SchemaVersion)?;
        let configuration_id = read_text(entries, WireField::ConfigurationId)?;
        let bucket_value = read_value(entries, WireField::Bucket)?;
        let bucket = Bucket::decode(bucket_value)?;
        let object_value = read_value(entries, WireField::Object)?;
        let object = S3Object::decode(object_value)?;
        Ok(S3Entity { s3_schema_version, configuration_id, bucket, object })
    }
}

impl UserIdentity {
    /// Writes the owner in its wire form.
    pub fn encode(&self) -> (wire: Payload)
        ensures
            wire@ == encode_identity(self@),
    {
        let mut entries: Vec<(String, Payload)> = Vec::new();
        entries.push(
            (WireField::OwnerPrincipalId.name().to_owned(), Payload::Text(self.principal_id.clone())),
        );
        proof {
            lemma_record_view(&entries);
            assert(entries_view(&entries) =~= encode_identity(self@)->Record_0);
        }
        Payload::Record(entries)
    }
}

impl Bucket {
    /// Writes the bucket in its wire form.
    pub fn encode(&self) -> (wire: Payload)
        ensures
            wire@ == encode_bucket(self@),
    {
        let mut entries: Vec<(String, Payload)> = Vec::new();
        entries.push((WireField::BucketName.name().to_owned(), Payload::Text(self.name.clone())));
        entries.push((WireField::BucketOwnerIdentity.name().to_owned(), self.owner_identity.encode()));
        entries.push((WireField::BucketArn.name().to_owned(), Payload::Text(self.arn.clone())));
        proof {
            lemma_record_view(&entries);
            assert(entries_view(&entries) =~= encode_bucket(self@)->Record_0);
        }
        Payload::Record(entries)
    }
}

impl S3Object {
    /// Writes the object in its wire form.
    pub fn encode(&self) -> (wire: Payload)
        ensures
            wire@ == encode_object(self@),
    {
        let mut entries: Vec<(String, Payload)> = Vec::new();
        entries.push((WireField::ObjectKey.name().to_owned(), Payload::Text(self.key.clone())));
        entries.push((WireField::ObjectSize.name().to_owned(), Payload::Integer(self.size as i128)));
        entries.push((WireField::ObjectETag.name().to_owned(), Payload::Text(self.e_tag.clone())));
        entries.push(
            (WireField::ObjectSequencer.name().to_owned(), Payload::Text(self.sequencer.clone())),
        );
        proof {
            lemma_record_view(&entries);
            assert(entries_view(&entries) =~= encode_object(self@)->Record_0);
        }
        Payload::Record(entries)
    }
}

impl S3Entity {
    /// Writes the notification in its wire form: each field under its wire
    /// name, in wire order.
    pub fn encode(&self) -> (wire: Payload)
        ensures
            wire@ == encode_entity(self@),
    {
        let mut entries: Vec<(String, Payload)> = Vec::new();
        entries.push(
            (WireField::SchemaVersion.name().to_owned(), Payload::Text(self.s3_schema_version.clone())),
        );
        entries.push(
            (WireField::ConfigurationId.name().to_owned(), Payload::Text(self.configuration_id.clone())),
        );
        entries.push((WireField::Bucket.name().to_owned(), self.bucket.encode()));
        entries.push((WireField::Object.name().to_owned(), self.object.encode()));
        proof {
            lemma_record_view(&entries);
            assert(entries_view(&entries) =~= encode_entity(self@)->Record_0);
        }
        Payload::Record(entries)
    }
}

/// The names of the fields that stand side by side in one record differ.
proof fn lemma_names_differ()
    ensures
        WireField::SchemaVersion.name_spec() != WireField::ConfigurationId.name_spec(),
        WireField::SchemaVersion.name_spec() != WireField::Bucket.name_spec(),
        WireField::SchemaVersion.name_spec() != WireField::Object.name_spec(),
        WireField::ConfigurationId.name_spec() != WireField::Bucket.name_spec(),
        WireField::ConfigurationId.name_spec() != WireField::Object.name_spec(),
        WireField::Bucket.name_spec() != WireField::Object.name_spec(),
        WireField::BucketName.name_spec() != WireField::BucketOwnerIdentity.name_spec(),
        WireField::BucketName.name_spec() != WireField::BucketArn.name_spec(),
        WireField::BucketOwnerIdentity.name_spec() != WireField::BucketArn.name_spec(),
        WireField::ObjectKey.name_spec() != WireField::ObjectSize.name_spec(),
        WireField::ObjectKey.name_spec() != WireField::ObjectETag.name_spec(),
        WireField::ObjectKey.name_spec() != WireField::ObjectSequencer.name_spec(),
        WireField::ObjectSize.name_spec() != WireField::ObjectETag.name_spec(),
        WireField::ObjectSize.name_spec() != WireField::ObjectSequencer.name_spec(),
        WireField::ObjectETag.name_spec() != WireField::ObjectSequencer.name_spec(),
{
    reveal_strlit("s3SchemaVersion");
    reveal_strlit("configurationId");
    reveal_strlit("bucket");
    reveal_strlit("object");
    reveal_strlit("name");
    reveal_strlit("ownerIdentity");
    reveal_strlit("arn");
    reveal_strlit("key");
    reveal_strlit("size");
    reveal_strlit("eTag");
    reveal_strlit("sequencer");
    assert("s3SchemaVersion"@[0] != "configurationId"@[0]);
    assert("bucket"@[0] != "object"@[0]);
    assert("size"@[0] != "eTag"@[0]);
    assert("s3SchemaVersion"@.len() != "bucket"@.len());
    assert("name"@.len() != "ownerIdentity"@.len());
    assert("name"@.len() != "arn"@.len());
    assert("key"@.len() != "size"@.len());
    assert("key"@.len() != "sequencer"@.len());
    assert("size"@.len() != "sequencer"@.len());
}

/// Decoding the wire form of an owner gives the owner back.
pub proof fn lemma_identity_round_trip(identity: UserIdentityView)
    ensures
        decode_identity(encode_identity(identity)) == Ok::<UserIdentityView, DecodeError>(identity),
{
    let entries = encode_identity(identity)->Record_0;
    lemma_lookup_sole(entries, WireField::OwnerPrincipalId.name_spec(), 0);
}

/// Decoding the wire form of a bucket gives the bucket back.
pub proof fn lemma_bucket_round_trip(bucket: BucketView)
    ensures
        decode_bucket(encode_bucket(bucket)) == Ok::<BucketView, DecodeError>(bucket),
{
    let entries = encode_bucket(bucket)->Record_0;
    lemma_names_differ();
    lemma_lookup_sole(entries, WireField::BucketName.name_spec(), 0);
    lemma_lookup_sole(entries, WireField::BucketOwnerIdentity.name_spec(), 1);
    lemma_lookup_sole(entries, WireField::BucketArn.name_spec(), 2);
    lemma_identity_round_trip(bucket.owner_identity);
}

/// Decoding the wire form of an object gives the object back, its size to
/// the byte.
pub proof fn lemma_object_round_trip(object: S3ObjectView)
    ensures
        decode_object(encode_object(object)) == Ok::<S3ObjectView, DecodeError>(object),
{
    let entries = encode_object(object)->Record_0;
    lemma_names_differ();
    lemma_lookup_sole(entries, WireField::ObjectKey.name_spec(), 0);
    lemma_lookup_sole(entries, WireField::ObjectSize.name_spec(), 1);
    lemma_lookup_sole(entries, WireField::ObjectETag.name_spec(), 2);
    lemma_lookup_sole(entries, WireField::ObjectSequencer.name_spec(), 3);
}

/// Decoding is the inverse of encoding: the wire form of a notification
/// decodes, and to that same notification.
pub proof fn lemma_entity_round_trip(entity: S3EntityView)
    ensures
        decode_entity(encode_entity(entity)) == Ok::<S3EntityView, DecodeError>(entity),
{
    let entries = encode_entity(entity)->Record_0;
    lemma_names_differ();
    lemma_lookup_sole(entries, WireField::SchemaVersion.name_spec(), 0);
    lemma_lookup_sole(entries, WireField::ConfigurationId.name_spec(), 1);
    lemma_lookup_sole(entries, WireField::Bucket.name_spec(), 2);
    lemma_lookup_sole(entries, WireField::Object.name_spec(), 3);
    lemma_bucket_round_trip(entity.bucket);
    lemma_object_round_trip(entity.object);
}

/// Names that the format does not know are passed over: an entry that is
/// none of the four fields of a notification, put in at any place, does not
/// change what the payload decodes to.
pub proof fn lemma_entity_passes_over_other_names(
    entries: Entries,
    at: int,
    other: Seq<char>,
    value: PayloadView,
)
    requires
        0 <= at <= entries.len(),
        other != WireField::SchemaVersion.name_spec(),
        other != WireField::ConfigurationId.name_spec(),
        other != WireField::Bucket.name_spec(),
        other != WireField::Object.name_spec(),
    ensures
        decode_entity(PayloadView::Record(entries.insert(at, (other, value)))) == decode_entity(
            PayloadView::Record(entries),
        ),
{
    lemma_lookup_passes_over(entries, at, other, value, WireField::SchemaVersion.name_spec());
    lemma_lookup_passes_over(entries, at, other, value, WireField::ConfigurationId.name_spec());
    lemma_lookup_passes_over(entries, at, other, value, WireField::Bucket.name_spec());
    lemma_lookup_passes_over(entries, at, other, value, WireField::Object.name_spec());
}

/// As [`lemma_entity_passes_over_other_names`], of a bucket.
pub proof fn lemma_bucket_passes_over_other_names(
    entries: Entries,
    at: int,
    other: Seq<char>,
    value: PayloadView,
)
    requires
        0 <= at <= entries.len(),
        other != WireField::BucketName.name_spec(),
        other != WireField::BucketOwnerIdentity.name_spec(),
        other != WireField::BucketArn.name_spec(),
    ensures
        decode_bucket(PayloadView::Record(entries.insert(at, (other, value)))) == decode_bucket(
            PayloadView::Record(entries),
        ),
{
    lemma_lookup_passes_over(entries, at, other, value, WireField::BucketName.name_spec());
    lemma_lookup_passes_over(entries, at, other, value, WireField::BucketOwnerIdentity.name_spec());
    lemma_lookup_passes_over(entries, at, other, value, WireField::BucketArn.name_spec());
}

/// As [`lemma_entity_passes_over_other_names`], of an object.
pub proof fn lemma_object_passes_over_other_names(
    entries: Entries,
    at: int,
    other: Seq<char>,
    value: PayloadView,
)
    requires
        0 <= at <= entries.len(),
        other != WireField::ObjectKey.name_spec(),
        other != WireField::ObjectSize.name_spec(),
        other != WireField::ObjectETag.name_spec(),
        other != WireField::ObjectSequencer.name_spec(),
    ensures
        decode_object(PayloadView::Record(entries.insert(at, (other, value)))) == decode_object(
            PayloadView::Record(entries),
        ),
{
    lemma_lookup_passes_over(entries, at, other, value, WireField::ObjectKey.name_spec());
    lemma_lookup_passes_over(entries, at, other, value, WireField::ObjectSize.name_spec());
    lemma_lookup_passes_over(entries, at, other, value, WireField::ObjectETag.name_spec());
    lemma_lookup_passes_over(entries, at, other, value, WireField::ObjectSequencer.name_spec());
}

/// As [`lemma_entity_passes_over_other_names`], of an owner.
pub proof fn lemma_identity_passes_over_other_names(
    entries: Entries,
    at: int,
    other: Seq<char>,
    value: PayloadView,
)
    requires
        0 <= at <= entries.len(),
        other != WireField::OwnerPrincipalId.name_spec(),
    ensures
        decode_identity(PayloadView::Record(entries.insert(at, (other, value))))
            == decode_identity(PayloadView::Record(entries)),
{
    lemma_lookup_passes_over(entries, at, other, value, WireField::OwnerPrincipalId.name_spec());
}

} // verus!
