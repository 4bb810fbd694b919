//! One gateway operation as a conversation with the storage backend.
//!
//! The gateway performs no input or output itself. An [`Exchange`] says what
//! has to be done next (an [`Action`]); whoever drives it does that and
//! reports what came of it (an [`Event`]).

use crate::error::GatewayError;
use crate::presigning::grant_terms;
use crate::presigning::GrantTerms;
use crate::presigning::GRANT_LIFETIME_SECS;
use vstd::prelude::*;

verus! {

/// The one request that a grant authorizes.
#[derive(Debug, Clone, Copy, PartialEq, Eq)]
pub enum Verb {
    /// Writing the object.
    Put,
    /// Reading the object.
    Get,
}

/// What was asked of the gateway.
#[derive(Debug, Clone, Copy, PartialEq, Eq)]
pub enum Operation {
    /// Mint a grant to upload an object.
    UploadGrant,
    /// Mint a grant to download an object.
    DownloadGrant,
    /// Write an object with the gateway's own credentials.
    DirectWrite,
}

/// What an exchange is waiting for.
#[derive(Debug, Clone, Copy, PartialEq, Eq)]
pub enum Phase {
    /// A fresh session with the backend.
    AwaitingSession,
    /// The backend's signature.
    AwaitingSignature,
    /// The end of the transfer.
    AwaitingTransfer,
    /// Nothing: the operation is over.
    Finished,
}

/// What the driver reports back.
#[derive(Debug, PartialEq, Eq)]
pub enum Event {
    /// The session asked for is open.
    SessionOpened,
    /// The backend signed the request; this is the URL.
    Signed(String),
    /// The backend could not sign the request.
    SigningFailed,
    /// The backend stored the object.
    Transferred,
    /// The backend rejected the write or could not complete it.
    TransferFailed,
}

/// What the driver has to do next.
#[derive(Debug)]
pub enum Action {
    /// Resolve credentials anew and open a session in `region`.
    OpenSession { region: String },
    /// Have the backend sign one `verb` request for `key` in `bucket`.
    Sign { verb: Verb, bucket: String, key: String, terms: GrantTerms },
    /// Stream the caller's body to `key` in `bucket`.
    Transfer { bucket: String, key: String },
    /// Hand the caller the grant: the URL as the backend made it.
    Grant(String),
    /// Tell the caller that the object is stored.
    Stored,
    /// Hand the caller the failure.
    Fail(GatewayError),
}

/// The mathematical value of an [`Event`].
pub enum EventView {
    SessionOpened,
    Signed(Seq<char>),
    SigningFailed,
    Transferred,
    TransferFailed,
}

/// The mathematical value of an [`Action`].
pub enum ActionView {
    OpenSession { region: Seq<char> },
    Sign { verb: Verb, bucket: Seq<char>, key: Seq<char>, lifetime_secs: u64 },
    Transfer { bucket: Seq<char>, key: Seq<char> },
    Grant(Seq<char>),
    Stored,
    Fail(GatewayError),
}

/// The mathematical value of an [`Exchange`].
pub struct ExchangeView {
    pub operation: Operation,
    pub bucket: Seq<char>,
    pub key: Seq<char>,
    pub phase: Phase,
}

impl View for Event {
    type V = EventView;

    open spec fn view(&self) -> EventView {
        match self {
            Event::SessionOpened => EventView::SessionOpened,
            Event::Signed(url) => EventView::Signed(url@),
            Event::SigningFailed => EventView::SigningFailed,
            Event::Transferred => EventView::Transferred,
            Event::TransferFailed => EventView::TransferFailed,
        }
    }
}

impl View for Action {
    type V = ActionView;

    open spec fn view(&self) -> ActionView {
        match self {
            Action::OpenSession { region } => ActionView::OpenSession { region: region@ },
            Action::Sign { verb, bucket, key, terms } => ActionView::Sign {
                verb: *verb,
                bucket: bucket@,
                key: key@,
                lifetime_secs: terms.lifetime(),
            },
            Action::Transfer { bucket, key } => ActionView::Transfer { bucket: bucket@, key: key@ },
            Action::Grant(url) => ActionView::Grant(url@),
            Action::Stored => ActionView::Stored,
            Action::Fail(error) => ActionView::Fail(*error),
        }
    }
}

impl Operation {
    /// The verb that a grant of this operation authorizes; none for a write
    /// that the gateway makes itself.
    pub open spec fn verb_spec(self) -> Option<Verb> {
        match self {
            Operation::UploadGrant => Some(Verb::Put),
            Operation::DownloadGrant => Some(Verb::Get),
            Operation::DirectWrite => None,
        }
    }

    /// The verb that a grant of this operation authorizes; none for a write
    /// that the gateway makes itself.
    pub fn verb(&self) -> (verb: Option<Verb>)
        ensures
            verb == self.verb_spec(),
    {
        match self {
            Operation::UploadGrant => Some(Verb::Put),
            Operation::DownloadGrant => Some(Verb::Get),
            Operation::DirectWrite => None,
        }
    }
}

/// The exchange as it stands when `operation` on `key` in `bucket` begins.
pub open spec fn opening(operation: Operation, bucket: Seq<char>, key: Seq<char>) -> ExchangeView {
    ExchangeView { operation, bucket, key, phase: Phase::AwaitingSession }
}

/// How an exchange answers an event: the phase it moves to and what the
/// driver has to do next. `None` where the exchange does not await the event.
///
/// Once the session is open, a grant has its request signed for 24 hours
/// and a direct write is transferred. The backend's answer ends the exchange:
/// its URL is handed on as it is, its refusal becomes the failure of that
/// step.
pub open spec fn reaction(exchange: ExchangeView, event: EventView) -> Option<(Phase, ActionView)> {
    match (exchange.phase, event) {
        (Phase::AwaitingSession, EventView::SessionOpened) => match exchange.operation.verb_spec() {
            Some(verb) => Some(
                (
                    Phase::AwaitingSignature,
                    ActionView::Sign {
                        verb,
                        bucket: exchange.bucket,
                        key: exchange.key,
                        lifetime_secs: GRANT_LIFETIME_SECS,
                    },
                ),
            ),
            None => Some(
                (
                    Phase::AwaitingTransfer,
                    ActionView::Transfer { bucket: exchange.bucket, key: exchange.key },
                ),
            ),
        },
        (Phase::AwaitingSignature, EventView::Signed(url)) => Some(
            (Phase::Finished, ActionView::Grant(url)),
        ),
        (Phase::AwaitingSignature, EventView::SigningFailed) => Some(
            (Phase::Finished, ActionView::Fail(GatewayError::Signing)),
        ),
        (Phase::AwaitingTransfer, EventView::Transferred) => Some(
            (Phase::Finished, ActionView::Stored),
        ),
        (Phase::AwaitingTransfer, EventView::TransferFailed) => Some(
            (Phase::Finished, ActionView::Fail(GatewayError::Transfer)),
        ),
        _ => None,
    }
}

impl Phase {
    /// How many more events an exchange in this phase can take in.
    pub open spec fn events_left(self) -> nat {
        match self {
            Phase::AwaitingSession => 2,
            Phase::AwaitingSignature => 1,
            Phase::AwaitingTransfer => 1,
            Phase::Finished => 0,
        }
    }
}

impl ExchangeView {
    /// What holds of every exchange: only a grant waits for a signature, and
    /// only a direct write waits for a transfer.
    pub open spec fn well_formed(self) -> bool {
        &&& self.phase == Phase::AwaitingSignature ==> self.operation.verb_spec() is Some
        &&& self.phase == Phase::AwaitingTransfer ==> self.operation.verb_spec() is None
    }
}

/// An upload grant and a download grant for the same object are asked of the
/// backend in the same words but for the verb: `Put` for the upload, `Get` for
/// the download, each for 24 hours. So the two requests are never the same.
pub proof fn lemma_grants_differ_in_verb(bucket: Seq<char>, key: Seq<char>)
    ensures
        reaction(opening(Operation::UploadGrant, bucket, key), EventView::SessionOpened) == Some(
            (
                Phase::AwaitingSignature,
                ActionView::Sign { verb: Verb::Put, bucket, key, lifetime_secs: GRANT_LIFETIME_SECS },
            ),
        ),
        reaction(opening(Operation::DownloadGrant, bucket, key), EventView::SessionOpened) == Some(
            (
                Phase::AwaitingSignature,
                ActionView::Sign { verb: Verb::Get, bucket, key, lifetime_secs: GRANT_LIFETIME_SECS },
            ),
        ),
        reaction(opening(Operation::UploadGrant, bucket, key), EventView::SessionOpened)
            != reaction(opening(Operation::DownloadGrant, bucket, key), EventView::SessionOpened),
{
}

/// Every event that an exchange takes in brings it nearer to its end, and a
/// finished exchange takes in none: no operation asks more than two things
/// of the backend.
pub proof fn lemma_exchange_advances(exchange: ExchangeView, event: EventView)
    ensures
        reaction(exchange, event) matches Some((phase, _)) ==> phase.events_left()
            < exchange.phase.events_left(),
        exchange.phase == Phase::Finished ==> reaction(exchange, event) is None,
{
}

/// An exchange stays well formed, and ends as its operation should: a grant
/// ends with the URL or with a signing failure, a direct write with the
/// object stored or with a transfer failure.
pub proof fn lemma_exchange_ends_in_kind(exchange: ExchangeView, event: EventView)
    requires
        exchange.well_formed(),
    ensures
        reaction(exchange, event) matches Some((phase, action)) ==> {
            &&& (ExchangeView { phase, ..exchange }).well_formed()
            &&& phase == Phase::Finished && exchange.operation.verb_spec() is Some ==> action
                is Grant || action == ActionView::Fail(GatewayError::Signing)
            &&& phase == Phase::Finished && exchange.operation.verb_spec() is None ==> action
                == ActionView::Stored || action == ActionView::Fail(GatewayError::Transfer)
        },
{
}

/// One operation of the gateway, under way.
#[derive(Debug)]
pub struct Exchange {
    operation: Operation,
    bucket: String,
    key: String,
    phase: Phase,
}

impl View for Exchange {
    type V = ExchangeView;

    closed spec fn view(&self) -> ExchangeView {
        ExchangeView {
            operation: self.operation,
            bucket: self.bucket@,
            key: self.key@,
            phase: self.phase,
        }
    }
}

impl Exchange {
    /// Every exchange is well formed.
    #[verifier::type_invariant]
    spec fn consistent(self) -> bool {
        self@.well_formed()
    }

    /// Begins `operation` on `key` in `bucket`. Nothing has been asked of the
    /// backend yet, not even a session.
    pub fn begin(operation: Operation, bucket: String, key: String) -> (exchange: Exchange)
        ensures
            exchange@ == opening(operation, bucket@, key@),
            exchange@.well_formed(),
    {
        Exchange { operation, bucket, key, phase: Phase::AwaitingSession }
    }

    /// What was asked of the gateway.
    pub fn operation(&self) -> (operation: Operation)
        ensures
            operation == self@.operation,
            self@.well_formed(),
    {
        proof {
            use_type_invariant(self);
        }
        self.operation
    }

    /// What the exchange is waiting for.
    pub fn phase(&self) -> (phase: Phase)
        ensures
            phase == self@.phase,
            self@.well_formed(),
    {
        proof {
            use_type_invariant(self);
        }
        self.phase
    }

    /// Takes in what the driver reports and says what to do next.
    ///
    /// An event that the exchange does not await changes nothing and yields
    /// `None`; every other event moves the exchange on as [`reaction`] says.
    pub fn step(&mut self, event: Event) -> (next: Option<Action>)
        ensures
            match reaction(old(self)@, event@) {
                Some((phase, action)) => {
                    &&& next matches Some(a) && a@ == action
                    &&& final(self)@ == (ExchangeView { phase, ..old(self)@ })
                },
                None => next is None && final(self)@ == old(self)@,
            },
            final(self)@.well_formed(),
    {
        proof {
            use_type_invariant(&*self);
        }
        match self.phase {
            Phase::AwaitingSession => match event {
                Event::SessionOpened => match self.operation.verb() {
                    Some(verb) => match grant_terms(GRANT_LIFETIME_SECS) {
                        Ok(terms) => {
                            self.phase = Phase::AwaitingSignature;
                            Some(
                                Action::Sign {
                                    verb,
                                    bucket: self.bucket.clone(),
                                    key: self.key.clone(),
                                    terms,
                                },
                            )
                        },
                        Err(error) => {
                            // Never taken: 24 hours are within what the backend signs.
                            self.phase = Phase::Finished;
                            Some(Action::Fail(error))
                        },
                    },
                    None => {
                        self.phase = Phase::AwaitingTransfer;
                        Some(Action::Transfer { bucket: self.bucket.clone(), key: self.key.clone() })
                    },
                },
                _ => None,
            },
            Phase::AwaitingSignature => match event {
                Event::Signed(url) => {
                    self.phase = Phase::Finished;
                    Some(Action::Grant(url))
                },
                Event::SigningFailed => {
                    self.phase = Phase::Finished;
                    Some(Action::Fail(GatewayError::Signing))
                },
                _ => None,
            },
            Phase::AwaitingTransfer => match event {
                Event::Transferred => {
                    self.phase = Phase::Finished;
                    Some(Action::Stored)
                },
                Event::TransferFailed => {
                    self.phase = Phase::Finished;
                    Some(Action::Fail(GatewayError::Transfer))
                },
                _ => None,
            },
            Phase::Finished => None,
        }
    }
}

} // verus!
