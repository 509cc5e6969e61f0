//! What the controller asks of its driver, and what the driver answers.

use crate::command::RemoteCall;
use crate::credentials::{text_of, Credentials, CredentialsView, TokenFile};
use crate::error::{Failure, FailureView};
use crate::session::{product_views, Product, ProductView, VehicleId};
use crate::telemetry::{
    RawVehicleState, RawVehicleStateView, ReducedVehicleSnapshot, ReducedVehicleSnapshotView,
};
use vstd::prelude::*;

verus! {

/// Work that only the driver can do.
#[derive(Clone, Debug, PartialEq, Eq)]
pub enum Effect {
    /// Make the application's data directory unless it exists.
    EnsureAppDir,
    /// Read a token file, if it exists.
    ReadToken(TokenFile),
    /// Write exactly this text to a token file.
    WriteToken(TokenFile, String),
    /// Exchange this refresh token with the service for new credentials.
    ExchangeRefreshToken(String),
    /// List the account's products.
    ListProducts,
    /// Make one call for one vehicle.
    Remote(VehicleId, RemoteCall),
    /// Encode a snapshot as the text that the shell takes.
    EncodeSnapshot(ReducedVehicleSnapshot),
}

/// What became of an effect.
#[derive(Clone, Debug, PartialEq, Eq)]
pub enum Reply {
    /// It was carried out and hands nothing back.
    Done,
    /// It failed, for this cause.
    Failed(String),
    /// A token file was looked for: its contents, or nothing where the file
    /// does not exist.
    Token(Option<String>),
    /// The service exchanged the refresh token for these credentials.
    Credentials(Credentials),
    /// The service listed these products.
    Products(Vec<Product>),
    /// The service reported this state of the vehicle.
    VehicleData(RawVehicleState),
    /// The snapshot was encoded as this text.
    Text(String),
}

/// How a request ended: the text for the shell, which is empty after a
/// failure, and the failure, if there was one.
#[derive(Clone, Debug, PartialEq, Eq)]
pub struct Outcome {
    pub text: String,
    pub failure: Option<Failure>,
}

/// What the driver is to do next.
#[derive(Clone, Debug, PartialEq, Eq)]
pub enum Step {
    /// Carry out this effect and come back with the reply.
    Perform(Effect),
    /// The request has ended.
    Finished(Outcome),
}

/// [`Effect`] as plain text.
#[verifier::ext_equal]
pub enum EffectView {
    EnsureAppDir,
    ReadToken(TokenFile),
    WriteToken(TokenFile, Seq<char>),
    ExchangeRefreshToken(Seq<char>),
    ListProducts,
    Remote(VehicleId, RemoteCall),
    EncodeSnapshot(ReducedVehicleSnapshotView),
}

/// [`Reply`] as plain text.
#[verifier::ext_equal]
pub enum ReplyView {
    Done,
    Failed(Seq<char>),
    Token(Option<Seq<char>>),
    Credentials(CredentialsView),
    Products(Seq<ProductView>),
    VehicleData(RawVehicleStateView),
    Text(Seq<char>),
}

/// [`Outcome`] as plain text.
#[verifier::ext_equal]
pub struct OutcomeView {
    pub text: Seq<char>,
    pub failure: Option<FailureView>,
}

/// [`Step`] as plain text.
#[verifier::ext_equal]
pub enum StepView {
    Perform(EffectView),
    Finished(OutcomeView),
}

impl View for Effect {
    type V = EffectView;

    open spec fn view(&self) -> EffectView {
        match *self {
            Effect::EnsureAppDir => EffectView::EnsureAppDir,
            Effect::ReadToken(file) => EffectView::ReadToken(file),
            Effect::WriteToken(file, token) => EffectView::WriteToken(file, token@),
            Effect::ExchangeRefreshToken(token) => EffectView::ExchangeRefreshToken(token@),
            Effect::ListProducts => EffectView::ListProducts,
            Effect::Remote(vehicle, call) => EffectView::Remote(vehicle, call),
            Effect::EncodeSnapshot(snapshot) => EffectView::EncodeSnapshot(snapshot@),
        }
    }
}

impl View for Reply {
    type V = ReplyView;

    open spec fn view(&self) -> ReplyView {
        match *self {
            Reply::Done => ReplyView::Done,
            Reply::Failed(cause) => ReplyView::Failed(cause@),
            Reply::Token(contents) => ReplyView::Token(text_of(contents)),
            Reply::Credentials(credentials) => ReplyView::Credentials(credentials@),
            Reply::Products(products) => ReplyView::Products(product_views(products@)),
            Reply::VehicleData(raw) => ReplyView::VehicleData(raw@),
            Reply::Text(text) => ReplyView::Text(text@),
        }
    }
}

impl View for Outcome {
    type V = OutcomeView;

    open spec fn view(&self) -> OutcomeView {
        OutcomeView {
            text: self.text@,
            failure: match self.failure {
                Some(f) => Some(f@),
                None => None,
            },
        }
    }
}

impl View for Step {
    type V = StepView;

    open spec fn view(&self) -> StepView {
        match *self {
            Step::Perform(effect) => StepView::Perform(effect@),
            Step::Finished(outcome) => StepView::Finished(outcome@),
        }
    }
}

impl ReplyView {
    /// The cause of the failure that this reply stands for, where it is none
    /// of the replies that the effect allows: the cause it names, or that it
    /// is no answer to the effect.
    pub open spec fn cause(self) -> Seq<char> {
        match self {
            ReplyView::Failed(cause) => cause,
            _ => "unexpected reply"@,
        }
    }
}

impl Reply {
    /// Writes the cause of the failure that this reply stands for.
    pub fn into_cause(self) -> (cause: String)
        ensures
            cause@ == self@.cause(),
    {
        match self {
            Reply::Failed(cause) => cause,
            _ => String::from_str("unexpected reply"),
        }
    }
}

} // verus!
