//! The controller: one request at a time, from the shell's call to its end.
//!
//! A request begins with [`Controller::begin`]. As long as the step that
//! comes back is [`Step::Perform`], the driver carries out the effect and
//! hands the reply to [`Controller::resume`]. Each effect is asked for once;
//! nothing is tried again. A request that fails ends like one that succeeds:
//! with a text for the shell, which is then empty, and a new line in the
//! event log.

use crate::command::{Command, RemoteCall};
use crate::credentials::{Credentials, CredentialsView, TokenFile};
use crate::effect::{Effect, EffectView, Outcome, OutcomeView, Reply, ReplyView, Step, StepView};
use crate::error::{
    AuthError, AuthErrorView, DispatchError, DispatchErrorView, Failure, FailureView, RosterError,
    RosterErrorView,
};
use crate::event_log::{rendered, visible, EventLog};
use crate::session::{
    roster_text, vehicle_at, vehicles_of, RosterEntryView, Session, SessionView, VehicleId,
};
use crate::telemetry::{reduce, reduced};
use crate::text::{trim, trimmed};
use vstd::prelude::*;

verus! {

/// What the shell can ask for.
#[derive(Clone, Copy, Debug, PartialEq, Eq, Structural)]
pub enum Request {
    /// Find credentials and start a new session with them.
    Login,
    /// Fetch the roster of the account's vehicles.
    ResolveRoster,
    /// Carry out a command for the vehicle at `idx` of the roster.
    Vehicle { idx: i64, command: Command },
}

/// A command on its way: for which vehicle, the call that is out, and the
/// call that follows it.
#[derive(Clone, Copy, Debug, PartialEq, Eq, Structural)]
pub struct Flight {
    pub idx: i64,
    pub vehicle: VehicleId,
    pub command: Command,
    pub current: RemoteCall,
    pub rest: Option<RemoteCall>,
}

/// The effect whose reply the controller waits for.
#[derive(Debug)]
enum Pending {
    Idle,
    AppDir,
    RefreshToken,
    Exchange,
    AccessWrite(Credentials),
    RefreshWrite(Credentials),
    AccessToken,
    Products,
    Call(Flight),
    Encoding,
}

/// The effect whose reply the controller waits for.
#[verifier::ext_equal]
pub enum PendingView {
    /// None: no request is under way.
    Idle,
    /// Login: the data directory is being made.
    AppDir,
    /// Login: the refresh-token file is being read.
    RefreshToken,
    /// Login: the refresh token is being exchanged.
    Exchange,
    /// Login: the new access token is being written.
    AccessWrite(CredentialsView),
    /// Login: the new refresh token is being written.
    RefreshWrite(CredentialsView),
    /// Login: the access-token file is being read.
    AccessToken,
    /// Roster: the products are being listed.
    Products,
    /// Command: a call for the vehicle is out.
    Call(Flight),
    /// Snapshot: the snapshot is being encoded.
    Encoding,
}

impl View for Pending {
    type V = PendingView;

    closed spec fn view(&self) -> PendingView {
        match *self {
            Pending::Idle => PendingView::Idle,
            Pending::AppDir => PendingView::AppDir,
            Pending::RefreshToken => PendingView::RefreshToken,
            Pending::Exchange => PendingView::Exchange,
            Pending::AccessWrite(c) => PendingView::AccessWrite(c@),
            Pending::RefreshWrite(c) => PendingView::RefreshWrite(c@),
            Pending::AccessToken => PendingView::AccessToken,
            Pending::Products => PendingView::Products,
            Pending::Call(flight) => PendingView::Call(flight),
            Pending::Encoding => PendingView::Encoding,
        }
    }
}

/// What the controller holds.
#[verifier::ext_equal]
pub struct ControllerView {
    pub session: SessionView,
    /// The event log, newest entry first.
    pub log: Seq<Seq<char>>,
    pub pending: PendingView,
}

/// The step that ends a request well, with `text` for the shell.
pub open spec fn finished(text: Seq<char>) -> StepView {
    StepView::Finished(OutcomeView { text, failure: None })
}

/// A request fails: the failure's line enters the log, nothing is pending
/// any more, and the shell gets the empty text.
pub open spec fn failed(c: ControllerView, failure: FailureView) -> (ControllerView, StepView) {
    (
        ControllerView { log: seq![failure.line()] + c.log, pending: PendingView::Idle, ..c },
        StepView::Finished(OutcomeView { text: Seq::<char>::empty(), failure: Some(failure) }),
    )
}

/// A login ends: the session is replaced by one with the credentials found
/// and an empty roster, or by one without credentials where it failed.
pub open spec fn login_ended(c: ControllerView, result: Result<CredentialsView, AuthErrorView>) -> (
    ControllerView,
    StepView,
) {
    match result {
        Ok(credentials) => (
            ControllerView {
                session: SessionView {
                    credentials: Some(credentials),
                    roster: Seq::<RosterEntryView>::empty(),
                },
                pending: PendingView::Idle,
                ..c
            },
            finished(Seq::<char>::empty()),
        ),
        Err(e) => failed(
            ControllerView {
                session: SessionView { credentials: None, roster: Seq::<RosterEntryView>::empty() },
                ..c
            },
            FailureView::Auth(e),
        ),
    }
}

/// A command ends well: its line, if it has one, enters the log.
pub open spec fn command_ended(c: ControllerView, command: Command) -> (ControllerView, StepView) {
    (
        ControllerView {
            log: match command.success_line() {
                Some(line) => seq![line] + c.log,
                None => c.log,
            },
            pending: PendingView::Idle,
            ..c
        },
        finished(Seq::<char>::empty()),
    )
}

/// The call of `flight` that was out is done with: the call that follows it
/// goes out, or the command ends.
pub open spec fn call_passed(c: ControllerView, flight: Flight) -> (ControllerView, StepView) {
    match flight.rest {
        Some(next) => (
            ControllerView {
                pending: PendingView::Call(Flight { current: next, rest: None, ..flight }),
                ..c
            },
            StepView::Perform(EffectView::Remote(flight.vehicle, next)),
        ),
        None => command_ended(c, flight.command),
    }
}

/// The call of `flight` that was out has failed. Where the call is
/// tolerated, the failure's line enters the log and the command goes on as
/// after a success; else the command fails.
pub open spec fn call_failed(c: ControllerView, flight: Flight, cause: Seq<char>) -> (
    ControllerView,
    StepView,
) {
    if flight.current.tolerated() {
        call_passed(
            ControllerView { log: seq![flight.current.failure_line(flight.idx, cause)] + c.log, ..c },
            flight,
        )
    } else {
        failed(
            c,
            FailureView::Dispatch(
                DispatchErrorView::RemoteFailed { call: flight.current, idx: flight.idx, cause },
            ),
        )
    }
}

/// The reply to the call of `flight` that was out. The call that fetches the
/// vehicle's state succeeds with that state, which is reduced and sent to be
/// encoded; every other call succeeds with `Done`. Any other reply is a
/// failure of the call.
pub open spec fn call_answered(c: ControllerView, flight: Flight, reply: ReplyView) -> (
    ControllerView,
    StepView,
) {
    if flight.current.yields_data() {
        match reply {
            ReplyView::VehicleData(raw) => (
                ControllerView { pending: PendingView::Encoding, ..c },
                StepView::Perform(EffectView::EncodeSnapshot(reduced(raw))),
            ),
            _ => call_failed(c, flight, reply.cause()),
        }
    } else {
        match reply {
            ReplyView::Done => call_passed(c, flight),
            _ => call_failed(c, flight, reply.cause()),
        }
    }
}

/// What `request` makes of the controller `c`, and its first step.
///
/// A login starts by making the data directory. A roster and a command need
/// credentials; a command needs an index into the roster too, and then sends
/// its first call for the vehicle found there. Whatever was pending is
/// forgotten.
pub open spec fn begun(c: ControllerView, request: Request) -> (ControllerView, StepView) {
    match request {
        Request::Login => (
            ControllerView { pending: PendingView::AppDir, ..c },
            StepView::Perform(EffectView::EnsureAppDir),
        ),
        Request::ResolveRoster => if c.session.credentials is Some {
            (
                ControllerView { pending: PendingView::Products, ..c },
                StepView::Perform(EffectView::ListProducts),
            )
        } else {
            failed(c, FailureView::Roster(RosterErrorView::NotAuthenticated))
        },
        Request::Vehicle { idx, command } => if c.session.credentials is None {
            failed(c, FailureView::Dispatch(DispatchErrorView::NotAuthenticated))
        } else {
            match vehicle_at(c.session.roster, idx) {
                None => failed(c, FailureView::Dispatch(DispatchErrorView::InvalidIndex(idx))),
                Some(vehicle) => (
                    ControllerView {
                        pending: PendingView::Call(
                            Flight {
                                idx,
                                vehicle,
                                command,
                                current: command.first(),
                                rest: command.second(),
                            },
                        ),
                        ..c
                    },
                    StepView::Perform(EffectView::Remote(vehicle, command.first())),
                ),
            }
        },
    }
}

/// What `reply` makes of the controller `c`, and the next step.
///
/// Login: after the data directory, the refresh-token file is read. Where it
/// exists, its trimmed contents are exchanged, the new access token is
/// written, then the new refresh token if the service gave one, and the
/// login ends with the new credentials; the access-token file is not looked
/// at. Where it does not exist, the access-token file is read and the login
/// ends with its trimmed contents, or without credentials where that file
/// does not exist either. Roster: the vehicles among the products replace
/// the roster, and their names are the text. Command: see
/// [`call_answered`]. A reply that the pending effect does not allow fails
/// the request. With nothing pending, nothing changes.
pub open spec fn resumed(c: ControllerView, reply: ReplyView) -> (ControllerView, StepView) {
    match c.pending {
        PendingView::Idle => (c, finished(Seq::<char>::empty())),
        PendingView::AppDir => match reply {
            ReplyView::Done => (
                ControllerView { pending: PendingView::RefreshToken, ..c },
                StepView::Perform(EffectView::ReadToken(TokenFile::Refresh)),
            ),
            _ => login_ended(c, Err(AuthErrorView::AppDir(reply.cause()))),
        },
        PendingView::RefreshToken => match reply {
            ReplyView::Token(Some(contents)) => (
                ControllerView { pending: PendingView::Exchange, ..c },
                StepView::Perform(EffectView::ExchangeRefreshToken(trimmed(contents))),
            ),
            ReplyView::Token(None) => (
                ControllerView { pending: PendingView::AccessToken, ..c },
                StepView::Perform(EffectView::ReadToken(TokenFile::Access)),
            ),
            _ => login_ended(c, Err(AuthErrorView::Unreadable(TokenFile::Refresh, reply.cause()))),
        },
        PendingView::Exchange => match reply {
            ReplyView::Credentials(credentials) => (
                ControllerView { pending: PendingView::AccessWrite(credentials), ..c },
                StepView::Perform(
                    EffectView::WriteToken(TokenFile::Access, credentials.access_token),
                ),
            ),
            _ => login_ended(c, Err(AuthErrorView::RefreshFailed(reply.cause()))),
        },
        PendingView::AccessWrite(credentials) => match reply {
            ReplyView::Done => match credentials.refresh_token {
                Some(token) => (
                    ControllerView { pending: PendingView::RefreshWrite(credentials), ..c },
                    StepView::Perform(EffectView::WriteToken(TokenFile::Refresh, token)),
                ),
                None => login_ended(c, Ok(credentials)),
            },
            _ => login_ended(c, Err(AuthErrorView::Unwritable(TokenFile::Access, reply.cause()))),
        },
        PendingView::RefreshWrite(credentials) => match reply {
            ReplyView::Done => login_ended(c, Ok(credentials)),
            _ => login_ended(c, Err(AuthErrorView::Unwritable(TokenFile::Refresh, reply.cause()))),
        },
        PendingView::AccessToken => match reply {
            ReplyView::Token(Some(contents)) => login_ended(
                c,
                Ok(CredentialsView { access_token: trimmed(contents), refresh_token: None }),
            ),
            ReplyView::Token(None) => login_ended(c, Err(AuthErrorView::NoCredentials)),
            _ => login_ended(c, Err(AuthErrorView::Unreadable(TokenFile::Access, reply.cause()))),
        },
        PendingView::Products => match reply {
            ReplyView::Products(products) => (
                ControllerView {
                    session: SessionView { roster: vehicles_of(products), ..c.session },
                    pending: PendingView::Idle,
                    ..c
                },
                finished(roster_text(vehicles_of(products))),
            ),
            _ => failed(c, FailureView::Roster(RosterErrorView::FetchFailed(reply.cause()))),
        },
        PendingView::Call(flight) => call_answered(c, flight, reply),
        PendingView::Encoding => match reply {
            ReplyView::Text(text) => (
                ControllerView { pending: PendingView::Idle, ..c },
                finished(text),
            ),
            _ => failed(c, FailureView::Dispatch(DispatchErrorView::Encoding(reply.cause()))),
        },
    }
}

/// The session, the event log and the request under way.
#[derive(Debug)]
pub struct Controller {
    session: Session,
    log: EventLog,
    pending: Pending,
}

impl View for Controller {
    type V = ControllerView;

    closed spec fn view(&self) -> ControllerView {
        ControllerView { session: self.session@, log: self.log@, pending: self.pending@ }
    }
}

impl Controller {
    /// A controller without credentials, with an empty roster and an empty
    /// log, and with nothing under way.
    pub fn new() -> (controller: Controller)
        ensures
            controller@.session.credentials is None,
            controller@.session.roster == Seq::<RosterEntryView>::empty(),
            controller@.log == Seq::<Seq<char>>::empty(),
            controller@.pending is Idle,
    {
        Controller { session: Session::new(None), log: EventLog::new(), pending: Pending::Idle }
    }

    /// The session.
    pub fn session(&self) -> (session: &Session)
        ensures
            session@ == self@.session,
    {
        &self.session
    }

    /// The event log.
    pub fn log(&self) -> (log: &EventLog)
        ensures
            log@ == self@.log,
    {
        &self.log
    }

    /// Tells whether no request is under way.
    pub fn is_idle(&self) -> (b: bool)
        ensures
            b == self@.pending is Idle,
    {
        match self.pending {
            Pending::Idle => true,
            _ => false,
        }
    }

    /// Drops all but the visible entries of the event log and returns the
    /// text that stands for them.
    pub fn poll_log(&mut self) -> (text: String)
        ensures
            text@ == rendered(old(self)@.log),
            final(self)@ == (ControllerView { log: visible(old(self)@.log), ..old(self)@ }),
    {
        self.log.render()
    }

    /// Ends the request under way as failed.
    fn fail(&mut self, failure: Failure) -> (step: Step)
        ensures
            final(self)@ == failed(old(self)@, failure@).0,
            step@ == failed(old(self)@, failure@).1,
    {
        let text = self.log.log_err_or(Err(failure.message()), String::new());
        self.pending = Pending::Idle;
        Step::Finished(Outcome { text, failure: Some(failure) })
    }

    /// Ends the request under way as done, with `text` for the shell.
    fn finish(&mut self, text: String) -> (step: Step)
        ensures
            final(self)@ == (ControllerView { pending: PendingView::Idle, ..old(self)@ }),
            step@ == finished(text@),
    {
        self.pending = Pending::Idle;
        Step::Finished(Outcome { text, failure: None })
    }

    /// Ends the login under way.
    fn end_login(&mut self, result: Result<Credentials, AuthError>) -> (step: Step)
        ensures
            final(self)@ == login_ended(
                old(self)@,
                match result {
                    Ok(c) => Ok(c@),
                    Err(e) => Err(e@),
                },
            ).0,
            step@ == login_ended(
                old(self)@,
                match result {
                    Ok(c) => Ok(c@),
                    Err(e) => Err(e@),
                },
            ).1,
    {
        let (found, failure) = match result {
            Ok(credentials) => (Ok(credentials), None),
            Err(e) => (Err(e.message()), Some(Failure::Auth(e))),
        };
        let kept = self.log.log_err(found);
        self.session = Session::new(kept);
        self.pending = Pending::Idle;
        Step::Finished(Outcome { text: String::new(), failure })
    }

    /// Sends the call that follows, or ends the command under way.
    fn pass_call(&mut self, flight: Flight) -> (step: Step)
        ensures
            final(self)@ == call_passed(old(self)@, flight).0,
            step@ == call_passed(old(self)@, flight).1,
    {
        match flight.rest {
            Some(next) => {
                self.pending = Pending::Call(
                    Flight {
                        idx: flight.idx,
                        vehicle: flight.vehicle,
                        command: flight.command,
                        current: next,
                        rest: None,
                    },
                );
                Step::Perform(Effect::Remote(flight.vehicle, next))
            },
            None => {
                match flight.command.success_text() {
                    Some(line) => self.log.push(line),
                    None => {},
                }
                self.finish(String::new())
            },
        }
    }

    /// Takes the failure of the call that was out.
    fn fail_call(&mut self, flight: Flight, cause: String) -> (step: Step)
        ensures
            final(self)@ == call_failed(old(self)@, flight, cause@).0,
            step@ == call_failed(old(self)@, flight, cause@).1,
    {
        if flight.current.is_tolerated() {
            self.log.push(flight.current.failure_text(flight.idx, cause.as_str()));
            self.pass_call(flight)
        } else {
            self.fail(
                Failure::Dispatch(
                    DispatchError::RemoteFailed { call: flight.current, idx: flight.idx, cause },
                ),
            )
        }
    }

    /// Takes the reply to the call that was out.
    fn answer_call(&mut self, flight: Flight, reply: Reply) -> (step: Step)
        ensures
            final(self)@ == call_answered(old(self)@, flight, reply@).0,
            step@ == call_answered(old(self)@, flight, reply@).1,
    {
        if flight.current.is_yielding_data() {
            match reply {
                Reply::VehicleData(raw) => {
                    self.pending = Pending::Encoding;
                    Step::Perform(Effect::EncodeSnapshot(reduce(raw)))
                },
                other => self.fail_call(flight, other.into_cause()),
            }
        } else {
            match reply {
                Reply::Done => self.pass_call(flight),
                other => self.fail_call(flight, other.into_cause()),
            }
        }
    }

    /// Begins `request` and returns its first step. A request that cannot
    /// begin ends at once: the shell gets the empty text and the log one new
    /// line.
    pub fn begin(&mut self, request: Request) -> (step: Step)
        ensures
            final(self)@ == begun(old(self)@, request).0,
            step@ == begun(old(self)@, request).1,
    {
        match request {
            Request::Login => {
                self.pending = Pending::AppDir;
                Step::Perform(Effect::EnsureAppDir)
            },
            Request::ResolveRoster => {
                if self.session.is_authenticated() {
                    self.pending = Pending::Products;
                    Step::Perform(Effect::ListProducts)
                } else {
                    self.fail(Failure::Roster(RosterError::NotAuthenticated))
                }
            },
            Request::Vehicle { idx, command } => {
                if !self.session.is_authenticated() {
                    return self.fail(Failure::Dispatch(DispatchError::NotAuthenticated));
                }
                match self.session.vehicle(idx) {
                    None => self.fail(Failure::Dispatch(DispatchError::InvalidIndex(idx))),
                    Some(vehicle) => {
                        let current = command.first_call();
                        self.pending = Pending::Call(
                            Flight { idx, vehicle, command, current, rest: command.second_call() },
                        );
                        Step::Perform(Effect::Remote(vehicle, current))
                    },
                }
            },
        }
    }

    /// Takes the reply to the effect that was asked for last and returns the
    /// next step.
    pub fn resume(&mut self, reply: Reply) -> (step: Step)
        ensures
            final(self)@ == resumed(old(self)@, reply@).0,
            step@ == resumed(old(self)@, reply@).1,
    {
        let mut pending = Pending::Idle;
        core::mem::swap(&mut self.pending, &mut pending);
        match pending {
            Pending::Idle => self.finish(String::new()),
            Pending::AppDir => match reply {
                Reply::Done => {
                    self.pending = Pending::RefreshToken;
                    Step::Perform(Effect::ReadToken(TokenFile::Refresh))
                },
                other => self.end_login(Err(AuthError::AppDir(other.into_cause()))),
            },
            Pending::RefreshToken => match reply {
                Reply::Token(Some(contents)) => {
                    self.pending = Pending::Exchange;
                    Step::Perform(Effect::ExchangeRefreshToken(trim(contents.as_str())))
                },
                Reply::Token(None) => {
                    self.pending = Pending::AccessToken;
                    Step::Perform(Effect::ReadToken(TokenFile::Access))
                },
                other => self.end_login(
                    Err(AuthError::Unreadable(TokenFile::Refresh, other.into_cause())),
                ),
            },
            Pending::Exchange => match reply {
                Reply::Credentials(credentials) => {
                    let token = credentials.access_token.clone();
                    self.pending = Pending::AccessWrite(credentials);
                    Step::Perform(Effect::WriteToken(TokenFile::Access, token))
                },
                other => self.end_login(Err(AuthError::RefreshFailed(other.into_cause()))),
            },
            Pending::AccessWrite(credentials) => match reply {
                Reply::Done => {
                    let token = match &credentials.refresh_token {
                        Some(token) => Some(token.clone()),
                        None => None,
                    };
                    match token {
                        Some(token) => {
                            self.pending = Pending::RefreshWrite(credentials);
                            Step::Perform(Effect::WriteToken(TokenFile::Refresh, token))
                        },
                        None => self.end_login(Ok(credentials)),
                    }
                },
                other => self.end_login(
                    Err(AuthError::Unwritable(TokenFile::Access, other.into_cause())),
                ),
            },
            Pending::RefreshWrite(credentials) => match reply {
                Reply::Done => self.end_login(Ok(credentials)),
                other => self.end_login(
                    Err(AuthError::Unwritable(TokenFile::Refresh, other.into_cause())),
                ),
            },
            Pending::AccessToken => match reply {
                Reply::Token(Some(contents)) => self.end_login(
                    Ok(Credentials { access_token: trim(contents.as_str()), refresh_token: None }),
                ),
                Reply::Token(None) => self.end_login(Err(AuthError::NoCredentials)),
                other => self.end_login(
                    Err(AuthError::Unreadable(TokenFile::Access, other.into_cause())),
                ),
            },
            Pending::Products => match reply {
                Reply::Products(products) => {
                    let text = self.session.install_roster(products);
                    self.finish(text)
                },
                other => self.fail(Failure::Roster(RosterError::FetchFailed(other.into_cause()))),
            },
            Pending::Call(flight) => self.answer_call(flight, reply),
            Pending::Encoding => match reply {
                Reply::Text(text) => self.finish(text),
                other => self.fail(Failure::Dispatch(DispatchError::Encoding(other.into_cause()))),
            },
        }
    }
}

} // verus!
