//! What holds of every request, proved from the controller's steps.

use crate::command::{Command, RemoteCall};
use crate::controller::{begun, resumed, ControllerView, PendingView, Request};
use crate::credentials::{CredentialsView, TokenFile};
use crate::effect::{EffectView, OutcomeView, ReplyView, StepView};
use crate::error::{AuthErrorView, DispatchErrorView, FailureView, RosterErrorView};
use crate::session::{roster_text, vehicle_at, vehicles_of, ProductView, RosterEntryView, SessionView};
use crate::telemetry::{reduced, RawVehicleStateView};
use crate::text::trimmed;
use vstd::prelude::*;

verus! {

/// The contents of the two token files; `None` where a file does not exist.
#[verifier::ext_equal]
pub struct TokenFiles {
    pub access: Option<Seq<char>>,
    pub refresh: Option<Seq<char>>,
}

/// How a driver answers `effect` whose directory and files never fail and
/// whose service answers an exchange with `exchange`. Effects that no login
/// asks for are answered as failed.
pub open spec fn answer(
    files: TokenFiles,
    exchange: Result<CredentialsView, Seq<char>>,
    effect: EffectView,
) -> ReplyView {
    match effect {
        EffectView::EnsureAppDir => ReplyView::Done,
        EffectView::ReadToken(file) => ReplyView::Token(
            match file {
                TokenFile::Access => files.access,
                TokenFile::Refresh => files.refresh,
            },
        ),
        EffectView::WriteToken(_, _) => ReplyView::Done,
        EffectView::ExchangeRefreshToken(_) => match exchange {
            Ok(credentials) => ReplyView::Credentials(credentials),
            Err(cause) => ReplyView::Failed(cause),
        },
        _ => ReplyView::Failed(Seq::<char>::empty()),
    }
}

/// The token files after that driver has carried out `effect`.
pub open spec fn stored(files: TokenFiles, effect: EffectView) -> TokenFiles {
    match effect {
        EffectView::WriteToken(TokenFile::Access, token) => TokenFiles {
            access: Some(token),
            ..files
        },
        EffectView::WriteToken(TokenFile::Refresh, token) => TokenFiles {
            refresh: Some(token),
            ..files
        },
        _ => files,
    }
}

/// A request that was driven to its end: the effects that were asked for, in
/// order, how it ended, and what it left behind.
#[verifier::ext_equal]
pub struct Run {
    pub effects: Seq<EffectView>,
    /// `None` where the request has not ended within the effects allowed.
    pub outcome: Option<OutcomeView>,
    pub controller: ControllerView,
    pub files: TokenFiles,
}

/// Drives the request whose latest step is `step`, through `budget` effects
/// at most, with the driver of [`answer`] and [`stored`].
pub open spec fn driven(
    c: ControllerView,
    step: StepView,
    files: TokenFiles,
    exchange: Result<CredentialsView, Seq<char>>,
    budget: nat,
) -> Run
    decreases budget,
{
    match step {
        StepView::Finished(outcome) => Run {
            effects: Seq::<EffectView>::empty(),
            outcome: Some(outcome),
            controller: c,
            files,
        },
        StepView::Perform(effect) => if budget == 0 {
            Run { effects: Seq::<EffectView>::empty(), outcome: None, controller: c, files }
        } else {
            let next = resumed(c, answer(files, exchange, effect));
            let rest = driven(
                next.0,
                next.1,
                stored(files, effect),
                exchange,
                (budget - 1) as nat,
            );
            Run { effects: seq![effect] + rest.effects, ..rest }
        },
    }
}

/// A login from the controller `c`, driven to its end.
pub open spec fn login_run(
    c: ControllerView,
    files: TokenFiles,
    exchange: Result<CredentialsView, Seq<char>>,
) -> Run {
    let first = begun(c, Request::Login);
    driven(first.0, first.1, files, exchange, 5)
}

/// Where the refresh-token file exists, a login takes the refresh path,
/// whether or not the access-token file exists too: after the directory it
/// reads the refresh token and exchanges its trimmed contents, and it never
/// reads the access-token file.
pub proof fn law_refresh_token_comes_first(
    c: ControllerView,
    files: TokenFiles,
    exchange: Result<CredentialsView, Seq<char>>,
)
    requires
        files.refresh is Some,
    ensures
        login_run(c, files, exchange).outcome is Some,
        login_run(c, files, exchange).effects.len() >= 3,
        login_run(c, files, exchange).effects[0] == EffectView::EnsureAppDir,
        login_run(c, files, exchange).effects[1] == EffectView::ReadToken(TokenFile::Refresh),
        login_run(c, files, exchange).effects[2] == EffectView::ExchangeRefreshToken(
            trimmed(files.refresh->0),
        ),
        forall|i: int|
            0 <= i < login_run(c, files, exchange).effects.len() ==> #[trigger] login_run(
                c,
                files,
                exchange,
            ).effects[i] != EffectView::ReadToken(TokenFile::Access),
        exchange is Err ==> login_run(c, files, exchange).outcome->0.failure == Some(
            FailureView::Auth(AuthErrorView::RefreshFailed(exchange->Err_0)),
        ) && login_run(c, files, exchange).controller.session.credentials is None,
{
    reveal_with_fuel(driven, 6);
}

/// Without a refresh-token file, a login reads the access-token file and
/// takes its trimmed contents as the access token, with no call to the
/// service and no write. Without either file it fails for want of
/// credentials, and the session is left without any.
pub proof fn law_access_token_comes_second(
    c: ControllerView,
    files: TokenFiles,
    exchange: Result<CredentialsView, Seq<char>>,
)
    requires
        files.refresh is None,
    ensures
        login_run(c, files, exchange).effects == seq![
            EffectView::EnsureAppDir,
            EffectView::ReadToken(TokenFile::Refresh),
            EffectView::ReadToken(TokenFile::Access),
        ],
        login_run(c, files, exchange).files == files,
        login_run(c, files, exchange).outcome is Some,
        login_run(c, files, exchange).controller.session.roster.len() == 0,
        match files.access {
            Some(contents) => {
                &&& login_run(c, files, exchange).outcome->0.failure is None
                &&& login_run(c, files, exchange).controller.session.credentials == Some(
                    CredentialsView { access_token: trimmed(contents), refresh_token: None },
                )
                &&& login_run(c, files, exchange).controller.log == c.log
            },
            None => {
                &&& login_run(c, files, exchange).outcome->0.failure == Some(
                    FailureView::Auth(AuthErrorView::NoCredentials),
                )
                &&& login_run(c, files, exchange).controller.session.credentials is None
                &&& login_run(c, files, exchange).controller.log == seq![
                    AuthErrorView::NoCredentials.line(),
                ] + c.log
            },
        },
{
    reveal_with_fuel(driven, 6);
    let run = login_run(c, files, exchange);
    assert(run.effects =~= seq![
        EffectView::EnsureAppDir,
        EffectView::ReadToken(TokenFile::Refresh),
        EffectView::ReadToken(TokenFile::Access),
    ]);
}

/// After a refresh token was exchanged, the token files hold what the
/// exchange gave: the access-token file the new access token, the
/// refresh-token file the new refresh token, or what it held before where
/// the service gave none. Each file is written once at most, the session
/// holds the new credentials, and nothing is added to the log.
pub proof fn law_exchange_is_persisted(
    c: ControllerView,
    files: TokenFiles,
    credentials: CredentialsView,
)
    requires
        files.refresh is Some,
    ensures
        login_run(c, files, Ok(credentials)).effects == seq![
            EffectView::EnsureAppDir,
            EffectView::ReadToken(TokenFile::Refresh),
            EffectView::ExchangeRefreshToken(trimmed(files.refresh->0)),
            EffectView::WriteToken(TokenFile::Access, credentials.access_token),
        ] + match credentials.refresh_token {
            Some(token) => seq![EffectView::WriteToken(TokenFile::Refresh, token)],
            None => Seq::<EffectView>::empty(),
        },
        login_run(c, files, Ok(credentials)).files.access == Some(credentials.access_token),
        login_run(c, files, Ok(credentials)).files.refresh == match credentials.refresh_token {
            Some(token) => Some(token),
            None => files.refresh,
        },
        login_run(c, files, Ok(credentials)).outcome == Some(
            OutcomeView { text: Seq::<char>::empty(), failure: None },
        ),
        login_run(c, files, Ok(credentials)).controller == (ControllerView {
            session: SessionView {
                credentials: Some(credentials),
                roster: Seq::<RosterEntryView>::empty(),
            },
            log: c.log,
            pending: PendingView::Idle,
        }),
{
    reveal_with_fuel(driven, 6);
    let run = login_run(c, files, Ok(credentials));
    let head = seq![
        EffectView::EnsureAppDir,
        EffectView::ReadToken(TokenFile::Refresh),
        EffectView::ExchangeRefreshToken(trimmed(files.refresh->0)),
        EffectView::WriteToken(TokenFile::Access, credentials.access_token),
    ];
    match credentials.refresh_token {
        Some(token) => {
            assert(run.effects =~= head + seq![EffectView::WriteToken(TokenFile::Refresh, token)]);
        },
        None => {
            assert(run.effects =~= head + Seq::<EffectView>::empty());
        },
    }
}

/// Charging is started whatever became of setting the limit, and whatever
/// the limit is: the call that sets the limit goes out first, and after any
/// reply to it the call that starts charging goes out. A reply other than
/// `Done` adds one line on the failed call to the log; `Done` adds none.
pub proof fn law_charging_starts_after_any_limit_reply(
    c: ControllerView,
    idx: i64,
    limit: u8,
    reply: ReplyView,
)
    requires
        c.session.credentials is Some,
        vehicle_at(c.session.roster, idx) is Some,
    ensures
        ({
            let vehicle = vehicle_at(c.session.roster, idx)->0;
            let set_limit = RemoteCall::SetChargeLimit { percent: limit };
            let first = begun(c, Request::Vehicle { idx, command: Command::SetCharging { start: true, limit } });
            let second = resumed(first.0, reply);
            &&& first.1 == StepView::Perform(EffectView::Remote(vehicle, set_limit))
            &&& first.0.log == c.log
            &&& second.1 == StepView::Perform(EffectView::Remote(vehicle, RemoteCall::ChargeStart))
            &&& second.0.session == c.session
            &&& second.0.log == if reply is Done {
                c.log
            } else {
                seq![set_limit.failure_line(idx, reply.cause())] + c.log
            }
        }),
{
}

/// A command for an index that is none of the roster ends at once, whatever
/// the command: no effect is asked for, the shell gets the empty text, the
/// log gets exactly one new line, nothing is pending, and the session is as
/// it was.
pub proof fn law_invalid_index_is_contained(c: ControllerView, idx: i64, command: Command)
    requires
        !(0 <= idx < c.session.roster.len()),
    ensures
        ({
            let end = begun(c, Request::Vehicle { idx, command });
            let failure = if c.session.credentials is Some {
                FailureView::Dispatch(DispatchErrorView::InvalidIndex(idx))
            } else {
                FailureView::Dispatch(DispatchErrorView::NotAuthenticated)
            };
            &&& end.1 == StepView::Finished(
                OutcomeView { text: Seq::<char>::empty(), failure: Some(failure) },
            )
            &&& end.0.log == seq![failure.line()] + c.log
            &&& end.0.log.len() == c.log.len() + 1
            &&& end.0.pending is Idle
            &&& end.0.session == c.session
        }),
{
}

/// No failure gets past the controller. A request that ends in a failure,
/// at its beginning or after any reply, hands the shell the empty text,
/// leaves nothing pending, and has put the failure's line in front of the
/// log.
pub proof fn law_failures_are_contained(c: ControllerView, request: Request, reply: ReplyView)
    ensures
        begun(c, request).1 matches StepView::Finished(outcome) ==> (outcome.failure matches Some(
            failure,
        ) ==> {
            &&& outcome.text.len() == 0
            &&& begun(c, request).0.pending is Idle
            &&& begun(c, request).0.log == seq![failure.line()] + c.log
        }),
        resumed(c, reply).1 matches StepView::Finished(outcome) ==> (outcome.failure matches Some(
            failure,
        ) ==> {
            &&& outcome.text.len() == 0
            &&& resumed(c, reply).0.pending is Idle
            &&& resumed(c, reply).0.log == seq![failure.line()] + c.log
        }),
{
}

/// Without credentials no roster is fetched: the request ends at once as not
/// authenticated, with the empty text for the shell and one new line in the
/// log.
pub proof fn law_roster_needs_credentials(c: ControllerView)
    requires
        c.session.credentials is None,
    ensures
        begun(c, Request::ResolveRoster).1 == StepView::Finished(
            OutcomeView {
                text: Seq::<char>::empty(),
                failure: Some(FailureView::Roster(RosterErrorView::NotAuthenticated)),
            },
        ),
        begun(c, Request::ResolveRoster).0.log == seq![RosterErrorView::NotAuthenticated.line()] + c.log,
{
}

/// With credentials, a roster request lists the products once. The vehicles
/// among them, in the order of the listing, become the roster, their names
/// the text for the shell; the credentials stay and the log is not touched.
pub proof fn law_roster_follows_the_listing(c: ControllerView, products: Seq<ProductView>)
    requires
        c.session.credentials is Some,
    ensures
        ({
            let first = begun(c, Request::ResolveRoster);
            let end = resumed(first.0, ReplyView::Products(products));
            &&& first.1 == StepView::Perform(EffectView::ListProducts)
            &&& end.1 == StepView::Finished(
                OutcomeView { text: roster_text(vehicles_of(products)), failure: None },
            )
            &&& end.0 == (ControllerView {
                session: SessionView {
                    credentials: c.session.credentials,
                    roster: vehicles_of(products),
                },
                log: c.log,
                pending: PendingView::Idle,
            })
        }),
{
}

/// A command whose calls all succeed makes its first call, then its second
/// where it has one, each once and for the vehicle at the index, and ends
/// with its line in the log. A snapshot records no line: what was fetched is
/// reduced and sent to be encoded, and the encoded text goes to the shell.
pub proof fn law_command_makes_each_call_once(
    c: ControllerView,
    idx: i64,
    command: Command,
    raw: RawVehicleStateView,
    encoded: Seq<char>,
)
    requires
        c.session.credentials is Some,
        vehicle_at(c.session.roster, idx) is Some,
    ensures
        ({
            let vehicle = vehicle_at(c.session.roster, idx)->0;
            let first = begun(c, Request::Vehicle { idx, command });
            let second = resumed(first.0, ReplyView::Done);
            let ended = ControllerView {
                log: match command.success_line() {
                    Some(line) => seq![line] + c.log,
                    None => c.log,
                },
                pending: PendingView::Idle,
                ..c
            };
            let done = StepView::Finished(OutcomeView { text: Seq::<char>::empty(), failure: None });
            let third = resumed(second.0, ReplyView::Done);
            let fetched = resumed(second.0, ReplyView::VehicleData(raw));
            let shown = resumed(fetched.0, ReplyView::Text(encoded));
            &&& first.1 == StepView::Perform(EffectView::Remote(vehicle, command.first()))
            &&& command.second() is None ==> second.0 == ended && second.1 == done
            &&& command.second() is Some ==> second.1 == StepView::Perform(
                EffectView::Remote(vehicle, command.second()->0),
            )
            &&& command.second() is Some && !(command is FetchVehicleSnapshot) ==> third.0 == ended
                && third.1 == done
            &&& command is FetchVehicleSnapshot ==> {
                &&& fetched.1 == StepView::Perform(EffectView::EncodeSnapshot(reduced(raw)))
                &&& shown.1 == StepView::Finished(OutcomeView { text: encoded, failure: None })
                &&& shown.0 == ended
            }
        }),
{
}

/// A call that is not tolerated and fails ends the command at once: no
/// further effect is asked for, and the failure names the call, the index
/// and the cause.
pub proof fn law_failed_call_ends_the_command(
    c: ControllerView,
    idx: i64,
    command: Command,
    first_reply: ReplyView,
    second_reply: ReplyView,
)
    requires
        c.session.credentials is Some,
        vehicle_at(c.session.roster, idx) is Some,
    ensures
        ({
            let first = begun(c, Request::Vehicle { idx, command });
            let second = resumed(first.0, first_reply);
            let third = resumed(second.0, second_reply);
            &&& !(first_reply is Done) && !command.first().tolerated() ==> second.1
                == StepView::Finished(
                OutcomeView {
                    text: Seq::<char>::empty(),
                    failure: Some(
                        FailureView::Dispatch(
                            DispatchErrorView::RemoteFailed {
                                call: command.first(),
                                idx,
                                cause: first_reply.cause(),
                            },
                        ),
                    ),
                },
            )
            &&& second.1 is Perform && !(command is FetchVehicleSnapshot) && !(second_reply is Done)
                ==> third.1 == StepView::Finished(
                OutcomeView {
                    text: Seq::<char>::empty(),
                    failure: Some(
                        FailureView::Dispatch(
                            DispatchErrorView::RemoteFailed {
                                call: command.second()->0,
                                idx,
                                cause: second_reply.cause(),
                            },
                        ),
                    ),
                },
            )
        }),
{
}

/// Only the end of a login and the arrival of a roster change the session.
/// A command leaves it as it was, from its beginning through every reply.
pub proof fn law_commands_leave_the_session_alone(
    c: ControllerView,
    idx: i64,
    command: Command,
    reply: ReplyView,
)
    ensures
        begun(c, Request::Vehicle { idx, command }).0.session == c.session,
        c.pending is Call || c.pending is Encoding || c.pending is Idle ==> resumed(
            c,
            reply,
        ).0.session == c.session,
{
}

/// The event log decides nothing. Two controllers that differ in their logs
/// alone take the same step on the same request and on the same reply, and
/// differ in their logs alone afterwards.
pub proof fn law_log_decides_nothing(
    c: ControllerView,
    other_log: Seq<Seq<char>>,
    request: Request,
    reply: ReplyView,
)
    ensures
        ({
            let d = ControllerView { log: other_log, ..c };
            &&& begun(d, request).1 == begun(c, request).1
            &&& begun(d, request).0.session == begun(c, request).0.session
            &&& begun(d, request).0.pending == begun(c, request).0.pending
            &&& resumed(d, reply).1 == resumed(c, reply).1
            &&& resumed(d, reply).0.session == resumed(c, reply).0.session
            &&& resumed(d, reply).0.pending == resumed(c, reply).0.pending
        }),
{
}

} // verus!
