//! Opening a session, step by step. The caller performs each action on the
//! transport and reports what came of it; what to do next is decided here.

use crate::client::{
    auth_verdict, AuthMethod, AuthView, Client, ClientBuilder, ClientView, Stage,
};
use crate::error::{key_rejected, password_rejected, ClientError, ErrorView};
use std::time::Duration;
use vstd::prelude::*;

verus! {

/// How the race between the transport and the deadline ended.
pub enum Dialed<T> {
    /// The transport stood before the deadline.
    Established,
    /// The transport failed before the deadline.
    Failed(T),
    /// The deadline came first.
    TimedOut,
}

/// What the caller reports back after performing an action.
pub enum ConnectEvent<T, K> {
    /// The outcome of `Dial`.
    Dialed(Dialed<T>),
    /// The engine's reply to `SendPassword`.
    PasswordReply(Result<bool, T>),
    /// The outcome of `ReadKeyFile`: the file's contents.
    KeyFileRead(Result<String, std::io::Error>),
    /// The outcome of `DecodeKey`; the caller keeps the decoded key.
    KeyDecoded(Result<(), K>),
    /// The engine's reply to `PresentKey`.
    KeyReply(Result<bool, T>),
}

/// The mathematical value of a [`ConnectEvent`].
pub enum ConnectEventView<T, K> {
    Dialed(Dialed<T>),
    PasswordReply(Result<bool, T>),
    KeyFileRead(Result<Seq<char>, std::io::Error>),
    KeyDecoded(Result<(), K>),
    KeyReply(Result<bool, T>),
}

impl<T, K> View for ConnectEvent<T, K> {
    type V = ConnectEventView<T, K>;

    open spec fn view(&self) -> ConnectEventView<T, K> {
        match self {
            ConnectEvent::Dialed(outcome) => ConnectEventView::Dialed(*outcome),
            ConnectEvent::PasswordReply(reply) => ConnectEventView::PasswordReply(*reply),
            ConnectEvent::KeyFileRead(read) => ConnectEventView::KeyFileRead(
                match read {
                    Ok(secret) => Ok(secret@),
                    Err(e) => Err(*e),
                },
            ),
            ConnectEvent::KeyDecoded(decoded) => ConnectEventView::KeyDecoded(*decoded),
            ConnectEvent::KeyReply(reply) => ConnectEventView::KeyReply(*reply),
        }
    }
}

/// What the caller is asked to do next.
pub enum ConnectAction {
    /// Open the transport, giving up after `timeout`.
    Dial { timeout: Duration },
    /// Present a password to the peer.
    SendPassword { username: String, password: String },
    /// Read the private-key file at `path`.
    ReadKeyFile { path: String },
    /// Decode the private key held in `secret`, without a passphrase.
    DecodeKey { secret: String },
    /// Present the decoded key to the peer.
    PresentKey { username: String },
}

/// The mathematical value of a [`ConnectAction`].
pub enum ConnectActionView {
    Dial { timeout: Duration },
    SendPassword { username: Seq<char>, password: Seq<char> },
    ReadKeyFile { path: Seq<char> },
    DecodeKey { secret: Seq<char> },
    PresentKey { username: Seq<char> },
}

impl View for ConnectAction {
    type V = ConnectActionView;

    open spec fn view(&self) -> ConnectActionView {
        match self {
            ConnectAction::Dial { timeout } => ConnectActionView::Dial { timeout: *timeout },
            ConnectAction::SendPassword { username, password } => ConnectActionView::SendPassword {
                username: username@,
                password: password@,
            },
            ConnectAction::ReadKeyFile { path } => ConnectActionView::ReadKeyFile { path: path@ },
            ConnectAction::DecodeKey { secret } => ConnectActionView::DecodeKey { secret: secret@ },
            ConnectAction::PresentKey { username } => ConnectActionView::PresentKey {
                username: username@,
            },
        }
    }
}

/// Which report an attempt is waiting for.
#[derive(Clone, Copy, Debug, PartialEq, Eq, Structural)]
pub enum ConnectPhase {
    Dialing,
    AwaitingPassword,
    ReadingKey,
    DecodingKey,
    AwaitingKey,
}

/// A connection attempt under way.
pub struct Connecting {
    username: String,
    auth: Option<AuthMethod>,
    phase: ConnectPhase,
}

/// The mathematical value of a [`Connecting`].
pub struct ConnectingView {
    pub username: Seq<char>,
    pub auth: Option<AuthView>,
    pub phase: ConnectPhase,
}

impl View for Connecting {
    type V = ConnectingView;

    closed spec fn view(&self) -> ConnectingView {
        ConnectingView {
            username: self.username@,
            auth: match self.auth {
                Some(auth) => Some(auth@),
                None => None,
            },
            phase: self.phase,
        }
    }
}

/// Where an attempt stands after a report.
pub enum ConnectStep<T, K> {
    /// The attempt goes on: perform the action and report back.
    Next(Connecting, ConnectAction),
    /// The attempt is over, with a session or with the reason for none.
    Done(Result<Client, ClientError<T, K>>),
}

/// The mathematical value of a [`ConnectStep`].
pub enum ConnectStepView<T, K> {
    Next(ConnectingView, ConnectActionView),
    Done(Result<ClientView, ErrorView<T, K>>),
}

impl<T, K> View for ConnectStep<T, K> {
    type V = ConnectStepView<T, K>;

    open spec fn view(&self) -> ConnectStepView<T, K> {
        match self {
            ConnectStep::Next(attempt, action) => ConnectStepView::Next(attempt@, action@),
            ConnectStep::Done(Ok(client)) => ConnectStepView::Done(Ok(client@)),
            ConnectStep::Done(Err(e)) => ConnectStepView::Done(Err(e@)),
        }
    }
}

/// Whether `event` is the report that an attempt in `phase` waits for.
pub open spec fn awaited<T, K>(phase: ConnectPhase, event: ConnectEventView<T, K>) -> bool {
    match phase {
        ConnectPhase::Dialing => event is Dialed,
        ConnectPhase::AwaitingPassword => event is PasswordReply,
        ConnectPhase::ReadingKey => event is KeyFileRead,
        ConnectPhase::DecodingKey => event is KeyDecoded,
        ConnectPhase::AwaitingKey => event is KeyReply,
    }
}

/// The session that an attempt ends in when nothing has failed.
pub open spec fn session_of(attempt: ConnectingView, stage: Stage) -> ClientView {
    ClientView { username: attempt.username, stage }
}

/// An attempt that has handed its credential out and waits in `phase`.
pub open spec fn waiting(username: Seq<char>, phase: ConnectPhase) -> ConnectingView {
    ConnectingView { username, auth: None, phase }
}

/// What follows once the transport stands: with no credential the session
/// is handed out as it is; with one, its first step is asked for, and the
/// credential leaves the attempt with that request.
pub open spec fn after_established<T, K>(attempt: ConnectingView) -> ConnectStepView<T, K> {
    match attempt.auth {
        None => ConnectStepView::Done(Ok(session_of(attempt, Stage::Connected))),
        Some(AuthView::Password(password)) => ConnectStepView::Next(
            waiting(attempt.username, ConnectPhase::AwaitingPassword),
            ConnectActionView::SendPassword { username: attempt.username, password },
        ),
        Some(AuthView::Key(path)) => ConnectStepView::Next(
            waiting(attempt.username, ConnectPhase::ReadingKey),
            ConnectActionView::ReadKeyFile { path },
        ),
    }
}

/// What an attempt ends in once the peer has answered a credential.
pub open spec fn after_reply<T, K>(
    attempt: ConnectingView,
    reply: Result<bool, T>,
    rejected: Seq<char>,
) -> ConnectStepView<T, K> {
    match auth_verdict::<T, K>(reply, rejected) {
        Ok(()) => ConnectStepView::Done(Ok(session_of(attempt, Stage::Authenticated))),
        Err(e) => ConnectStepView::Done(Err(e)),
    }
}

/// Where an attempt stands after the report it waited for.
pub open spec fn connect_step<T, K>(
    attempt: ConnectingView,
    event: ConnectEventView<T, K>,
) -> ConnectStepView<T, K>
    recommends
        awaited(attempt.phase, event),
{
    match event {
        ConnectEventView::Dialed(Dialed::Established) => after_established(attempt),
        ConnectEventView::Dialed(Dialed::Failed(e)) => ConnectStepView::Done(
            Err(ErrorView::ClientFailed(e)),
        ),
        ConnectEventView::Dialed(Dialed::TimedOut) => ConnectStepView::Done(
            Err(ErrorView::Timeout),
        ),
        ConnectEventView::PasswordReply(reply) => after_reply(attempt, reply, password_rejected()),
        ConnectEventView::KeyFileRead(Ok(secret)) => ConnectStepView::Next(
            waiting(attempt.username, ConnectPhase::DecodingKey),
            ConnectActionView::DecodeKey { secret },
        ),
        ConnectEventView::KeyFileRead(Err(e)) => ConnectStepView::Done(Err(ErrorView::IOError(e))),
        ConnectEventView::KeyDecoded(Ok(())) => ConnectStepView::Next(
            waiting(attempt.username, ConnectPhase::AwaitingKey),
            ConnectActionView::PresentKey { username: attempt.username },
        ),
        ConnectEventView::KeyDecoded(Err(e)) => ConnectStepView::Done(Err(ErrorView::KeyError(e))),
        ConnectEventView::KeyReply(reply) => after_reply(attempt, reply, key_rejected()),
    }
}

impl ClientBuilder {
    /// Begins a connection attempt with what has been configured. The
    /// configuration is used up: its user name and credential pass to the
    /// attempt, which begins by dialing under the configured time limit.
    pub fn connect(self) -> (begun: (Connecting, ConnectAction))
        ensures
            begun.0@ == (ConnectingView {
                username: self@.username,
                auth: self@.auth,
                phase: ConnectPhase::Dialing,
            }),
            begun.1@ == (ConnectActionView::Dial { timeout: self@.connect_timeout }),
    {
        let (username, auth, timeout) = self.into_parts();
        (
            Connecting { username, auth, phase: ConnectPhase::Dialing },
            ConnectAction::Dial { timeout },
        )
    }
}

impl Connecting {
    /// Which report the attempt is waiting for.
    pub fn phase(&self) -> (phase: ConnectPhase)
        ensures
            phase == self@.phase,
    {
        self.phase
    }

    /// Whether `event` is the report the attempt is waiting for.
    pub fn expects<T, K>(&self, event: &ConnectEvent<T, K>) -> (yes: bool)
        ensures
            yes == awaited(self@.phase, event@),
    {
        match (self.phase, event) {
            (ConnectPhase::Dialing, ConnectEvent::Dialed(_)) => true,
            (ConnectPhase::AwaitingPassword, ConnectEvent::PasswordReply(_)) => true,
            (ConnectPhase::ReadingKey, ConnectEvent::KeyFileRead(_)) => true,
            (ConnectPhase::DecodingKey, ConnectEvent::KeyDecoded(_)) => true,
            (ConnectPhase::AwaitingKey, ConnectEvent::KeyReply(_)) => true,
            _ => false,
        }
    }

    /// Takes the report of the last action and says what comes next.
    pub fn step<T, K>(self, event: ConnectEvent<T, K>) -> (next: ConnectStep<T, K>)
        requires
            awaited(self@.phase, event@),
        ensures
            next@ == connect_step(self@, event@),
    {
        match event {
            ConnectEvent::Dialed(Dialed::Established) => match self.auth {
                None => ConnectStep::Done(Ok(Client::connected(self.username))),
                Some(AuthMethod::Password(password)) => {
                    let username = self.username.clone();
                    ConnectStep::Next(
                        Connecting {
                            username: self.username,
                            auth: None,
                            phase: ConnectPhase::AwaitingPassword,
                        },
                        ConnectAction::SendPassword { username, password },
                    )
                },
                Some(AuthMethod::Key(path)) => ConnectStep::Next(
                    Connecting {
                        username: self.username,
                        auth: None,
                        phase: ConnectPhase::ReadingKey,
                    },
                    ConnectAction::ReadKeyFile { path },
                ),
            },
            ConnectEvent::Dialed(Dialed::Failed(e)) => ConnectStep::Done(
                Err(ClientError::ClientFailed(e)),
            ),
            ConnectEvent::Dialed(Dialed::TimedOut) => ConnectStep::Done(Err(ClientError::Timeout)),
            ConnectEvent::PasswordReply(reply) => {
                let mut session = Client::connected(self.username);
                match session.auth_with_password(reply) {
                    Ok(()) => ConnectStep::Done(Ok(session)),
                    Err(e) => ConnectStep::Done(Err(e)),
                }
            },
            ConnectEvent::KeyFileRead(Ok(secret)) => ConnectStep::Next(
                Connecting {
                    username: self.username,
                    auth: None,
                    phase: ConnectPhase::DecodingKey,
                },
                ConnectAction::DecodeKey { secret },
            ),
            ConnectEvent::KeyFileRead(Err(e)) => ConnectStep::Done(Err(ClientError::IOError(e))),
            ConnectEvent::KeyDecoded(Ok(())) => {
                let username = self.username.clone();
                ConnectStep::Next(
                    Connecting {
                        username: self.username,
                        auth: None,
                        phase: ConnectPhase::AwaitingKey,
                    },
                    ConnectAction::PresentKey { username },
                )
            },
            ConnectEvent::KeyDecoded(Err(e)) => ConnectStep::Done(Err(ClientError::KeyError(e))),
            ConnectEvent::KeyReply(reply) => {
                let mut session = Client::connected(self.username);
                match session.auth_with_key_pair(reply) {
                    Ok(()) => ConnectStep::Done(Ok(session)),
                    Err(e) => ConnectStep::Done(Err(e)),
                }
            },
        }
    }
}

/// How many reports an attempt waiting in `phase` can still take before it
/// is over.
pub open spec fn reports_left(phase: ConnectPhase) -> nat {
    match phase {
        ConnectPhase::Dialing => 4,
        ConnectPhase::ReadingKey => 3,
        ConnectPhase::DecodingKey => 2,
        ConnectPhase::AwaitingKey => 1,
        ConnectPhase::AwaitingPassword => 1,
    }
}

/// Every report brings an attempt nearer to its end: one that goes on has
/// fewer reports left than before, so no attempt takes more than four.
pub proof fn lemma_attempt_advances<T, K>(attempt: ConnectingView, event: ConnectEventView<T, K>)
    requires
        awaited(attempt.phase, event),
    ensures
        connect_step(attempt, event) matches ConnectStepView::Next(next, _) ==> reports_left(
            next.phase,
        ) < reports_left(attempt.phase),
{
}

/// The credential leaves the attempt with the first request made of it:
/// an attempt that goes on after a report holds none, and the session an
/// attempt ends in holds the user name and its stage, nothing else.
pub proof fn lemma_credential_is_not_kept<T, K>(
    attempt: ConnectingView,
    event: ConnectEventView<T, K>,
)
    ensures
        connect_step(attempt, event) matches ConnectStepView::Next(next, _) ==> next.auth is None
            && next.username == attempt.username,
        connect_step(attempt, event) matches ConnectStepView::Done(Ok(session)) ==> session
            == session_of(attempt, session.stage),
{
}

/// A deadline that comes first ends the attempt with `Timeout`, and a
/// transport that fails first ends it with the engine's failure; neither
/// leaves a session.
pub proof fn lemma_dial_failure_ends_attempt<T, K>(attempt: ConnectingView, failure: T)
    ensures
        connect_step::<T, K>(attempt, ConnectEventView::Dialed(Dialed::TimedOut))
            == ConnectStepView::<T, K>::Done(Err(ErrorView::Timeout)),
        connect_step::<T, K>(attempt, ConnectEventView::Dialed(Dialed::Failed(failure)))
            == ConnectStepView::<T, K>::Done(Err(ErrorView::ClientFailed(failure))),
{
}

/// A credential that the peer turns down ends the attempt with
/// `AuthFailed` and the reason for its kind: never with an engine failure,
/// and never with a session.
pub proof fn lemma_rejected_credential_fails<T, K>(attempt: ConnectingView)
    ensures
        connect_step::<T, K>(attempt, ConnectEventView::PasswordReply(Ok(false)))
            == ConnectStepView::<T, K>::Done(Err(ErrorView::AuthFailed(password_rejected()))),
        connect_step::<T, K>(attempt, ConnectEventView::KeyReply(Ok(false)))
            == ConnectStepView::<T, K>::Done(Err(ErrorView::AuthFailed(key_rejected()))),
{
}

/// A key file that cannot be read ends the attempt with `IOError`, and
/// one that cannot be decoded ends it with `KeyError`. An attempt that is
/// over asks for nothing more, so no key is presented after either.
pub proof fn lemma_unusable_key_ends_attempt<T, K>(
    attempt: ConnectingView,
    unreadable: std::io::Error,
    malformed: K,
)
    ensures
        connect_step::<T, K>(attempt, ConnectEventView::KeyFileRead(Err(unreadable)))
            == ConnectStepView::<T, K>::Done(Err(ErrorView::IOError(unreadable))),
        connect_step::<T, K>(attempt, ConnectEventView::KeyDecoded(Err(malformed)))
            == ConnectStepView::<T, K>::Done(Err(ErrorView::KeyError(malformed))),
{
}

/// A key is presented to the peer only on the report that it was decoded,
/// and decoding is asked for only on the report that its file was read.
pub proof fn lemma_key_steps_in_order<T, K>(attempt: ConnectingView, event: ConnectEventView<T, K>)
    requires
        awaited(attempt.phase, event),
    ensures
        connect_step(attempt, event) matches ConnectStepView::Next(_, action) ==> {
            &&& action is PresentKey ==> attempt.phase == ConnectPhase::DecodingKey && event
                is KeyDecoded && event->KeyDecoded_0 is Ok
            &&& action is DecodeKey ==> attempt.phase == ConnectPhase::ReadingKey && event
                == ConnectEventView::<T, K>::KeyFileRead(Ok(action->secret))
            &&& !(action is Dial)
        },
{
}

/// An attempt ends in a session only when the transport stood and no
/// credential was configured, which leaves the session unauthenticated,
/// or when the peer accepted the credential, which authenticates it.
pub proof fn lemma_session_only_on_success<T, K>(
    attempt: ConnectingView,
    event: ConnectEventView<T, K>,
)
    requires
        awaited(attempt.phase, event),
    ensures
        connect_step(attempt, event) matches ConnectStepView::Done(Ok(session)) ==> {
            &&& session.username == attempt.username
            &&& session.stage == Stage::Connected ==> event == ConnectEventView::<T, K>::Dialed(
                Dialed::Established,
            ) && attempt.auth is None
            &&& session.stage == Stage::Authenticated ==> event == ConnectEventView::<
                T,
                K,
            >::PasswordReply(Ok(true)) || event == ConnectEventView::<T, K>::KeyReply(Ok(true))
            &&& session.stage != Stage::Closed
        },
{
}

} // verus!
