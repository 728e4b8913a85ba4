//! The configuration a session is opened from, and the session's life
//! from connection to close.

use crate::error::{key_rejected, password_rejected, ClientError, ErrorView};
use std::time::Duration;
use vstd::prelude::*;

verus! {

/// One way of proving to the peer who is logging in.
pub enum AuthMethod {
    /// A password.
    Password(String),
    /// The path of a file that holds a private key.
    Key(String),
}

/// The mathematical value of an [`AuthMethod`].
pub enum AuthView {
    Password(Seq<char>),
    Key(Seq<char>),
}

impl View for AuthMethod {
    type V = AuthView;

    open spec fn view(&self) -> AuthView {
        match self {
            AuthMethod::Password(password) => AuthView::Password(password@),
            AuthMethod::Key(path) => AuthView::Key(path@),
        }
    }
}

/// The number of whole seconds a connection attempt may take when no other
/// limit is set.
pub const DEFAULT_CONNECT_SECS: u64 = 10;

/// The duration of `secs` whole seconds.
pub uninterp spec fn duration_of_secs(secs: u64) -> Duration;

/// `Duration::from_secs` makes the duration of the given number of whole
/// seconds: a function of that number alone.
pub assume_specification[ Duration::from_secs ](secs: u64) -> (d: Duration)
    ensures
        d == duration_of_secs(secs),
;

/// Accumulates what a connection is made with.
pub struct ClientBuilder {
    username: String,
    auth: Option<AuthMethod>,
    connect_timeout: Duration,
}

/// The mathematical value of a [`ClientBuilder`].
pub struct BuilderView {
    pub username: Seq<char>,
    pub auth: Option<AuthView>,
    pub connect_timeout: Duration,
}

impl View for ClientBuilder {
    type V = BuilderView;

    closed spec fn view(&self) -> BuilderView {
        BuilderView {
            username: self.username@,
            auth: match self.auth {
                Some(auth) => Some(auth@),
                None => None,
            },
            connect_timeout: self.connect_timeout,
        }
    }
}

impl ClientBuilder {
    /// A configuration with an empty user name, no credential and the
    /// default connection limit.
    pub fn new() -> (builder: ClientBuilder)
        ensures
            builder@ == (BuilderView {
                username: Seq::empty(),
                auth: None,
                connect_timeout: duration_of_secs(DEFAULT_CONNECT_SECS),
            }),
    {
        ClientBuilder {
            username: String::new(),
            auth: None,
            connect_timeout: Duration::from_secs(DEFAULT_CONNECT_SECS),
        }
    }

    /// Gives up what has been configured: the user name, the credential
    /// and the connection limit.
    pub(crate) fn into_parts(self) -> (parts: (String, Option<AuthMethod>, Duration))
        ensures
            parts.0@ == self@.username,
            match parts.1 {
                Some(auth) => self@.auth == Some(auth@),
                None => self@.auth is None,
            },
            parts.2 == self@.connect_timeout,
    {
        (self.username, self.auth, self.connect_timeout)
    }

    /// Sets the name to log in under.
    pub fn username(&mut self, username: &str) -> (builder: &mut ClientBuilder)
        ensures
            builder@ == (BuilderView { username: username@, ..old(self)@ }),
            *final(self) == *final(builder),
    {
        self.username = username.to_string();
        self
    }

    /// Sets the credential to present once the connection stands.
    pub fn auth(&mut self, auth: AuthMethod) -> (builder: &mut ClientBuilder)
        ensures
            builder@ == (BuilderView { auth: Some(auth@), ..old(self)@ }),
            *final(self) == *final(builder),
    {
        self.auth = Some(auth);
        self
    }

    /// Sets how long a connection attempt may take.
    pub fn connect_timeout(&mut self, timeout: Duration) -> (builder: &mut ClientBuilder)
        ensures
            builder@ == (BuilderView { connect_timeout: timeout, ..old(self)@ }),
            *final(self) == *final(builder),
    {
        self.connect_timeout = timeout;
        self
    }
}

/// Where a session stands in its life.
#[derive(Clone, Copy, Debug, PartialEq, Eq, Structural)]
pub enum Stage {
    /// The transport stands; the peer has accepted no credential yet.
    Connected,
    /// The peer has accepted a credential.
    Authenticated,
    /// The session was closed. Nothing leads out of this stage.
    Closed,
}

/// A session with a peer: who logs in, and how far the session has come.
/// The transport that carries it is held by whoever drives it.
pub struct Client {
    username: String,
    stage: Stage,
}

/// The mathematical value of a [`Client`].
pub struct ClientView {
    pub username: Seq<char>,
    pub stage: Stage,
}

impl View for Client {
    type V = ClientView;

    closed spec fn view(&self) -> ClientView {
        ClientView { username: self.username@, stage: self.stage }
    }
}

/// Why a session is disconnected.
#[derive(Clone, Copy, Debug, PartialEq, Eq, Structural)]
pub enum Reason {
    /// The application asked for it.
    ByApplication,
}

/// What the peer is told when a session is closed.
pub struct Farewell {
    /// Why the session is disconnected.
    pub reason: Reason,
    /// The description sent along.
    pub description: String,
    /// The language tag of the description.
    pub language_tag: String,
}

/// What an authentication attempt comes to, given the engine's reply:
/// the peer's acceptance authenticates, its refusal fails with `rejected`
/// as the reason, and an engine failure is passed on.
pub open spec fn auth_verdict<T, K>(reply: Result<bool, T>, rejected: Seq<char>) -> Result<
    (),
    ErrorView<T, K>,
> {
    match reply {
        Ok(true) => Ok(()),
        Ok(false) => Err(ErrorView::AuthFailed(rejected)),
        Err(e) => Err(ErrorView::ClientFailed(e)),
    }
}

/// The view of a result that carries nothing on success.
pub open spec fn unit_result_view<T, K>(r: Result<(), ClientError<T, K>>) -> Result<
    (),
    ErrorView<T, K>,
> {
    match r {
        Ok(()) => Ok(()),
        Err(e) => Err(e@),
    }
}

impl Client {
    /// A session over a transport that has just been established.
    pub(crate) fn connected(username: String) -> (client: Client)
        ensures
            client@ == (ClientView { username: username@, stage: Stage::Connected }),
    {
        Client { username, stage: Stage::Connected }
    }

    /// An empty configuration to open a session from.
    pub fn builder() -> (builder: ClientBuilder)
        ensures
            builder@ == (BuilderView {
                username: Seq::empty(),
                auth: None,
                connect_timeout: duration_of_secs(DEFAULT_CONNECT_SECS),
            }),
    {
        ClientBuilder::new()
    }

    /// The name this session logs in under.
    pub fn user(&self) -> (name: &str)
        ensures
            name@ == self@.username,
    {
        self.username.as_str()
    }

    /// Where the session stands.
    pub fn stage(&self) -> (stage: Stage)
        ensures
            stage == self@.stage,
    {
        self.stage
    }

    /// Whether the session was closed.
    pub fn is_closed(&self) -> (closed: bool)
        ensures
            closed == (self@.stage == Stage::Closed),
    {
        match self.stage {
            Stage::Closed => true,
            _ => false,
        }
    }

    /// Takes the engine's reply to a password into the session: the
    /// session is authenticated exactly when the peer accepted.
    pub fn auth_with_password<T, K>(&mut self, reply: Result<bool, T>) -> (r: Result<
        (),
        ClientError<T, K>,
    >)
        requires
            old(self)@.stage != Stage::Closed,
        ensures
            unit_result_view(r) == auth_verdict::<T, K>(reply, password_rejected()),
            final(self)@.username == old(self)@.username,
            final(self)@.stage == if r is Ok {
                Stage::Authenticated
            } else {
                old(self)@.stage
            },
    {
        match reply {
            Ok(true) => {
                self.stage = Stage::Authenticated;
                Ok(())
            },
            Ok(false) => Err(ClientError::wrong_password()),
            Err(e) => Err(ClientError::ClientFailed(e)),
        }
    }

    /// Takes the engine's reply to a public key into the session: the
    /// session is authenticated exactly when the peer accepted.
    pub fn auth_with_key_pair<T, K>(&mut self, reply: Result<bool, T>) -> (r: Result<
        (),
        ClientError<T, K>,
    >)
        requires
            old(self)@.stage != Stage::Closed,
        ensures
            unit_result_view(r) == auth_verdict::<T, K>(reply, key_rejected()),
            final(self)@.username == old(self)@.username,
            final(self)@.stage == if r is Ok {
                Stage::Authenticated
            } else {
                old(self)@.stage
            },
    {
        match reply {
            Ok(true) => {
                self.stage = Stage::Authenticated;
                Ok(())
            },
            Ok(false) => Err(ClientError::wrong_key()),
            Err(e) => Err(ClientError::ClientFailed(e)),
        }
    }

    /// What the peer is told when this library closes a session: that the
    /// application asked for it, with no description, in English.
    pub fn farewell() -> (notice: Farewell)
        ensures
            notice.reason == Reason::ByApplication,
            notice.description@ == Seq::<char>::empty(),
            notice.language_tag@ == "English"@,
    {
        Farewell {
            reason: Reason::ByApplication,
            description: String::new(),
            language_tag: "English".to_string(),
        }
    }

    /// Closes the session, given the engine's reply to the disconnect
    /// notice. The session is closed whatever the reply; a failure of the
    /// engine is passed on.
    pub fn close<T, K>(&mut self, reply: Result<(), T>) -> (r: Result<(), ClientError<T, K>>)
        ensures
            final(self)@ == (ClientView { stage: Stage::Closed, ..old(self)@ }),
            unit_result_view(r) == match reply {
                Ok(()) => Ok::<(), ErrorView<T, K>>(()),
                Err(e) => Err(ErrorView::ClientFailed(e)),
            },
    {
        self.stage = Stage::Closed;
        match reply {
            Ok(()) => Ok(()),
            Err(e) => Err(ClientError::ClientFailed(e)),
        }
    }
}

} // verus!
