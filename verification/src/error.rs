//! The ways in which a session can fail.

use vstd::prelude::*;

verus! {

/// `std::io::Error`, carried through as it is; nothing is claimed of what
/// it holds.
#[verifier::external_type_specification]
#[verifier::external_body]
pub struct ExIoError(std::io::Error);

/// Why an operation on a session failed. `T` is the transport engine's
/// error and `K` the key decoder's; both are carried through untouched.
#[derive(Debug)]
pub enum ClientError<T, K> {
    /// A local file or stream could not be read or written.
    IOError(std::io::Error),
    /// The transport engine reported a failure.
    ClientFailed(T),
    /// The connection did not stand before its deadline.
    Timeout,
    /// The peer turned the credential down; the text says which kind.
    AuthFailed(String),
    /// The private key could not be decoded.
    KeyError(K),
    /// No user name was given to log in under.
    UsernameEmpty,
}

/// The mathematical value of a [`ClientError`].
pub enum ErrorView<T, K> {
    IOError(std::io::Error),
    ClientFailed(T),
    Timeout,
    AuthFailed(Seq<char>),
    KeyError(K),
    UsernameEmpty,
}

impl<T, K> View for ClientError<T, K> {
    type V = ErrorView<T, K>;

    open spec fn view(&self) -> ErrorView<T, K> {
        match self {
            ClientError::IOError(e) => ErrorView::IOError(*e),
            ClientError::ClientFailed(e) => ErrorView::ClientFailed(*e),
            ClientError::Timeout => ErrorView::Timeout,
            ClientError::AuthFailed(reason) => ErrorView::AuthFailed(reason@),
            ClientError::KeyError(e) => ErrorView::KeyError(*e),
            ClientError::UsernameEmpty => ErrorView::UsernameEmpty,
        }
    }
}

/// The reason given when the peer turns a password down.
pub open spec fn password_rejected() -> Seq<char> {
    "username or password is wrong"@
}

/// The reason given when the peer turns a public key down.
pub open spec fn key_rejected() -> Seq<char> {
    "username or key is wrong"@
}

impl<T, K> ClientError<T, K> {
    /// The failure of a password the peer turned down.
    pub fn wrong_password() -> (err: Self)
        ensures
            err@ == ErrorView::<T, K>::AuthFailed(password_rejected()),
    {
        ClientError::AuthFailed("username or password is wrong".to_string())
    }

    /// The failure of a public key the peer turned down.
    pub fn wrong_key() -> (err: Self)
        ensures
            err@ == ErrorView::<T, K>::AuthFailed(key_rejected()),
    {
        ClientError::AuthFailed("username or key is wrong".to_string())
    }
}

} // verus!
