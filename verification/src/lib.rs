//! Client-side orchestration of a remote-shell session: the configuration a
//! connection is made from, the decisions taken while connecting and
//! authenticating, and the folding of a command's channel events into one
//! result record. The transport itself is driven by the caller.

pub mod client;
pub mod connect;
pub mod error;
pub mod execute;
pub mod output;

pub use client::{AuthMethod, Client, ClientBuilder, Stage};
pub use error::ClientError;
pub use output::{ChannelEvent, Output};
