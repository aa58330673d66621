//! Verified session core for an SSH client.
//!
//! The crate holds the decisions of a client-side session layer: which
//! algorithm names are handed to the protocol engine, how a transport and a
//! channel are consumed exactly once, which request each channel and session
//! operation sends, how agent authentication walks the identities, and which
//! events reach the host. The protocol engine itself, and every socket,
//! process and callback, stay with the caller: each operation here returns
//! the request to perform, and takes the engine's answer as a plain value.

pub mod agent;
pub mod algorithms;
pub mod channel;
pub mod connection;
pub mod error;
pub mod events;
pub mod key;
pub mod session;
pub mod sftp;
pub mod transport;

pub use agent::{
    get_agent_client, AgentAuthStep, AgentAuthentication, AgentConnection, AgentConnectionKind,
    AgentEndpoint, Platform, SshAgentStream,
};
pub use algorithms::{
    supported_ciphers, supported_compression_algorithms, supported_kex_algorithms,
    supported_key_types, supported_macs,
};
pub use channel::SshChannel;
pub use connection::connect;
pub use error::WrappedError;
pub use events::SSHClientHandler;
pub use key::{parse_key, SshKeyPair, SshPublicKey};
pub use session::{
    KeyboardInteractiveAuthenticationPrompt, KeyboardInteractiveAuthenticationState, SshClient,
};
pub use transport::SshTransport;
