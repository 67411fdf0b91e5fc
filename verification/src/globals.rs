//! The constants of the application interface, and the values that a host
//! hands a guest when it starts.

use vstd::prelude::*;

verus! {

/// A hash, written as a string.
pub type HashString = String;

/// The version of the interface.
pub const VERSION: u16 = 1;

/// The version of the interface, as text.
pub const VERSION_STR: &'static str = "1";

/// The reasons for which the interface refuses a request outright.
#[derive(Clone, Copy, Debug, PartialEq, Eq, Structural)]
pub enum ErrorCode {
    FunctionNotImplemented,
    HashNotFound,
}

/// What to do with a link between two entries.
#[derive(Clone, Copy, Debug, PartialEq, Eq, Structural)]
pub enum LinkAction {
    Add,
    Delete,
}

/// What a validation package may ask for.
#[derive(Clone, Copy, Debug, PartialEq, Eq, Structural)]
pub enum PkgRequest {
    Chain,
    ChainOption,
    EntryTypes,
}

/// How much of the chain a validation package asks for.
#[derive(Clone, Copy, Debug, PartialEq, Eq, Structural)]
pub enum ChainOption {
    Nothing,
    Headers,
    Entries,
    Full,
}

/// The side of a bridge that an application is on.
#[derive(Clone, Copy, Debug, PartialEq, Eq, Structural)]
pub enum BridgeSide {
    From,
    To,
}

/// Why a bundle was cancelled.
#[derive(Clone, Copy, Debug, PartialEq, Eq, Structural)]
pub enum Reason {
    UserCancel,
    Timeout,
}

/// What to do with a bundle that was cancelled.
#[derive(Clone, Copy, Debug, PartialEq, Eq, Structural)]
pub enum Response {
    Okay,
    Commit,
}

/// What to do with a bundle when it is closed.
#[derive(Clone, Copy, Debug, PartialEq, Eq, Structural)]
pub enum BundleOnClose {
    Commit,
    Discard,
}

/// What a host tells a guest of the application that it runs in.
#[derive(Clone, Debug)]
pub struct AppGlobals {
    /// The name of the application.
    pub app_name: String,
    /// The hash of the application's definition.
    pub app_dna_hash: String,
    /// The identity that the chain was started with.
    pub app_agent_id_str: String,
    /// The hash of the agent's public key: its address.
    pub app_agent_key_hash: String,
    /// The hash of the first identity entry of the chain.
    pub app_agent_initial_hash: String,
    /// The hash of the most recent identity entry of the chain.
    pub app_agent_latest_hash: String,
}

} // verus!
