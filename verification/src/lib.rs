//! A development kit for guest modules that talk to their host through one
//! integer at a time.
//!
//! The host can hand a guest nothing but a single `u32`, and the guest owns one
//! bounded run of bytes, its linear region. This crate holds the protocol that
//! makes structured values cross that boundary: an encoding of a byte range
//! into one word, a stack allocator over the region, the JSON text of a value
//! written into and read out of the region, and the calling convention of an
//! exported guest function.

pub mod allocation;
pub mod api;
pub mod dispatch;
pub mod error;
pub mod globals;
pub mod guest;
pub mod init_globals;
pub mod json;
pub mod region;
pub mod ribosome_error;
pub mod serialization;
pub mod stack;

pub use allocation::{Allocation, FIELD_BITS, FIELD_MAX};
pub use api::{
    call, close_bundle, commit_entry, debug, get_entry, get_links, link_entries, make_hash,
    property, query, remove_entry, send, sign, start_bundle, update_agent, update_entry,
    verify_signature,
};
pub use dispatch::{receive, validation, zome_function};
pub use guest::{check_commit_entry, check_global};
pub use init_globals::init_globals;
pub use error::{RibosomeErrorCode, RibosomeReturnCode, SUCCESS};
pub use globals::{
    AppGlobals, BridgeSide, BundleOnClose, ChainOption, ErrorCode, HashString, LinkAction,
    PkgRequest, Reason, Response,
};
pub use region::LinearRegion;
pub use ribosome_error::RibosomeError;
pub use serialization::{
    deserialize, serialize, serialize_into_encoded_allocation, try_deserialize_allocation,
};
pub use stack::Stack;
