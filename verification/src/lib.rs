//! Watches a mailbox, turns qualifying messages into bounded notification
//! payloads, and decides—per message—whether the mailbox copy may be deleted.
//!
//! The crate holds the verified core of the pipeline: text normalization,
//! ignore-list filtering, MIME body extraction, payload formatting with safe
//! truncation, the delete-iff-delivered rule, and the reconnect state machine.
//! Network transport (mail protocol, webhook HTTP) lives outside and hands
//! plain values in and out.

use vstd::prelude::*;

pub mod delivery;
pub mod filter;
pub mod mime;
pub mod monitor;
pub mod notify;
pub mod text;

verus! {

/// The view of an optional byte buffer.
pub open spec fn opt_bytes(o: Option<Vec<u8>>) -> Option<Seq<u8>> {
    match o {
        Option::Some(v) => Option::Some(v@),
        Option::None => Option::None,
    }
}

/// The contained bytes, or a default when absent.
pub open spec fn or_else(o: Option<Seq<u8>>, d: Seq<u8>) -> Seq<u8> {
    match o {
        Option::Some(v) => v,
        Option::None => d,
    }
}

} // verus!
