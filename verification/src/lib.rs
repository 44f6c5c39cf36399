//! Gather engine and listener coordination for a GPU telemetry exporter.
//!
//! The crate polls a device-management library for per-device readings,
//! keeps the latest value of every labelled series in a [`metrics::Metrics`]
//! registry, and decides how a set of independent listeners starts, drains
//! and stops. Network serving and text exposition are left to the caller.
use vstd::prelude::*;
use vstd::string::StringExecFns;
use listener::{ListenerSet, ListenerState, ListenerView};

pub mod decimal;
pub mod gather;
pub mod guarantees;
pub mod listener;
pub mod metrics;
pub mod readings;
pub mod report;
pub mod source;
pub mod str_helpers;

verus! {

/// Collection options, read once at startup and never changed afterwards.
#[derive(Clone, Copy, Debug, PartialEq, Eq, Structural)]
pub struct Options {
    /// Whether the throttle-reason group is collected.
    pub enable_throttle_reasons: bool,
}

/// The addresses that are listened on where none is configured: the
/// wildcard address of either family, on port 9996.
pub open spec fn default_listen_addresses() -> Seq<Seq<char>> {
    seq!["[::]:9996"@, "0.0.0.0:9996"@]
}

/// The addresses to listen on: those configured, or the defaults where
/// none is.
pub open spec fn listen_addresses(configured: Seq<String>) -> Seq<Seq<char>> {
    if configured.len() == 0 {
        default_listen_addresses()
    } else {
        Seq::new(configured.len(), |i: int| configured[i]@)
    }
}

/// Sets the server up from its configuration: one listener per address,
/// each about to start, and the collection options.
///
/// `listen` holds the configured addresses in order; where it is empty
/// the two default addresses are taken.
pub fn server_setup(listen: Vec<String>, throttle_reasons: bool) -> (setup: (ListenerSet, Options))
    ensures
        setup.1.enable_throttle_reasons == throttle_reasons,
        setup.0@.len() == listen_addresses(listen@).len(),
        forall|i: int|
            0 <= i < setup.0@.len() ==> (#[trigger] setup.0@[i]) == (ListenerView {
                address: listen_addresses(listen@)[i],
                state: ListenerState::Starting,
                failed: false,
            }),
{
    let opts = Options { enable_throttle_reasons: throttle_reasons };
    if listen.len() == 0 {
        let defaults: Vec<String> = vec![
            String::from_str("[::]:9996"),
            String::from_str("0.0.0.0:9996"),
        ];
        (ListenerSet::new(defaults), opts)
    } else {
        (ListenerSet::new(listen), opts)
    }
}

} // verus!
