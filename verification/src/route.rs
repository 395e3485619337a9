//! Backend resolution.
//!
//! After the handshake the proxy peeks once more at the client, waiting a
//! bounded time for the result. SSH clients speak first, so a banner
//! containing `SSH` routes the connection to the SSH backend; every other
//! outcome — other data, a timeout, a failed peek — falls through to the
//! default VPN backend. Exactly one backend is chosen, never none. The
//! bounded wait itself happens outside the library; this module turns its
//! outcome into the backend port, and a connect attempt's outcome into the
//! session's fate.

use vstd::prelude::*;

use crate::sniff::contains_seq;
use crate::sniff::contains_subslice;
use crate::sniff::ssh_needle;
use crate::sniff::ssh_token;

verus! {

/// Port of the SSH backend.
pub const SSH_BACKEND_PORT: u16 = 22;

/// Port of the default (VPN) backend.
pub const VPN_BACKEND_PORT: u16 = 1194;

/// What the bounded routing peek produced: the bytes it saw, or a timeout,
/// or a failed peek.
pub enum PeekOutcome {
    Data(Vec<u8>),
    TimedOut,
    Failed,
}

/// The peek saw data containing the `SSH` token; only then is the SSH
/// backend chosen.
pub open spec fn signals_ssh(o: PeekOutcome) -> bool {
    match o {
        PeekOutcome::Data(d) => contains_seq(d@, ssh_token()),
        PeekOutcome::TimedOut => false,
        PeekOutcome::Failed => false,
    }
}

/// Chooses the backend port: the SSH port exactly when the peek saw `SSH`
/// in time, the VPN port in every other case.
pub fn resolve_backend(outcome: &PeekOutcome) -> (port: u16)
    ensures
        port == if signals_ssh(*outcome) {
            SSH_BACKEND_PORT
        } else {
            VPN_BACKEND_PORT
        },
        port == SSH_BACKEND_PORT || port == VPN_BACKEND_PORT,
{
    match outcome {
        PeekOutcome::Data(d) => {
            let ssh = ssh_needle();
            if contains_subslice(d.as_slice(), ssh.as_slice()) {
                SSH_BACKEND_PORT
            } else {
                VPN_BACKEND_PORT
            }
        },
        PeekOutcome::TimedOut => VPN_BACKEND_PORT,
        PeekOutcome::Failed => VPN_BACKEND_PORT,
    }
}

/// Whether the connect attempt to the chosen backend succeeded.
#[derive(Clone, Copy, PartialEq, Eq, Debug)]
pub enum ConnectOutcome {
    Linked,
    Refused,
}

/// What happens to the client session after the connect attempt.
#[derive(Clone, Copy, PartialEq, Eq, Debug)]
pub enum SessionFate {
    /// Start the bidirectional relay.
    StartRelay,
    /// Close the client connection; nothing more is written to it.
    CloseClient,
}

/// A successful backend connection starts the relay; a failed one closes
/// the client session with nothing further written to it.
pub fn after_connect(outcome: &ConnectOutcome) -> (fate: SessionFate)
    ensures
        *outcome == ConnectOutcome::Linked ==> fate == SessionFate::StartRelay,
        *outcome == ConnectOutcome::Refused ==> fate == SessionFate::CloseClient,
{
    match outcome {
        ConnectOutcome::Linked => SessionFate::StartRelay,
        ConnectOutcome::Refused => SessionFate::CloseClient,
    }
}

} // verus!
