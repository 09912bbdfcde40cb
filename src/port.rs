//! Choice of the TCP port that the backend binds.
use vstd::prelude::*;

verus! {

/// The port that the backend prefers when it is free.
pub const DEFAULT_PORT: u16 = 8765;

/// Relies on `portpicker::is_free`: whether binding the port on TCP and UDP
/// succeeded at the moment of the call. Nothing is promised of the answer.
#[verifier::external_body]
fn port_is_free(port: u16) -> (r: bool) {
    portpicker::is_free(port)
}

/// Relies on `portpicker::pick_unused_port`: some port that was free when it
/// was tried, or `None` after it gave up. Nothing is promised of the answer.
#[verifier::external_body]
fn pick_unused_port() -> (r: Option<u16>) {
    portpicker::pick_unused_port()
}

/// Decides the port from two observations: whether the default port is free,
/// and the port that a search for an unused one returned, if any. The default
/// port wins when it is free; otherwise the searched port is taken, but never
/// the default port, which was just seen occupied.
pub fn select_port(default_free: bool, picked: Option<u16>) -> (r: Option<u16>)
    ensures
        default_free ==> r == Some(DEFAULT_PORT),
        !default_free ==> r == (match picked {
            Some(p) => if p != DEFAULT_PORT { Some(p) } else { None },
            None => None,
        }),
{
    if default_free {
        Some(DEFAULT_PORT)
    } else {
        match picked {
            Some(p) => if p != DEFAULT_PORT { Some(p) } else { None },
            None => None,
        }
    }
}

/// Finds a port for the backend: the default port when the host reports it
/// free, else a different port that the host reported free. `None` when no
/// free port was found.
/// Both observations come from the host at the moment of the call, so no more
/// than `select_port` states of them can be said of the result.
pub fn find_available_port() -> (r: Option<u16>) {
    if port_is_free(DEFAULT_PORT) {
        select_port(true, None)
    } else {
        select_port(false, pick_unused_port())
    }
}

} // verus!
