//! Core of a desktop shell that supervises a long-lived worker subprocess.
//!
//! The library is the verified heart of the application: the supervisor's
//! guarded process/stream pair, the line-delimited JSON control protocol
//! (encoding of every outbound message, classification of every inbound
//! line), the command facade that turns caller intent into protocol lines,
//! and the popover placement geometry. Process spawning, pipe I/O and the
//! GUI host live outside, in the thin driver around this crate.

use vstd::prelude::*;

pub mod codec;
pub mod digits;
pub mod facade;
pub mod ids;
pub mod placement;
pub mod router;
pub mod sanitize;
pub mod supervisor;
pub mod text;

verus! {

/// Friendly greeting used by the shell's demo command.
pub fn greet(name: &str) -> (r: String)
    ensures
        r@ == "Hello, "@ + name@ + "! You've been greeted from Rust!"@,
{
    let mut out = String::from_str("Hello, ");
    out.append(name);
    out.append("! You've been greeted from Rust!");
    out
}

} // verus!
