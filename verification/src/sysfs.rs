//! The shape of the caller-supplied filesystem primitives, and predicates
//! over what a primitive may have done.
//!
//! The library never opens a file itself: every operation receives the
//! primitives it needs (an existence probe, a metadata check, a whole-file
//! read, a whole-file write) as closures, and its contracts relate the
//! operation's result to what those closures can have returned.  A failure
//! of a primitive is reported as rendered text, so that the protocol logic
//! is independent of how the caller performs the access.

use vstd::prelude::*;

verus! {

/// The probe may be applied to any path.
pub open spec fn probe_callable<P: FnOnce(String) -> bool>(probe: P) -> bool {
    forall|p: String| #[trigger] call_requires(probe, (p,))
}

/// The probe, applied to `path`, can report `present`.
pub open spec fn probe_out<P: FnOnce(String) -> bool>(
    probe: P,
    path: Seq<char>,
    present: bool,
) -> bool {
    exists|p: String| #[trigger] call_ensures(probe, (p,), present) && p@ == path
}

/// The probe, applied to `path`, reports nothing but `present`.
pub open spec fn probe_always<P: FnOnce(String) -> bool>(
    probe: P,
    path: Seq<char>,
    present: bool,
) -> bool {
    forall|p: String, b: bool| #[trigger] call_ensures(probe, (p,), b) && p@ == path ==> b
        == present
}

/// The metadata check may be applied to any path.
pub open spec fn stat_callable<S: FnOnce(String) -> Result<(), String>>(stat: S) -> bool {
    forall|p: String| #[trigger] call_requires(stat, (p,))
}

/// The metadata check, applied to `path`, can report `out`.
pub open spec fn stat_out<S: FnOnce(String) -> Result<(), String>>(
    stat: S,
    path: Seq<char>,
    out: Result<(), String>,
) -> bool {
    exists|p: String| #[trigger] call_ensures(stat, (p,), out) && p@ == path
}

/// The read may be applied to any path.
pub open spec fn read_callable<R: FnOnce(String) -> Result<String, String>>(read: R) -> bool {
    forall|p: String| #[trigger] call_requires(read, (p,))
}

/// The read, applied to `path`, can report `out`.
pub open spec fn read_out<R: FnOnce(String) -> Result<String, String>>(
    read: R,
    path: Seq<char>,
    out: Result<String, String>,
) -> bool {
    exists|p: String| #[trigger] call_ensures(read, (p,), out) && p@ == path
}

/// The write may be applied to any path and text.
pub open spec fn write_callable<W: FnOnce(String, String) -> Result<(), String>>(
    write: W,
) -> bool {
    forall|p: String, v: String| #[trigger] call_requires(write, (p, v))
}

/// The write, applied to `path` and `text`, can report `out`.
pub open spec fn write_out<W: FnOnce(String, String) -> Result<(), String>>(
    write: W,
    path: Seq<char>,
    text: Seq<char>,
    out: Result<(), String>,
) -> bool {
    exists|p: String, v: String| #[trigger] call_ensures(write, (p, v), out) && p@ == path && v@
        == text
}

} // verus!
