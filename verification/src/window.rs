//! The admission rules shared by both distribution windows.
//!
//! Every grant-type operation (a claim against the airdrop, a purchase
//! against the presale) first runs the same three checks, short-circuiting
//! on the first failure: the window must be active, the current time must
//! have reached the start, and must not have passed the end. Administrative
//! sweeps run the opposite rule: they are permitted only once the window
//! is closed.

use vstd::prelude::*;

verus! {

/// Where a distribution window stands at a given time, relative to its
/// activity flag and its inclusive time bounds.
#[derive(Clone, Copy, Debug, PartialEq, Eq, Structural)]
pub enum WindowStatus {
    /// The authority has deactivated the window.
    NotActive,
    /// The current time is before the start of the window.
    NotStarted,
    /// The current time is past the end of the window.
    Ended,
    /// The window is active and the current time lies within its bounds.
    Open,
}

/// The shared gate sequence: activity flag first, then the start bound, then
/// the end bound. Both bounds are inclusive.
pub open spec fn spec_window_status(
    is_active: bool,
    start_time: i64,
    end_time: i64,
    now: i64,
) -> WindowStatus {
    if !is_active {
        WindowStatus::NotActive
    } else if now < start_time {
        WindowStatus::NotStarted
    } else if now > end_time {
        WindowStatus::Ended
    } else {
        WindowStatus::Open
    }
}

/// A window is closed — and only then may its remainder be swept — once the
/// current time has passed its end or the authority has deactivated it.
pub open spec fn spec_window_closed(is_active: bool, end_time: i64, now: i64) -> bool {
    now > end_time || !is_active
}

/// Evaluate the shared gate sequence.
pub fn window_status(is_active: bool, start_time: i64, end_time: i64, now: i64) -> (status:
    WindowStatus)
    ensures
        status == spec_window_status(is_active, start_time, end_time, now),
{
    if !is_active {
        WindowStatus::NotActive
    } else if now < start_time {
        WindowStatus::NotStarted
    } else if now > end_time {
        WindowStatus::Ended
    } else {
        WindowStatus::Open
    }
}

/// Evaluate the sweep gate.
pub fn window_closed(is_active: bool, end_time: i64, now: i64) -> (closed: bool)
    ensures
        closed == spec_window_closed(is_active, end_time, now),
{
    now > end_time || !is_active
}

/// A window is open at a time exactly when it is active and the time lies
/// within the inclusive bounds; an open window is never also closed.
pub proof fn lemma_window_open_characterization(
    is_active: bool,
    start_time: i64,
    end_time: i64,
    now: i64,
)
    ensures
        spec_window_status(is_active, start_time, end_time, now) is Open <==> (is_active
            && start_time <= now <= end_time),
        spec_window_status(is_active, start_time, end_time, now) is Open ==> !spec_window_closed(
            is_active,
            end_time,
            now,
        ),
{
}

} // verus!
