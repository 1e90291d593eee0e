//! The session timer: elapsed typing time and the completion check.

use vstd::prelude::*;

use crate::state::{SessionView, State};

verus! {

/// Relies on std::time::SystemTime::now and duration_since: the number of
/// whole seconds since the Unix epoch, or 0 if the clock reads earlier than
/// the epoch.  Nothing is promised of the value: it depends on the
/// machine's clock at the moment of the call.
#[verifier::external_body]
pub(crate) fn now_seconds() -> u64 {
    match std::time::SystemTime::now().duration_since(std::time::UNIX_EPOCH) {
        Ok(d) => d.as_secs(),
        Err(_) => 0,
    }
}

/// Whole seconds typed so far when the clock reads `now`: nothing until
/// the first letter anchored the clock, and nothing when the clock reads
/// earlier than the anchor.
pub open spec fn typing_seconds(start_time: Option<u64>, now: u64) -> Option<u64> {
    match start_time {
        None => None,
        Some(s) => if now >= s {
            Some((now - s) as u64)
        } else {
            None
        },
    }
}

/// The session after one timer check at clock reading `now`: it completes
/// once the typing time reaches the limit, and nothing else moves.
pub open spec fn timer_step(v: SessionView, now: u64, time_limit_sec: u64) -> SessionView {
    SessionView {
        complete: v.complete || (typing_seconds(v.start_time, now) matches Some(e) && e
            >= time_limit_sec),
        ..v
    }
}

/// Read the typing time off the wall clock.  Which reading the clock gives
/// is not pinned down, but the result is `typing_seconds` of some reading,
/// and there is no typing time before the first letter.
pub fn get_typing_seconds(state: &State) -> (r: Option<u64>)
    ensures
        exists|now: u64| r == typing_seconds(state@.start_time, now),
        state@.start_time is None ==> r is None,
        r is Some ==> state@.start_time is Some,
{
    match state.start_time {
        None => {
            proof {
                assert(typing_seconds(state@.start_time, 0) == None::<u64>);
            }
            None
        },
        Some(s) => {
            let now = now_seconds();
            proof {
                assert(exists|n: u64| typing_seconds(state@.start_time, n) == typing_seconds(
                    state@.start_time,
                    now,
                ));
            }
            if now >= s {
                Some(now - s)
            } else {
                None
            }
        },
    }
}

/// Mark the session complete when the given elapsed time reaches the
/// limit.  This is the whole decision, separated from the clock so that
/// it is pinned for every elapsed value.
pub fn handle_timer_at(state: &mut State, elapsed_seconds: Option<u64>, time_limit_sec: u64)
    ensures
        final(state)@ == (SessionView {
            complete: old(state)@.complete || (elapsed_seconds matches Some(e) && e
                >= time_limit_sec),
            ..old(state)@
        }),
{
    if let Some(elapsed) = elapsed_seconds {
        if elapsed >= time_limit_sec {
            state.complete = true;
        }
    }
    proof {
        assert(state@ =~= (SessionView {
            complete: old(state)@.complete || (elapsed_seconds matches Some(e) && e
                >= time_limit_sec),
            ..old(state)@
        }));
    }
}

/// Check the wall clock against the time limit: the session is complete
/// once the typing time reaches it.  Whatever the clock read, the result
/// is one `timer_step`; before the first letter nothing changes.
pub fn handle_timer(state: &mut State, time_limit_sec: u64)
    ensures
        exists|now: u64| final(state)@ == timer_step(old(state)@, now, time_limit_sec),
        old(state)@.complete ==> final(state)@.complete,
        old(state)@.start_time is None ==> final(state)@ == old(state)@,
        final(state)@.words == old(state)@.words,
        final(state)@.typed == old(state)@.typed,
        final(state)@.cur == old(state)@.cur,
        final(state)@.attempted == old(state)@.attempted,
        final(state)@.correct == old(state)@.correct,
        final(state)@.quit == old(state)@.quit,
        final(state)@.retry == old(state)@.retry,
        final(state)@.start_time == old(state)@.start_time,
{
    let elapsed = get_typing_seconds(state);
    proof {
        let now = choose|n: u64| elapsed == typing_seconds(old(state)@.start_time, n);
        assert(timer_step(old(state)@, now, time_limit_sec) == (SessionView {
            complete: old(state)@.complete || (elapsed matches Some(e) && e >= time_limit_sec),
            ..old(state)@
        }));
    }
    handle_timer_at(state, elapsed, time_limit_sec);
    proof {
        let now = choose|n: u64| elapsed == typing_seconds(old(state)@.start_time, n);
        assert(state@ == timer_step(old(state)@, now, time_limit_sec));
        if old(state)@.start_time is None {
            assert(state@ =~= old(state)@);
        }
    }
}

} // verus!
