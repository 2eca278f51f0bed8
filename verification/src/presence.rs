use vstd::prelude::*;

verus! {

/// The presence-clear flow. Clearing is idempotent: when nothing is published it
/// finishes at once without a transport call. Otherwise it tries one `clear`, and on
/// failure exactly one `reconnect` followed by one retried `clear`; a dead transport
/// leaves the published flag as it was and never blocks the caller.
#[derive(Clone, Copy, PartialEq, Eq, Structural, Debug)]
pub enum ClearState {
    AwaitClear,
    AwaitReconnect,
    AwaitRetryClear,
    Done { published: bool },
}

/// The transport call a non-final clear-flow state asks the driver to perform.
#[derive(Clone, Copy, PartialEq, Eq, Structural, Debug)]
pub enum ClearCall {
    ClearActivity,
    Reconnect,
}

/// Where the clear flow starts: finished already when nothing is published.
pub open spec fn clear_started(published: bool) -> ClearState {
    if published {
        ClearState::AwaitClear
    } else {
        ClearState::Done { published: false }
    }
}

/// Start a clear flow for the given published flag.
pub fn clear_begin(published: bool) -> (s: ClearState)
    ensures
        s == clear_started(published),
{
    if published {
        ClearState::AwaitClear
    } else {
        ClearState::Done { published: false }
    }
}

/// The transport call each state requires, none once the flow is done.
pub open spec fn clear_request(s: ClearState) -> Option<ClearCall> {
    match s {
        ClearState::AwaitClear => Option::Some(ClearCall::ClearActivity),
        ClearState::AwaitReconnect => Option::Some(ClearCall::Reconnect),
        ClearState::AwaitRetryClear => Option::Some(ClearCall::ClearActivity),
        ClearState::Done { .. } => Option::None,
    }
}

/// Ask which transport call the flow needs next.
pub fn clear_call(s: &ClearState) -> (c: Option<ClearCall>)
    ensures
        c == clear_request(*s),
{
    match s {
        ClearState::AwaitClear => Option::Some(ClearCall::ClearActivity),
        ClearState::AwaitReconnect => Option::Some(ClearCall::Reconnect),
        ClearState::AwaitRetryClear => Option::Some(ClearCall::ClearActivity),
        ClearState::Done { .. } => Option::None,
    }
}

/// The transition table of the clear flow: a successful clear ends it with nothing
/// published; a failed first clear buys exactly one reconnect-and-retry; any further
/// failure ends it with the published flag still set.
pub open spec fn clear_advanced(s: ClearState, ok: bool) -> ClearState {
    match s {
        ClearState::AwaitClear => if ok {
            ClearState::Done { published: false }
        } else {
            ClearState::AwaitReconnect
        },
        ClearState::AwaitReconnect => if ok {
            ClearState::AwaitRetryClear
        } else {
            ClearState::Done { published: true }
        },
        ClearState::AwaitRetryClear => if ok {
            ClearState::Done { published: false }
        } else {
            ClearState::Done { published: true }
        },
        ClearState::Done { published } => ClearState::Done { published },
    }
}

/// Feed the outcome of the requested transport call into the flow.
pub fn clear_advance(s: ClearState, ok: bool) -> (t: ClearState)
    ensures
        t == clear_advanced(s, ok),
{
    match s {
        ClearState::AwaitClear => if ok {
            ClearState::Done { published: false }
        } else {
            ClearState::AwaitReconnect
        },
        ClearState::AwaitReconnect => if ok {
            ClearState::AwaitRetryClear
        } else {
            ClearState::Done { published: true }
        },
        ClearState::AwaitRetryClear => if ok {
            ClearState::Done { published: false }
        } else {
            ClearState::Done { published: true }
        },
        ClearState::Done { published } => ClearState::Done { published },
    }
}

/// Clearing while nothing is published succeeds at once and asks for no transport
/// call at all.
pub proof fn lemma_clear_noop_when_unpublished()
    ensures
        clear_started(false) == (ClearState::Done { published: false }),
        clear_request(clear_started(false)) is None,
{
}

/// However the transport answers, a clear flow started with a published activity
/// ends within three calls, and the flag ends cleared exactly when the first
/// clear succeeded, or the reconnect and the retried clear both did.
pub proof fn lemma_clear_terminates(ok1: bool, ok2: bool, ok3: bool)
    ensures
        ({
            let s1 = clear_advanced(clear_started(true), ok1);
            let s2 = clear_advanced(s1, ok2);
            let s3 = clear_advanced(s2, ok3);
            &&& s3 is Done
            &&& s3 == (ClearState::Done { published: !ok1 && (!ok2 || !ok3) })
        }),
{
}

} // verus!
