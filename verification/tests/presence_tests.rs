use mpris_discord_rpc::discovery::SearchStep;
use mpris_discord_rpc::discovery::search_advance;
use mpris_discord_rpc::discovery::search_start;
use mpris_discord_rpc::presence::ClearCall;
use mpris_discord_rpc::presence::ClearState;
use mpris_discord_rpc::presence::clear_advance;
use mpris_discord_rpc::presence::clear_begin;
use mpris_discord_rpc::presence::clear_call;

#[test]
fn clear_when_nothing_published_needs_no_transport_call() {
    let s = clear_begin(false);
    assert_eq!(s, ClearState::Done { published: false });
    assert_eq!(clear_call(&s), None);
}

#[test]
fn clear_success_ends_the_flow_cleared() {
    let s = clear_begin(true);
    assert_eq!(clear_call(&s), Some(ClearCall::ClearActivity));
    let s = clear_advance(s, true);
    assert_eq!(s, ClearState::Done { published: false });
}

#[test]
fn failed_clear_buys_one_reconnect_and_retry() {
    let s = clear_begin(true);
    let s = clear_advance(s, false);
    assert_eq!(s, ClearState::AwaitReconnect);
    assert_eq!(clear_call(&s), Some(ClearCall::Reconnect));
    let s = clear_advance(s, true);
    assert_eq!(s, ClearState::AwaitRetryClear);
    assert_eq!(clear_call(&s), Some(ClearCall::ClearActivity));
    let s = clear_advance(s, true);
    assert_eq!(s, ClearState::Done { published: false });
}

#[test]
fn dead_transport_leaves_the_flag_published() {
    let s = clear_begin(true);
    let s = clear_advance(s, false);
    let s = clear_advance(s, false);
    assert_eq!(s, ClearState::Done { published: true });

    let s = clear_begin(true);
    let s = clear_advance(s, false);
    let s = clear_advance(s, true);
    let s = clear_advance(s, false);
    assert_eq!(s, ClearState::Done { published: true });
}

#[test]
fn empty_allowlist_exhausts_immediately() {
    assert_eq!(search_start(0), SearchStep::Exhausted);
}

#[test]
fn search_returns_the_first_entry_that_resolves() {
    let mut step = search_start(3);
    assert_eq!(step, SearchStep::Try(0));
    step = search_advance(0, 3, false);
    assert_eq!(step, SearchStep::Try(1));
    step = search_advance(1, 3, true);
    assert_eq!(step, SearchStep::Found(1));
}

#[test]
fn search_exhausts_after_the_last_miss() {
    let mut step = search_start(2);
    assert_eq!(step, SearchStep::Try(0));
    step = search_advance(0, 2, false);
    assert_eq!(step, SearchStep::Try(1));
    step = search_advance(1, 2, false);
    assert_eq!(step, SearchStep::Exhausted);
}
