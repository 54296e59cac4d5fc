//! Whole update cycles.
//!
//! A cycle is the sequence of events that the host reported, in order. This
//! module says which session such a sequence leads to and which actions it
//! draws, replays a recorded sequence, and proves what holds of every cycle.

use crate::updater::{
    event_fits, next_action, next_session, EventView, SessionView, UpdateAction, UpdateEvent,
    UpdateSession, UpdateState,
};
use vstd::prelude::*;

verus! {

/// The views of a sequence of events.
pub open spec fn event_views(events: Seq<UpdateEvent>) -> Seq<EventView> {
    events.map_values(|e: UpdateEvent| e@)
}

/// The session reached from `s` once the host has reported `events`, in order.
pub open spec fn session_after(s: SessionView, events: Seq<EventView>) -> SessionView
    decreases events.len(),
{
    if events.len() == 0 {
        s
    } else {
        next_session(session_after(s, events.drop_last()), events.last())
    }
}

/// The actions that `events` draw from a controller that starts in `s`: the
/// action at `i` answers the event at `i` in the session that the events
/// before it have led to.
pub open spec fn actions_for(s: SessionView, events: Seq<EventView>) -> Seq<UpdateAction> {
    Seq::new(events.len(), |i: int| next_action(session_after(s, events.take(i)), events[i]))
}

/// Every event of `events` finds a session that can take it.
pub open spec fn events_fit(s: SessionView, events: Seq<EventView>) -> bool {
    forall|i: int|
        0 <= i < events.len() ==> event_fits(session_after(s, events.take(i)), #[trigger] events[i])
}

/// Replays a recorded cycle: feeds `events`, in order, to a fresh session and
/// returns the session reached together with the actions drawn, one for each
/// event.
pub fn update(events: &[UpdateEvent]) -> (outcome: (UpdateSession, Vec<UpdateAction>))
    requires
        events_fit(SessionView::initial(), event_views(events@)),
    ensures
        outcome.0@ == session_after(SessionView::initial(), event_views(events@)),
        outcome.1@ == actions_for(SessionView::initial(), event_views(events@)),
{
    let ghost views = event_views(events@);
    let mut session = UpdateSession::new();
    let mut actions: Vec<UpdateAction> = Vec::new();
    let mut i: usize = 0;
    while i < events.len()
        invariant
            i <= events.len(),
            views == event_views(events@),
            events_fit(SessionView::initial(), views),
            session@ == session_after(SessionView::initial(), views.take(i as int)),
            actions@ == actions_for(SessionView::initial(), views.take(i as int)),
        decreases events.len() - i,
    {
        proof {
            let before = views.take(i as int);
            let upto = views.take(i + 1);
            assert(upto.drop_last() == before);
            assert(upto.last() == views[i as int]);
            assert(views[i as int] == events[i as int]@);
            assert forall|j: int| 0 <= j < upto.len() implies #[trigger] upto.take(j)
                == views.take(j) by {}
            assert forall|j: int| 0 <= j < before.len() implies #[trigger] before.take(j)
                == views.take(j) by {}
        }
        let action = session.step(&events[i]);
        actions.push(action);
        i = i + 1;
        assert(actions@ == actions_for(SessionView::initial(), views.take(i as int)));
    }
    assert(views.take(i as int) == views);
    (session, actions)
}


/// The events of a stream of chunks with the given lengths.
pub open spec fn chunk_events(lengths: Seq<nat>) -> Seq<EventView> {
    lengths.map_values(|length: nat| EventView::Chunk { length })
}

/// The length of an artifact that arrives in chunks of the given lengths.
pub open spec fn total_length(lengths: Seq<nat>) -> nat
    decreases lengths.len(),
{
    if lengths.len() == 0 {
        0
    } else {
        total_length(lengths.drop_last()) + lengths.last()
    }
}

/// `count` times the action `action`.
pub open spec fn repeated(action: UpdateAction, count: nat) -> Seq<UpdateAction> {
    Seq::new(count, |i: int| action)
}

/// A cycle in which the manifest names the running build as the latest.
pub open spec fn current_cycle() -> Seq<EventView> {
    seq![EventView::Launched, EventView::ManifestCurrent]
}

/// The start of a cycle in which the manifest names the newer release
/// `version` and chunks of the given lengths arrive.
pub open spec fn download_started(version: Seq<char>, lengths: Seq<nat>) -> Seq<EventView> {
    seq![EventView::Launched, EventView::ManifestNewer { version }] + chunk_events(lengths)
}

/// A cycle in which the manifest names the newer release `version`, the
/// artifact arrives whole in chunks of the given lengths, and the
/// installation succeeds.
pub open spec fn completed_cycle(version: Seq<char>, lengths: Seq<nat>) -> Seq<EventView> {
    download_started(version, lengths) + seq![
        EventView::DownloadCompleted,
        EventView::InstallSucceeded,
    ]
}

/// A cycle in which the manifest names the newer release `version` and the
/// stream breaks after chunks of the given lengths.
pub open spec fn broken_cycle(version: Seq<char>, lengths: Seq<nat>) -> Seq<EventView> {
    download_started(version, lengths) + seq![EventView::Failure]
}

/// Events can be reported in two batches: the second batch continues from
/// the session that the first has led to.
pub proof fn lemma_session_after_concat(s: SessionView, a: Seq<EventView>, b: Seq<EventView>)
    ensures
        session_after(s, a + b) == session_after(session_after(s, a), b),
    decreases b.len(),
{
    if b.len() == 0 {
        assert(a + b == a);
    } else {
        assert((a + b).drop_last() == a + b.drop_last());
        assert((a + b).last() == b.last());
        lemma_session_after_concat(s, a, b.drop_last());
    }
}

/// The actions of two batches are the actions of the first, followed by the
/// actions that the second draws from the session that the first has led to.
pub proof fn lemma_actions_for_concat(s: SessionView, a: Seq<EventView>, b: Seq<EventView>)
    ensures
        actions_for(s, a + b) == actions_for(s, a) + actions_for(session_after(s, a), b),
{
    let whole = actions_for(s, a + b);
    let parts = actions_for(s, a) + actions_for(session_after(s, a), b);
    assert forall|i: int| 0 <= i < whole.len() implies whole[i] == parts[i] by {
        if i < a.len() {
            assert((a + b).take(i) == a.take(i));
        } else {
            assert((a + b).take(i) == a + b.take(i - a.len()));
            lemma_session_after_concat(s, a, b.take(i - a.len()));
        }
    }
    assert(whole == parts);
}

/// A cycle that has ended stays as it is: whatever is reported afterwards
/// changes nothing in the session and draws no action but `Stop`.
pub proof fn lemma_ended_cycle_is_final(s: SessionView, events: Seq<EventView>)
    requires
        s.state.terminal(),
    ensures
        session_after(s, events) == s,
        actions_for(s, events) == repeated(UpdateAction::Stop, events.len()),
    decreases events.len(),
{
    if events.len() > 0 {
        lemma_ended_cycle_is_final(s, events.drop_last());
    }
    assert forall|i: int| 0 <= i < events.len() implies actions_for(s, events)[i]
        == UpdateAction::Stop by {
        lemma_ended_cycle_is_final(s, events.take(i));
    }
    assert(actions_for(s, events) == repeated(UpdateAction::Stop, events.len()));
}

/// While the artifact is streamed, each chunk adds its length to the byte
/// counter and nothing else changes; each chunk is answered with `Continue`.
pub proof fn lemma_chunks_are_counted(s: SessionView, lengths: Seq<nat>)
    requires
        s.state == UpdateState::Downloading,
    ensures
        session_after(s, chunk_events(lengths)) == (SessionView {
            bytes_downloaded: s.bytes_downloaded + total_length(lengths),
            ..s
        }),
        actions_for(s, chunk_events(lengths)) == repeated(UpdateAction::Continue, lengths.len()),
    decreases lengths.len(),
{
    let events = chunk_events(lengths);
    if lengths.len() > 0 {
        lemma_chunks_are_counted(s, lengths.drop_last());
        assert(events.drop_last() == chunk_events(lengths.drop_last()));
    }
    assert forall|i: int| 0 <= i < events.len() implies actions_for(s, events)[i]
        == UpdateAction::Continue by {
        assert(events.take(i) == chunk_events(lengths.take(i)));
        lemma_chunks_are_counted(s, lengths.take(i));
    }
    assert(actions_for(s, events) == repeated(UpdateAction::Continue, lengths.len()));
}

/// What holds once a newer release has been found and chunks have arrived:
/// the session is downloading, knows the version, and has counted the bytes
/// of every chunk; the manifest was asked for, then the download.
pub proof fn lemma_download_started(version: Seq<char>, lengths: Seq<nat>)
    ensures
        session_after(SessionView::initial(), download_started(version, lengths)) == (SessionView {
            remote_version: version,
            bytes_downloaded: total_length(lengths),
            state: UpdateState::Downloading,
        }),
        actions_for(SessionView::initial(), download_started(version, lengths)) == seq![
            UpdateAction::CheckManifest,
            UpdateAction::Download,
        ] + repeated(UpdateAction::Continue, lengths.len()),
{
    let start = SessionView::initial();
    let head = seq![EventView::Launched, EventView::ManifestNewer { version }];
    let found = SessionView {
        remote_version: version,
        bytes_downloaded: 0,
        state: UpdateState::Downloading,
    };
    lemma_two_events(start, head[0], head[1]);
    assert(head == seq![head[0], head[1]]);
    lemma_session_after_concat(start, head, chunk_events(lengths));
    lemma_actions_for_concat(start, head, chunk_events(lengths));
    lemma_chunks_are_counted(found, lengths);
}

/// The session and the actions after exactly two events.
proof fn lemma_two_events(s: SessionView, first: EventView, second: EventView)
    ensures
        session_after(s, seq![first, second]) == next_session(next_session(s, first), second),
        actions_for(s, seq![first, second]) == seq![
            next_action(s, first),
            next_action(next_session(s, first), second),
        ],
{
    let events = seq![first, second];
    assert(events.drop_last() == seq![first]);
    assert(seq![first].drop_last() == Seq::<EventView>::empty());
    assert(session_after(s, seq![first]) == next_session(s, first)) by {
        assert(session_after(s, Seq::<EventView>::empty()) == s);
    }
    assert(events.take(0) == Seq::<EventView>::empty());
    assert(events.take(1) == seq![first]);
    assert(actions_for(s, events) == seq![
        next_action(s, first),
        next_action(next_session(s, first), second),
    ]);
}

/// When the manifest names the running build as the latest, the cycle ends
/// in `NotAvailable`: the manifest is asked for once, and neither a download
/// nor an installation nor a restart is ever requested, whatever the host
/// reports afterwards.
pub proof fn lemma_no_update_available(rest: Seq<EventView>)
    ensures
        session_after(SessionView::initial(), current_cycle() + rest) == (SessionView {
            state: UpdateState::NotAvailable,
            ..SessionView::initial()
        }),
        actions_for(SessionView::initial(), current_cycle() + rest) == seq![
            UpdateAction::CheckManifest,
            UpdateAction::Stop,
        ] + repeated(UpdateAction::Stop, rest.len()),
        forall|i: int|
            0 <= i < (current_cycle() + rest).len() ==> {
                let action = #[trigger] actions_for(SessionView::initial(), current_cycle() + rest)[i];
                action != UpdateAction::Download && action != UpdateAction::Install && action
                    != UpdateAction::Restart
            },
{
    let start = SessionView::initial();
    let ended = SessionView { state: UpdateState::NotAvailable, ..start };
    lemma_two_events(start, EventView::Launched, EventView::ManifestCurrent);
    lemma_session_after_concat(start, current_cycle(), rest);
    lemma_actions_for_concat(start, current_cycle(), rest);
    lemma_ended_cycle_is_final(ended, rest);
}

/// When a newer release is found, its artifact arrives whole and the
/// installation succeeds, the cycle ends in `Installed` with the version of
/// the release and a byte count equal to the length of the artifact. The
/// restart is requested exactly once: it is the answer to the successful
/// installation, it comes directly after the request to install, and nothing
/// but `Stop` follows it, whatever the host reports afterwards.
pub proof fn lemma_update_installed(version: Seq<char>, lengths: Seq<nat>, rest: Seq<EventView>)
    ensures
        session_after(SessionView::initial(), completed_cycle(version, lengths) + rest) == (
        SessionView {
            remote_version: version,
            bytes_downloaded: total_length(lengths),
            state: UpdateState::Installed,
        }),
        actions_for(SessionView::initial(), completed_cycle(version, lengths) + rest) == seq![
            UpdateAction::CheckManifest,
            UpdateAction::Download,
        ] + repeated(UpdateAction::Continue, lengths.len()) + seq![
            UpdateAction::Install,
            UpdateAction::Restart,
        ] + repeated(UpdateAction::Stop, rest.len()),
        forall|i: int|
            0 <= i < (completed_cycle(version, lengths) + rest).len() ==> (#[trigger] actions_for(
                SessionView::initial(),
                completed_cycle(version, lengths) + rest,
            )[i] == UpdateAction::Restart <==> i == lengths.len() + 3),
{
    let start = SessionView::initial();
    let streamed = SessionView {
        remote_version: version,
        bytes_downloaded: total_length(lengths),
        state: UpdateState::Downloading,
    };
    let installed = SessionView { state: UpdateState::Installed, ..streamed };
    let tail = seq![EventView::DownloadCompleted, EventView::InstallSucceeded];
    lemma_download_started(version, lengths);
    lemma_two_events(streamed, EventView::DownloadCompleted, EventView::InstallSucceeded);
    lemma_session_after_concat(start, download_started(version, lengths), tail);
    lemma_actions_for_concat(start, download_started(version, lengths), tail);
    lemma_session_after_concat(start, completed_cycle(version, lengths), rest);
    lemma_actions_for_concat(start, completed_cycle(version, lengths), rest);
    lemma_ended_cycle_is_final(installed, rest);
}

/// When the stream breaks, the cycle ends in `Failed`. The bytes counted up
/// to the failure stay on record, and neither an installation nor a restart
/// is ever requested, whatever the host reports afterwards.
pub proof fn lemma_download_failed(version: Seq<char>, lengths: Seq<nat>, rest: Seq<EventView>)
    ensures
        session_after(SessionView::initial(), broken_cycle(version, lengths) + rest) == (
        SessionView {
            remote_version: version,
            bytes_downloaded: total_length(lengths),
            state: UpdateState::Failed,
        }),
        actions_for(SessionView::initial(), broken_cycle(version, lengths) + rest) == seq![
            UpdateAction::CheckManifest,
            UpdateAction::Download,
        ] + repeated(UpdateAction::Continue, lengths.len()) + seq![UpdateAction::Stop] + repeated(
            UpdateAction::Stop,
            rest.len(),
        ),
        forall|i: int|
            0 <= i < (broken_cycle(version, lengths) + rest).len() ==> {
                let action = #[trigger] actions_for(
                    SessionView::initial(),
                    broken_cycle(version, lengths) + rest,
                )[i];
                action != UpdateAction::Install && action != UpdateAction::Restart
            },
{
    let start = SessionView::initial();
    let streamed = SessionView {
        remote_version: version,
        bytes_downloaded: total_length(lengths),
        state: UpdateState::Downloading,
    };
    let failed = SessionView { state: UpdateState::Failed, ..streamed };
    let tail = seq![EventView::Failure];
    lemma_download_started(version, lengths);
    assert(session_after(streamed, tail) == failed && actions_for(streamed, tail) == seq![
        UpdateAction::Stop,
    ]) by {
        assert(tail.drop_last() == Seq::<EventView>::empty());
        assert(tail.take(0) == Seq::<EventView>::empty());
        assert(session_after(streamed, Seq::<EventView>::empty()) == streamed);
    }
    lemma_session_after_concat(start, download_started(version, lengths), tail);
    lemma_actions_for_concat(start, download_started(version, lengths), tail);
    lemma_session_after_concat(start, broken_cycle(version, lengths), rest);
    lemma_actions_for_concat(start, broken_cycle(version, lengths), rest);
    lemma_ended_cycle_is_final(failed, rest);
}

/// No cycle, whatever the host reports and wherever the controller starts,
/// draws more than one request to restart.
pub proof fn lemma_restart_at_most_once(s: SessionView, events: Seq<EventView>, i: int, j: int)
    requires
        0 <= i < j < events.len(),
        actions_for(s, events)[i] == UpdateAction::Restart,
    ensures
        actions_for(s, events)[j] == UpdateAction::Stop,
{
    let before = events.take(i);
    let upto = events.take(i + 1);
    let between = events.subrange(i + 1, j);
    assert(upto.drop_last() == before);
    assert(upto.last() == events[i]);
    assert(session_after(s, upto).state == UpdateState::Installed);
    assert(events.take(j) == upto + between);
    lemma_session_after_concat(s, upto, between);
    lemma_ended_cycle_is_final(session_after(s, upto), between);
}

/// Every session that a cycle reaches from the initial one is well formed.
pub proof fn lemma_cycle_is_well_formed(events: Seq<EventView>)
    ensures
        session_after(SessionView::initial(), events).well_formed(),
    decreases events.len(),
{
    if events.len() > 0 {
        lemma_cycle_is_well_formed(events.drop_last());
    }
}

} // verus!
