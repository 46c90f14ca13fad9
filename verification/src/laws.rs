//! What holds of every run of a connection.
//!
//! A run is a connection as it stands at some moment, and the events that
//! it takes up from then on, each with the reading of the clock at which it
//! is taken up.

use vstd::prelude::*;
use crate::connection::{ConnectionView, PhaseView, TerminalCondition};
use crate::effect::{CommandView, NoticeView, ReactionView};
use crate::event::{EventView, TimedView};
use crate::frame::{CloseReasonView, FrameView};
use crate::multiplexer::{lemma_stopped_stays, reaction_at, state_after};

verus! {

/// Whether the clock never reads earlier than before: no event of `trace`
/// is taken up before `since`, nor before an event in front of it.
pub open spec fn chronological(since: u64, trace: Seq<TimedView>) -> bool {
    &&& forall|i: int| 0 <= i < trace.len() ==> since <= (#[trigger] trace[i]).at
    &&& forall|i: int, j: int|
        0 <= i <= j < trace.len() ==> (#[trigger] trace[i]).at <= (#[trigger] trace[j]).at
}

/// The moment of the last ping or pong among the first `n` events of
/// `trace`, and `since` if there is none among them.
pub open spec fn latest_sign_of_life(since: u64, trace: Seq<TimedView>, n: nat) -> u64
    decreases n,
{
    if n == 0 {
        since
    } else if trace[n - 1].event.confirms_liveness() {
        trace[n - 1].at
    } else {
        latest_sign_of_life(since, trace, (n - 1) as nat)
    }
}

/// Whether the event at position `i` of `trace` is taken up no more than
/// `timeout` after the last sign of life in front of it.
pub open spec fn in_time(since: u64, trace: Seq<TimedView>, timeout: u64, i: int) -> bool {
    trace[i].at - latest_sign_of_life(since, trace, i as nat) <= timeout
}

/// In a chronological trace no sign of life is later than an event that
/// follows it.
proof fn lemma_sign_of_life_is_past(since: u64, trace: Seq<TimedView>, n: nat, k: int)
    requires
        chronological(since, trace),
        n <= k < trace.len(),
    ensures
        latest_sign_of_life(since, trace, n) <= trace[k].at,
    decreases n,
{
    if n > 0 && !trace[n - 1].event.confirms_liveness() {
        lemma_sign_of_life_is_past(since, trace, (n - 1) as nat, k);
    }
}

/// A loop that runs after `n` events ran after every shorter prefix.
proof fn lemma_running_so_far(start: ConnectionView, trace: Seq<TimedView>, m: nat, n: nat)
    requires
        m <= n,
        state_after(start, trace, n).is_running(),
    ensures
        state_after(start, trace, m).is_running(),
{
    if !state_after(start, trace, m).is_running() {
        lemma_stopped_stays(start, trace, m, n);
    }
}

/// Who a connection belongs to and the options that it was opened with are
/// the same after every event.
pub proof fn law_identity_and_options_stay(start: ConnectionView, trace: Seq<TimedView>, n: nat)
    ensures
        state_after(start, trace, n).identity == start.identity,
        state_after(start, trace, n).config == start.config,
    decreases n,
{
    if n > 0 {
        law_identity_and_options_stay(start, trace, (n - 1) as nat);
    }
}

/// The moment of the last sign of life never moves back, whatever the
/// events and whatever the clock reads.
pub proof fn law_last_alive_never_moves_back(
    start: ConnectionView,
    trace: Seq<TimedView>,
    m: nat,
    n: nat,
)
    requires
        m <= n,
    ensures
        state_after(start, trace, m).last_alive <= state_after(start, trace, n).last_alive,
    decreases n,
{
    if m < n {
        law_last_alive_never_moves_back(start, trace, m, (n - 1) as nat);
    }
}

/// A close reason is kept only for a connection that its client closed,
/// after every event.
pub proof fn law_well_formed_stays(start: ConnectionView, trace: Seq<TimedView>, n: nat)
    requires
        start.well_formed(),
    ensures
        state_after(start, trace, n).well_formed(),
    decreases n,
{
    if n > 0 {
        law_well_formed_stays(start, trace, (n - 1) as nat);
    }
}

/// While the loop runs under a clock that never goes back, the recorded
/// moment is that of the last ping or pong.
proof fn lemma_record_is_latest_sign(start: ConnectionView, trace: Seq<TimedView>, n: nat)
    requires
        chronological(start.last_alive, trace),
        n <= trace.len(),
        state_after(start, trace, n).is_running(),
    ensures
        state_after(start, trace, n).last_alive == latest_sign_of_life(
            start.last_alive,
            trace,
            n,
        ),
    decreases n,
{
    if n > 0 {
        let before = (n - 1) as nat;
        lemma_running_so_far(start, trace, before, n);
        lemma_record_is_latest_sign(start, trace, before);
        lemma_sign_of_life_is_past(start.last_alive, trace, before, n - 1);
    }
}

/// A connection is never timed out as long as every tick of the timer
/// finds the last ping or pong no further back than the timeout.
pub proof fn law_timely_signs_of_life_prevent_timeout(
    start: ConnectionView,
    trace: Seq<TimedView>,
    n: nat,
)
    requires
        start.is_running(),
        chronological(start.last_alive, trace),
        n <= trace.len(),
        forall|i: int|
            0 <= i < trace.len() && (#[trigger] trace[i]).event is Tick ==> in_time(
                start.last_alive,
                trace,
                start.config.client_timeout_ms,
                i,
            ),
    ensures
        state_after(start, trace, n).terminal_condition() != Some(
            TerminalCondition::LivenessTimeout,
        ),
    decreases n,
{
    if n > 0 {
        let before = (n - 1) as nat;
        let taken = trace[n - 1];
        law_timely_signs_of_life_prevent_timeout(start, trace, before);
        if state_after(start, trace, before).is_running() {
            lemma_record_is_latest_sign(start, trace, before);
            lemma_sign_of_life_is_past(start.last_alive, trace, before, n - 1);
            law_identity_and_options_stay(start, trace, before);
            if taken.event is Tick {
                assert(in_time(start.last_alive, trace, start.config.client_timeout_ms, n - 1));
            }
        }
    }
}

/// Every event in front of a ping or pong is in time if the pings and
/// pongs themselves are.
proof fn lemma_covered_by_next_sign(
    since: u64,
    trace: Seq<TimedView>,
    timeout: u64,
    i: int,
    j: int,
)
    requires
        chronological(since, trace),
        0 <= i <= j < trace.len(),
        trace[j].event.confirms_liveness(),
        forall|k: int|
            0 <= k < trace.len() && (#[trigger] trace[k]).event.confirms_liveness() ==> in_time(
                since,
                trace,
                timeout,
                k,
            ),
    ensures
        in_time(since, trace, timeout, i),
    decreases j - i,
{
    if i < j && !trace[i].event.confirms_liveness() {
        lemma_covered_by_next_sign(since, trace, timeout, i + 1, j);
        assert(trace[i].at <= trace[i + 1].at);
        assert(latest_sign_of_life(since, trace, (i + 1) as nat) == latest_sign_of_life(
            since,
            trace,
            i as nat,
        ));
    }
}

/// A client whose pings and pongs are spaced no more than the timeout
/// apart is never timed out: if each ping or pong comes no more than the
/// timeout after the one before it (the first of them after the moment
/// from which the run is counted), then no tick that has a ping or pong
/// still behind it ends the connection.
pub proof fn law_spaced_signs_of_life_prevent_timeout(
    start: ConnectionView,
    trace: Seq<TimedView>,
    n: nat,
)
    requires
        start.is_running(),
        chronological(start.last_alive, trace),
        n <= trace.len(),
        forall|k: int|
            0 <= k < trace.len() && (#[trigger] trace[k]).event.confirms_liveness() ==> in_time(
                start.last_alive,
                trace,
                start.config.client_timeout_ms,
                k,
            ),
        forall|i: int|
            0 <= i < trace.len() && (#[trigger] trace[i]).event is Tick ==> exists|j: int|
                i < j < trace.len() && (#[trigger] trace[j]).event.confirms_liveness(),
    ensures
        state_after(start, trace, n).terminal_condition() != Some(
            TerminalCondition::LivenessTimeout,
        ),
{
    assert forall|i: int|
        0 <= i < trace.len() && (#[trigger] trace[i]).event is Tick implies in_time(
        start.last_alive,
        trace,
        start.config.client_timeout_ms,
        i,
    ) by {
        let j = choose|j: int|
            i < j < trace.len() && (#[trigger] trace[j]).event.confirms_liveness();
        lemma_covered_by_next_sign(
            start.last_alive,
            trace,
            start.config.client_timeout_ms,
            i,
            j,
        );
    }
    law_timely_signs_of_life_prevent_timeout(start, trace, n);
}

/// Before the tick that finds the client silent for too long, the loop
/// either runs or has already timed out.
proof fn lemma_running_or_timed_out(start: ConnectionView, trace: Seq<TimedView>, n: nat)
    requires
        start.is_running(),
        n <= trace.len(),
        forall|j: int| 0 <= j < n ==> !(#[trigger] trace[j]).event.ends_connection(),
    ensures
        state_after(start, trace, n).is_running() || state_after(start, trace, n).phase == (
        PhaseView::Terminated { condition: TerminalCondition::LivenessTimeout, reason: None }),
    decreases n,
{
    if n > 0 {
        lemma_running_or_timed_out(start, trace, (n - 1) as nat);
        assert(!trace[n - 1].event.ends_connection());
    }
}

/// Silence for longer than the timeout ends the connection: when a tick
/// finds the last ping or pong further back than the timeout, and nothing
/// else has ended the loop before (no close frame, no failure or end of
/// the frame stream, no loss of the fan-in channel), the loop stops with a
/// liveness timeout and without a close reason, and stays so.
pub proof fn law_silence_ends_in_timeout(
    start: ConnectionView,
    trace: Seq<TimedView>,
    i: int,
    n: nat,
)
    requires
        start.is_running(),
        chronological(start.last_alive, trace),
        0 <= i < n <= trace.len(),
        trace[i].event is Tick,
        !in_time(start.last_alive, trace, start.config.client_timeout_ms, i),
        forall|j: int| 0 <= j < i ==> !(#[trigger] trace[j]).event.ends_connection(),
    ensures
        state_after(start, trace, n).phase == (PhaseView::Terminated {
            condition: TerminalCondition::LivenessTimeout,
            reason: None,
        }),
        state_after(start, trace, n).terminal_condition() == Some(
            TerminalCondition::LivenessTimeout,
        ),
        state_after(start, trace, n).close_reason() is None,
{
    let before = i as nat;
    lemma_running_or_timed_out(start, trace, before);
    if state_after(start, trace, before).is_running() {
        lemma_record_is_latest_sign(start, trace, before);
        lemma_sign_of_life_is_past(start.last_alive, trace, before, i);
        law_identity_and_options_stay(start, trace, before);
    }
    assert(state_after(start, trace, (i + 1) as nat).phase == (PhaseView::Terminated {
        condition: TerminalCondition::LivenessTimeout,
        reason: None,
    }));
    lemma_stopped_stays(start, trace, (i + 1) as nat, n);
}

/// A close frame ends the loop of a running connection with the reason
/// that it carries. The teardown that follows takes the connection off the
/// registrar once, under its room and user, and then closes with exactly
/// that reason; asked again, it has nothing left to do.
pub proof fn law_close_frame_reaches_teardown(
    connection: ConnectionView,
    reason: Option<CloseReasonView>,
    now: u64,
)
    requires
        connection.is_running(),
    ensures
        ({
            let (stopped, reaction) = connection.step(
                EventView::Frame(FrameView::Close(reason)),
                now,
            );
            let (closed, plan) = stopped.shutdown();
            &&& reaction == ReactionView::idle()
            &&& stopped.terminal_condition() == Some(TerminalCondition::ClientClose)
            &&& stopped.close_reason() == reason
            &&& plan == seq![
                CommandView::Disconnect {
                    room_id: connection.identity.room_id,
                    user_id: connection.identity.user_id,
                },
                CommandView::Close(reason),
            ]
            &&& closed.shutdown() == (closed, Seq::<CommandView>::empty())
        }),
{
}

/// Asking for the teardown again is harmless: whatever the connection,
/// a teardown that follows a teardown changes nothing and has nothing left
/// to do, so nothing is taken off the registrar twice.
pub proof fn law_teardown_is_handed_out_once(connection: ConnectionView)
    ensures
        ({
            let (closed, plan) = connection.shutdown();
            &&& closed.shutdown() == (closed, Seq::<CommandView>::empty())
            &&& connection.is_running() ==> closed == connection && plan == Seq::<
                CommandView,
            >::empty()
            &&& closed.identity == connection.identity
            &&& closed.last_alive == connection.last_alive
        }),
{
}

/// The loss of the fan-in channel is logged above everything else, and a
/// failed operation above the ordinary course of a connection.
pub proof fn law_channel_loss_weighs_most(notice: NoticeView)
    ensures
        notice.severity().rank() <= NoticeView::ChannelClosed.severity().rank(),
        notice.severity().rank() == NoticeView::ChannelClosed.severity().rank() <==> notice
            is ChannelClosed,
        notice is SendFailed ==> notice.severity().rank() > NoticeView::TimedOut.severity().rank(),
{
}

/// No step of the loop registers the connection, takes it off the
/// registrar or closes the transport: that is left to the opening and to
/// the teardown.
pub proof fn law_loop_leaves_teardown_alone(connection: ConnectionView, event: EventView, now: u64)
    ensures
        ({
            let command = connection.step(event, now).1.command;
            &&& !(command matches Some(CommandView::Connect { .. }))
            &&& !(command matches Some(CommandView::Disconnect { .. }))
            &&& !(command matches Some(CommandView::Close(_)))
        }),
{
}

/// However the loop of a connection came to stop, its teardown takes it
/// off the registrar exactly once: the loop itself never does, the
/// teardown does so first, under the room and the user of the connection,
/// then closes with the reason that the loop returned, and a teardown that
/// is asked for again has nothing left to do.
pub proof fn law_teardown_disconnects_once(start: ConnectionView, trace: Seq<TimedView>, n: nat)
    requires
        start.is_running(),
        n <= trace.len(),
        !state_after(start, trace, n).is_running(),
    ensures
        ({
            let stopped = state_after(start, trace, n);
            let (closed, plan) = stopped.shutdown();
            &&& stopped.phase is Terminated
            &&& forall|i: int|
                0 <= i < trace.len() ==> !(#[trigger] reaction_at(start, trace, i).command matches Some(
                    CommandView::Disconnect { .. },
                ))
            &&& plan == seq![
                CommandView::Disconnect {
                    room_id: start.identity.room_id,
                    user_id: start.identity.user_id,
                },
                CommandView::Close(stopped.close_reason()),
            ]
            &&& closed.phase is ShutDown
            &&& closed.terminal_condition() == stopped.terminal_condition()
            &&& closed.shutdown() == (closed, Seq::<CommandView>::empty())
            &&& forall|event: EventView, now: u64|
                (#[trigger] closed.step(event, now)).0 == closed && closed.step(
                    event,
                    now,
                ).1.command is None
        }),
{
    lemma_never_shut_down_by_step(start, trace, n);
    law_identity_and_options_stay(start, trace, n);
    assert forall|i: int| 0 <= i < trace.len() implies !(#[trigger] reaction_at(
        start,
        trace,
        i,
    ).command matches Some(CommandView::Disconnect { .. })) by {
        law_loop_leaves_teardown_alone(
            state_after(start, trace, i as nat),
            trace[i].event,
            trace[i].at,
        );
    }
}

/// The loop alone never reaches the phase that follows the teardown.
proof fn lemma_never_shut_down_by_step(start: ConnectionView, trace: Seq<TimedView>, n: nat)
    requires
        start.is_running(),
    ensures
        !(state_after(start, trace, n).phase is ShutDown),
    decreases n,
{
    if n > 0 {
        lemma_never_shut_down_by_step(start, trace, (n - 1) as nat);
    }
}

/// What a connection hands to the registrar stays in its own room, and
/// what it writes to its client as text is what the registrar delivered to
/// it: every broadcast carries the room and the user of the connection,
/// and a text frame is written for a fan-in message alone, with that
/// message as it came.
pub proof fn law_messages_keep_their_room(start: ConnectionView, trace: Seq<TimedView>, i: int)
    requires
        0 <= i < trace.len(),
    ensures
        ({
            let command = reaction_at(start, trace, i).command;
            &&& command matches Some(CommandView::Broadcast { room_id, user_id, .. }) ==> {
                &&& room_id == start.identity.room_id
                &&& user_id == start.identity.user_id
                &&& trace[i].event matches EventView::Frame(frame)
                &&& frame is Text
            }
            &&& command matches Some(CommandView::SendText(text)) ==> trace[i].event
                == EventView::FanIn(text)
        }),
{
    law_identity_and_options_stay(start, trace, i as nat);
}

} // verus!
