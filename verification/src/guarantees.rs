//! What holds of every instance and of every registry, whatever happens to
//! them and in whatever order.

use crate::error::ErrorView;
use crate::instance::{
    coherent, feed_step, finish_step, framed, output_step, poll_step, send_step, spawned,
    stop_command, stop_step, winding_down, FeedView, InstanceView, ProbeView, State,
};
use crate::manager::{finish_at, register_step, start_check, stop_at, ManagerView, SpawnView};
use crate::readiness::{announces, ReadinessView};
use vstd::prelude::*;

verus! {

/// Anything that can happen to an instance.
pub ghost enum Event {
    /// A caller sends a command; the probe is what a look at the process found.
    Send { msg: Seq<char>, probe: ProbeView },
    /// A caller asks for shutdown.
    Stop { probe: ProbeView },
    /// The process printed a line.
    Output { line: Seq<char> },
    /// The reading worker asks whether to go on.
    Poll,
    /// The feeding worker asks what to do.
    Feed,
    /// The caller completes shutdown.
    Finish,
}

/// The instance after one event.
pub open spec fn after(m: InstanceView, e: Event) -> InstanceView {
    match e {
        Event::Send { msg, probe } => send_step(m, msg, probe).0,
        Event::Stop { probe } => stop_step(m, probe).0,
        Event::Output { line } => output_step(m, line),
        Event::Poll => poll_step(m).0,
        Event::Feed => feed_step(m).0,
        Event::Finish => finish_step(m).0,
    }
}

/// The instance after a run of events, first to last.
pub open spec fn after_all(m: InstanceView, events: Seq<Event>) -> InstanceView
    decreases events.len(),
{
    if events.len() == 0 {
        m
    } else {
        after(after_all(m, events.drop_last()), events.last())
    }
}

/// The instance after a run of commands, each sent while the process is
/// running.
pub open spec fn after_sending(m: InstanceView, msgs: Seq<Seq<char>>) -> InstanceView
    decreases msgs.len(),
{
    if msgs.len() == 0 {
        m
    } else {
        send_step(after_sending(m, msgs.drop_last()), msgs.last(), ProbeView::Running).0
    }
}

/// How far an instance has come in its life.
pub open spec fn stage(state: State) -> nat {
    match state {
        State::Starting => 0,
        State::Ready => 1,
        State::Stopping => 2,
        State::Terminated => 3,
    }
}

/// No event takes an instance out of the condition in which it was made.
pub proof fn lemma_event_keeps_coherence(m: InstanceView, e: Event)
    requires
        coherent(m),
    ensures
        coherent(after(m, e)),
{
    match e {
        Event::Send { msg, probe } => {
            assert(m.accepted.push(msg) =~= m.delivered + m.queue.push(msg));
        },
        Event::Stop { probe } => {
            assert(m.accepted.push(stop_command()) =~= m.delivered + m.queue.push(stop_command()));
        },
        Event::Output { line } => {},
        Event::Poll => {},
        Event::Feed => {
            assert(m.accepted =~= (m.delivered + m.queue) + Seq::<Seq<char>>::empty());
        },
        Event::Finish => {},
    }
}

/// A freshly spawned instance stays in order through any run of events.
pub proof fn lemma_run_keeps_coherence(m: InstanceView, events: Seq<Event>)
    requires
        coherent(m),
    ensures
        coherent(after_all(m, events)),
    decreases events.len(),
{
    if events.len() > 0 {
        lemma_run_keeps_coherence(m, events.drop_last());
        lemma_event_keeps_coherence(after_all(m, events.drop_last()), events.last());
    }
}

/// An instance leaves the starting state in one way only: a line of its
/// output shows the marker, and that makes it ready. Such a line always
/// does so.
pub proof fn lemma_ready_by_marker_only(m: InstanceView, e: Event)
    requires
        m.state is Starting,
    ensures
        !(after(m, e).state is Starting) <==> (e is Output && announces(
            e->line,
            m.marker,
            m.place,
        )),
        !(after(m, e).state is Starting) ==> after(m, e).state is Ready,
{
}

/// An instance never moves back in its life. In particular it becomes ready
/// at most once: having left the starting state, it does not return to it.
pub proof fn lemma_life_moves_forward(m: InstanceView, e: Event)
    ensures
        stage(m.state) <= stage(after(m, e).state),
        after(m, e).id == m.id,
        after(m, e).port == m.port,
        after(m, e).marker == m.marker,
        after(m, e).place == m.place,
{
}

/// The history of the output only grows, and only at its end: what a caller
/// has read stays where it was.
pub proof fn lemma_history_only_grows(m: InstanceView, e: Event)
    ensures
        m.console.is_prefix_of(after(m, e).console),
{
    match e {
        Event::Output { line } => {
            assert(m.console =~= m.console.push(line).subrange(0, m.console.len() as int));
        },
        _ => {},
    }
}

/// Commands are taken in at the end of the record and handed on from its
/// front: what was taken in stays taken in, and what was handed on stays
/// handed on, in the same order.
pub proof fn lemma_commands_keep_order(m: InstanceView, e: Event)
    ensures
        m.accepted.is_prefix_of(after(m, e).accepted),
        m.delivered.is_prefix_of(after(m, e).delivered),
{
    match e {
        Event::Send { msg, probe } => {
            assert(m.accepted =~= m.accepted.push(msg).subrange(0, m.accepted.len() as int));
        },
        Event::Stop { probe } => {
            assert(m.accepted =~= m.accepted.push(stop_command()).subrange(
                0,
                m.accepted.len() as int,
            ));
        },
        Event::Feed => {
            assert(m.delivered =~= (m.delivered + m.queue).subrange(0, m.delivered.len() as int));
        },
        _ => {},
    }
}

/// Once the feeding worker has finished, every command that was ever taken
/// in has been handed on to the process, in the order of the calls.
pub proof fn lemma_nothing_lost(m: InstanceView)
    requires
        coherent(m),
        m.input_closed,
    ensures
        m.delivered == m.accepted,
{
    assert(m.delivered + m.queue =~= m.delivered);
}

/// Whatever happens to an instance after it was spawned, a feeding worker
/// that has finished has handed on every command that was taken in.
pub proof fn lemma_no_run_loses_commands(
    id: Seq<char>,
    port: u32,
    readiness: ReadinessView,
    events: Seq<Event>,
)
    ensures
        after_all(spawned(id, port, readiness), events).input_closed ==> after_all(
            spawned(id, port, readiness),
            events,
        ).delivered == after_all(spawned(id, port, readiness), events).accepted,
{
    let start = spawned(id, port, readiness);
    assert(start.accepted =~= start.delivered + start.queue);
    lemma_run_keeps_coherence(start, events);
    if after_all(start, events).input_closed {
        lemma_nothing_lost(after_all(start, events));
    }
}

/// Sending commands to an instance that is not shutting down, while its
/// process runs, puts them behind what waits, in the order of the calls,
/// and changes nothing else.
pub proof fn lemma_sending_queues_in_order(m: InstanceView, msgs: Seq<Seq<char>>)
    requires
        !winding_down(m.state),
    ensures
        after_sending(m, msgs) == (InstanceView {
            queue: m.queue + msgs,
            accepted: m.accepted + msgs,
            ..m
        }),
    decreases msgs.len(),
{
    if msgs.len() == 0 {
        assert(m.queue + msgs =~= m.queue);
        assert(m.accepted + msgs =~= m.accepted);
    } else {
        lemma_sending_queues_in_order(m, msgs.drop_last());
        assert((m.queue + msgs.drop_last()).push(msgs.last()) =~= m.queue + msgs);
        assert((m.accepted + msgs.drop_last()).push(msgs.last()) =~= m.accepted + msgs);
    }
}

/// Commands sent to a ready instance and followed by a stop all reach the
/// process before its input is closed: the feeding worker is first told to
/// write whatever waited, then the commands in the order of the calls, then
/// the stop command, each with its line feed; only when asked again is it
/// told to close.
pub proof fn lemma_graceful_stop_delivers_all(m: InstanceView, msgs: Seq<Seq<char>>)
    requires
        coherent(m),
        m.state is Ready,
    ensures
        ({
            let sent = after_sending(m, msgs);
            let (stopping, stopped) = stop_step(sent, ProbeView::Running);
            let (fed, first) = feed_step(stopping);
            let (closed, second) = feed_step(fed);
            &&& stopped == Ok::<(), ErrorView>(())
            &&& first == FeedView::Write(framed(m.queue + msgs.push(stop_command())))
            &&& second == FeedView::Closed
            &&& closed.input_closed
            &&& closed.delivered == m.accepted + msgs.push(stop_command())
            &&& closed.delivered == closed.accepted
        }),
{
    lemma_sending_queues_in_order(m, msgs);
    let sent = after_sending(m, msgs);
    let (stopping, stopped) = stop_step(sent, ProbeView::Running);
    let (fed, first) = feed_step(stopping);
    let (closed, second) = feed_step(fed);
    assert(stopping.queue =~= m.queue + msgs.push(stop_command()));
    assert(stopping.accepted =~= m.accepted + msgs.push(stop_command()));
    assert(stopping.queue.len() > 0);
    assert(fed.delivered =~= m.accepted + msgs.push(stop_command())) by {
        assert(m.accepted =~= m.delivered + m.queue);
    }
    assert(fed.queue.len() == 0);
}

/// Once shutdown has been asked for, the workers finish of their own accord:
/// the reading worker when it next asks, the feeding worker when it asks for
/// the second time at the latest.
pub proof fn lemma_workers_wind_down(m: InstanceView)
    requires
        winding_down(m.state),
    ensures
        !poll_step(m).1,
        poll_step(m).0.output_closed,
        feed_step(feed_step(m).0).0.input_closed,
        feed_step(feed_step(m).0).1 == FeedView::Closed,
{
}

/// A server that was registered cannot be started a second time: the second
/// attempt is refused as already online, at the check and at the
/// registration, and the registry with the first instance stays as it was.
pub proof fn lemma_second_start_refused(
    m: ManagerView,
    id: Seq<char>,
    port: u32,
    spawn: SpawnView,
    probe: ProbeView,
    again_port: u32,
    again_spawn: SpawnView,
    again_probe: ProbeView,
)
    requires
        register_step(m, id, port, spawn, probe).1 is Ok,
    ensures
        ({
            let (registered, _) = register_step(m, id, port, spawn, probe);
            &&& start_check(registered, id, true) == Err::<(), ErrorView>(
                ErrorView::ServerAlreadyOnline,
            )
            &&& register_step(registered, id, again_port, again_spawn, again_probe) == (
                registered,
                Err::<u32, ErrorView>(ErrorView::ServerAlreadyOnline),
            )
        }),
{
}

/// Stopping a server that is not registered fails as offline and changes
/// nothing.
pub proof fn lemma_stop_unregistered(m: ManagerView, id: Seq<char>, probe: ProbeView)
    requires
        !m.instances.dom().contains(id),
    ensures
        stop_at(m, id, probe) == (m, Err::<(), ErrorView>(ErrorView::ServerOffline)),
        finish_at(m, id) == (m, Err::<(), ErrorView>(ErrorView::ServerOffline)),
{
}

/// Stopping a ready server whose process has died does not wait for
/// anything that cannot come: shutdown begins, the workers finish when they
/// next ask (the feeding one after writing what still waited), and
/// completing the shutdown takes the server out of the registry and reports
/// that the process had exited.
pub proof fn lemma_stop_of_dead_process(m: ManagerView, id: Seq<char>)
    requires
        m.instances.dom().contains(id),
        m.instances[id].state is Ready,
    ensures
        ({
            let (stopping, begun) = stop_at(m, id, ProbeView::Exited);
            let read = poll_step(stopping.instances[id]).0;
            let fed = feed_step(feed_step(read).0).0;
            let wound_down = ManagerView { instances: stopping.instances.insert(id, fed), ..m };
            &&& begun == Ok::<(), ErrorView>(())
            &&& finish_at(wound_down, id) == (
                ManagerView { instances: m.instances.remove(id), ..m },
                Err::<(), ErrorView>(ErrorView::ServerProcessExited),
            )
        }),
{
    let (stopping, begun) = stop_at(m, id, ProbeView::Exited);
    let read = poll_step(stopping.instances[id]).0;
    let fed = feed_step(feed_step(read).0).0;
    let wound_down = ManagerView { instances: stopping.instances.insert(id, fed), ..m };
    assert(wound_down.instances.remove(id) =~= m.instances.remove(id));
}

/// Stopping a ready server whose process runs, then letting the workers
/// finish, then completing the shutdown succeeds and takes the server out
/// of the registry.
pub proof fn lemma_stop_of_live_process(m: ManagerView, id: Seq<char>)
    requires
        m.instances.dom().contains(id),
        m.instances[id].state is Ready,
        coherent(m.instances[id]),
    ensures
        ({
            let (stopping, begun) = stop_at(m, id, ProbeView::Running);
            let read = poll_step(stopping.instances[id]).0;
            let fed = feed_step(feed_step(read).0).0;
            let wound_down = ManagerView { instances: stopping.instances.insert(id, fed), ..m };
            &&& begun == Ok::<(), ErrorView>(())
            &&& finish_at(wound_down, id) == (
                ManagerView { instances: m.instances.remove(id), ..m },
                Ok::<(), ErrorView>(()),
            )
        }),
{
    let (stopping, begun) = stop_at(m, id, ProbeView::Running);
    let read = poll_step(stopping.instances[id]).0;
    let fed = feed_step(feed_step(read).0).0;
    let wound_down = ManagerView { instances: stopping.instances.insert(id, fed), ..m };
    assert(read.queue.len() > 0);
    assert(wound_down.instances.remove(id) =~= m.instances.remove(id));
}

/// A server leaves the registry only with both workers finished, and with
/// every command that it ever took in handed on to its process.
pub proof fn lemma_removed_server_lost_nothing(m: ManagerView, id: Seq<char>)
    requires
        m.instances.dom().contains(id),
        coherent(m.instances[id]),
        !finish_at(m, id).0.instances.dom().contains(id),
    ensures
        m.instances[id].input_closed,
        m.instances[id].output_closed,
        m.instances[id].delivered == m.instances[id].accepted,
{
    lemma_nothing_lost(m.instances[id]);
}

/// Beginning or completing the shutdown of one server leaves every other
/// server as it was.
pub proof fn lemma_stop_leaves_the_others(
    m: ManagerView,
    id: Seq<char>,
    probe: ProbeView,
    other: Seq<char>,
)
    requires
        other != id,
    ensures
        stop_at(m, id, probe).0.instances.dom().contains(other) == m.instances.dom().contains(
            other,
        ),
        finish_at(m, id).0.instances.dom().contains(other) == m.instances.dom().contains(other),
        m.instances.dom().contains(other) ==> stop_at(m, id, probe).0.instances[other]
            == m.instances[other] && finish_at(m, id).0.instances[other] == m.instances[other],
{
}

} // verus!
