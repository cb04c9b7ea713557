//! One supervised process: its lifecycle, its console history and its queue
//! of pending commands.
//!
//! The process itself, its pipes and the two workers that move data through
//! them live outside this module. Whoever runs them reports here what
//! happened (the outcome of a liveness probe, a line that was read) and is
//! told what to do next (what to write, whether to go on).

use crate::console::{tail_from, texts, CommandQueue, ConsoleBuffer};
use crate::error::{outcome, Error, ErrorView};
use crate::readiness::{announces, shows_marker, MarkerPlace, Readiness, ReadinessView};
use vstd::prelude::*;
use vstd::string::*;

verus! {

/// Where a supervised process is in its life.
#[derive(Debug, Clone, Copy, PartialEq, Eq, Structural)]
pub enum State {
    /// The process has been spawned and has not yet shown that it is ready.
    Starting,
    /// The process takes commands.
    Ready,
    /// Shutdown has begun: the workers are winding down.
    Stopping,
    /// The workers have finished and the process is gone.
    Terminated,
}

/// What a non-blocking look at the process found.
#[derive(Debug, PartialEq, Eq)]
pub enum Probe {
    /// The process has not exited.
    Running,
    /// The process has exited.
    Exited,
    /// The look itself failed; the text says how.
    Failed(String),
}

/// A probe as contracts speak of it.
pub ghost enum ProbeView {
    Running,
    Exited,
    Failed(Seq<char>),
}

impl View for Probe {
    type V = ProbeView;

    open spec fn view(&self) -> ProbeView {
        match *self {
            Probe::Running => ProbeView::Running,
            Probe::Exited => ProbeView::Exited,
            Probe::Failed(a) => ProbeView::Failed(a@),
        }
    }
}

/// What the worker that feeds the process's input has to do next.
#[derive(Debug, PartialEq, Eq)]
pub enum Feed {
    /// Write these texts to the input, in this order, flushing after each.
    /// Each is one command followed by a line feed.
    Write(Vec<String>),
    /// Nothing waits; look again later.
    Idle,
    /// Shutdown was asked for and nothing waits: close the input and finish.
    Closed,
}

/// A feed as contracts speak of it.
pub ghost enum FeedView {
    Write(Seq<Seq<char>>),
    Idle,
    Closed,
}

impl View for Feed {
    type V = FeedView;

    open spec fn view(&self) -> FeedView {
        match *self {
            Feed::Write(lines) => FeedView::Write(texts(lines@)),
            Feed::Idle => FeedView::Idle,
            Feed::Closed => FeedView::Closed,
        }
    }
}

/// An instance as contracts speak of it.
pub ghost struct InstanceView {
    /// The key under which the instance is registered.
    pub id: Seq<char>,
    /// The port that the process was told to bind.
    pub port: u32,
    pub state: State,
    /// Every line that the process printed, oldest first.
    pub console: Seq<Seq<char>>,
    /// The commands that wait to be written, first queued first.
    pub queue: Seq<Seq<char>>,
    /// Every command that was taken in since the process was spawned, in the
    /// order of the calls.
    pub accepted: Seq<Seq<char>>,
    /// Every command that was handed on to the process's input, in the order
    /// in which it was handed on.
    pub delivered: Seq<Seq<char>>,
    /// The worker that feeds the input has finished.
    pub input_closed: bool,
    /// The worker that reads the output has finished.
    pub output_closed: bool,
    /// Shutdown found the process gone already.
    pub crashed: bool,
    /// The text whose appearance in the output shows readiness.
    pub marker: Seq<char>,
    pub place: MarkerPlace,
}

/// Shutdown has been asked for: the workers are to finish.
pub open spec fn winding_down(state: State) -> bool {
    state is Stopping || state is Terminated
}

/// What holds of an instance at all times: a command that was taken in has
/// been handed on or still waits, in the order of the calls; and a worker
/// finishes only once shutdown has been asked for, the feeding one with
/// nothing left waiting.
pub open spec fn coherent(m: InstanceView) -> bool {
    &&& m.accepted == m.delivered + m.queue
    &&& m.input_closed ==> m.queue.len() == 0 && winding_down(m.state)
    &&& m.output_closed ==> winding_down(m.state)
    &&& m.crashed ==> winding_down(m.state)
    &&& m.state is Terminated ==> m.input_closed && m.output_closed
}

/// The command that asks the process to shut down of its own accord.
pub open spec fn stop_command() -> Seq<char> {
    "/stop"@
}

/// Each command followed by a line feed.
pub open spec fn framed(lines: Seq<Seq<char>>) -> Seq<Seq<char>> {
    Seq::new(lines.len(), |i: int| lines[i].push('\n'))
}

/// An instance as it is when its process has just been spawned: the
/// handshake commands wait in the queue and nothing has been printed.
pub open spec fn spawned(id: Seq<char>, port: u32, readiness: ReadinessView) -> InstanceView {
    InstanceView {
        id,
        port,
        state: State::Starting,
        console: Seq::empty(),
        queue: readiness.commands,
        accepted: readiness.commands,
        delivered: Seq::empty(),
        input_closed: false,
        output_closed: false,
        crashed: false,
        marker: readiness.marker,
        place: readiness.place,
    }
}

/// What a probe says to an operation that needs the process alive.
pub open spec fn alive(probe: ProbeView) -> Result<(), ErrorView> {
    match probe {
        ProbeView::Running => Ok(()),
        ProbeView::Exited => Err(ErrorView::ServerProcessExited),
        ProbeView::Failed(a) => Err(ErrorView::IoError(a)),
    }
}

/// What a probe says of the process: alive, gone, or not known.
pub open spec fn validity(probe: ProbeView) -> Result<bool, ErrorView> {
    match probe {
        ProbeView::Running => Ok(true),
        ProbeView::Exited => Ok(false),
        ProbeView::Failed(a) => Err(ErrorView::IoError(a)),
    }
}

/// Taking in a command. Once shutdown has been asked for the instance counts
/// as offline; a process that is gone takes no commands; otherwise the
/// command joins the tail of the queue.
pub open spec fn send_step(m: InstanceView, msg: Seq<char>, probe: ProbeView) -> (
    InstanceView,
    Result<(), ErrorView>,
) {
    if winding_down(m.state) {
        (m, Err(ErrorView::ServerOffline))
    } else if alive(probe) is Err {
        (m, alive(probe))
    } else {
        (InstanceView { queue: m.queue.push(msg), accepted: m.accepted.push(msg), ..m }, Ok(()))
    }
}

/// Beginning shutdown. Only a ready instance can be stopped. If the process
/// is still there, the stop command is queued behind whatever waits; if it is
/// gone, that is noted. Either way the workers are told to finish.
pub open spec fn stop_step(m: InstanceView, probe: ProbeView) -> (
    InstanceView,
    Result<(), ErrorView>,
) {
    match m.state {
        State::Starting => (m, Err(ErrorView::ServerStillStarting)),
        State::Stopping => (m, Err(ErrorView::ServerOffline)),
        State::Terminated => (m, Err(ErrorView::ServerOffline)),
        State::Ready => match probe {
            ProbeView::Failed(a) => (m, Err(ErrorView::IoError(a))),
            ProbeView::Exited => (InstanceView { state: State::Stopping, crashed: true, ..m }, Ok(())),
            ProbeView::Running => (
                InstanceView {
                    state: State::Stopping,
                    queue: m.queue.push(stop_command()),
                    accepted: m.accepted.push(stop_command()),
                    ..m
                },
                Ok(()),
            ),
        },
    }
}

/// Recording a line that the process printed. The line joins the history;
/// an instance that was starting becomes ready if the line shows the marker.
pub open spec fn output_step(m: InstanceView, line: Seq<char>) -> InstanceView {
    InstanceView {
        console: m.console.push(line),
        state: if m.state is Starting && announces(line, m.marker, m.place) {
            State::Ready
        } else {
            m.state
        },
        ..m
    }
}

/// The reading worker asks whether to go on. It goes on until shutdown has
/// been asked for; then it finishes.
pub open spec fn poll_step(m: InstanceView) -> (InstanceView, bool) {
    if winding_down(m.state) {
        (InstanceView { output_closed: true, ..m }, false)
    } else {
        (m, true)
    }
}

/// The feeding worker asks what to do. Whatever waits is handed over at once
/// and whole. With nothing waiting the worker finishes if shutdown has been
/// asked for, and idles otherwise.
pub open spec fn feed_step(m: InstanceView) -> (InstanceView, FeedView) {
    if m.queue.len() > 0 {
        (
            InstanceView { queue: Seq::empty(), delivered: m.delivered + m.queue, ..m },
            FeedView::Write(framed(m.queue)),
        )
    } else if winding_down(m.state) {
        (InstanceView { input_closed: true, ..m }, FeedView::Closed)
    } else {
        (m, FeedView::Idle)
    }
}

/// Completing shutdown, once the workers have been joined and the process
/// reaped. It is refused while the instance is starting or a worker has not
/// finished. Otherwise the instance is terminated, and the result tells
/// whether the process had been found gone when shutdown began.
pub open spec fn finish_step(m: InstanceView) -> (InstanceView, Result<(), ErrorView>) {
    if m.state is Starting {
        (m, Err(ErrorView::ServerStillStarting))
    } else if m.state is Terminated {
        (m, Err(ErrorView::ServerOffline))
    } else if !m.output_closed {
        (m, Err(ErrorView::ThreadError("stdout"@)))
    } else if !m.input_closed {
        (m, Err(ErrorView::ThreadError("stdin"@)))
    } else {
        (
            InstanceView { state: State::Terminated, ..m },
            if m.crashed {
                Err(ErrorView::ServerProcessExited)
            } else {
                Ok(())
            },
        )
    }
}

/// One supervised process with its console history, its queue of pending
/// commands and its place in the lifecycle.
pub struct Instance {
    id: String,
    /// The port that the process was told to bind.
    pub port: u32,
    state: State,
    console: ConsoleBuffer,
    queue: CommandQueue,
    accepted: Ghost<Seq<Seq<char>>>,
    delivered: Ghost<Seq<Seq<char>>>,
    input_closed: bool,
    output_closed: bool,
    crashed: bool,
    marker: String,
    place: MarkerPlace,
}

impl View for Instance {
    type V = InstanceView;

    closed spec fn view(&self) -> InstanceView {
        InstanceView {
            id: self.id@,
            port: self.port,
            state: self.state,
            console: self.console@,
            queue: self.queue@,
            accepted: self.accepted@,
            delivered: self.delivered@,
            input_closed: self.input_closed,
            output_closed: self.output_closed,
            crashed: self.crashed,
            marker: self.marker@,
            place: self.place,
        }
    }
}

/// Copies each text and puts a line feed behind it.
fn frame_lines(lines: &Vec<String>) -> (r: Vec<String>)
    ensures
        texts(r@) == framed(texts(lines@)),
{
    proof {
        reveal_strlit("\n");
    }
    let n = lines.len();
    let mut r: Vec<String> = Vec::new();
    let mut i: usize = 0;
    while i < n
        invariant
            n == lines.len(),
            0 <= i <= n,
            r@.len() == i,
            "\n"@ == seq!['\n'],
            forall|j: int| 0 <= j < i ==> (#[trigger] r@[j])@ == lines@[j]@.push('\n'),
        decreases n - i,
    {
        let mut line = lines[i].clone();
        line.append("\n");
        r.push(line);
        i = i + 1;
    }
    r
}

impl Instance {
    /// Tells whether the instance is in the condition that every operation
    /// keeps.
    pub open spec fn wf(&self) -> bool {
        coherent(self@)
    }

    /// The instance of a process that has just been spawned.
    pub fn spawned(id: String, port: u32, readiness: &Readiness) -> (r: Instance)
        ensures
            r@ == spawned(id@, port, readiness@),
            r.wf(),
    {
        let mut queue = CommandQueue::new();
        let n = readiness.commands.len();
        let mut i: usize = 0;
        while i < n
            invariant
                n == readiness.commands.len(),
                0 <= i <= n,
                queue@ =~= texts(readiness.commands@).subrange(0, i as int),
            decreases n - i,
        {
            queue.enqueue(readiness.commands[i].clone());
            i = i + 1;
        }
        let r = Instance {
            id,
            port,
            state: State::Starting,
            console: ConsoleBuffer::new(),
            queue,
            accepted: Ghost(readiness@.commands),
            delivered: Ghost(Seq::empty()),
            input_closed: false,
            output_closed: false,
            crashed: false,
            marker: readiness.marker.clone(),
            place: readiness.place,
        };
        assert(r@.accepted =~= r@.delivered + r@.queue);
        r
    }

    /// The key under which the instance is registered.
    pub fn id(&self) -> (r: &str)
        ensures
            r@ == self@.id,
    {
        self.id.as_str()
    }

    /// Where the instance is in its life.
    pub fn state(&self) -> (r: State)
        ensures
            r == self@.state,
    {
        self.state
    }

    /// The number of commands that wait to be written.
    pub fn queued(&self) -> (n: usize)
        ensures
            n == self@.queue.len(),
    {
        self.queue.len()
    }

    /// Turns a probe into the verdict that an operation needing the process
    /// alive goes by.
    pub fn process_check(probe: Probe) -> (r: Result<(), Error>)
        ensures
            outcome(r) == alive(probe@),
    {
        match probe {
            Probe::Running => Ok(()),
            Probe::Exited => Err(Error::ServerProcessExited()),
            Probe::Failed(a) => Err(Error::IoError(a)),
        }
    }

    /// Tells from a probe whether the process is still there.
    pub fn is_valid(&self, probe: Probe) -> (r: Result<bool, Error>)
        ensures
            outcome(r) == validity(probe@),
    {
        match probe {
            Probe::Running => Ok(true),
            Probe::Exited => Ok(false),
            Probe::Failed(a) => Err(Error::IoError(a)),
        }
    }

    /// Takes in a command for the process.
    pub fn send(&mut self, msg: String, probe: Probe) -> (r: Result<(), Error>)
        ensures
            (final(self)@, outcome(r)) == send_step(old(self)@, msg@, probe@),
            old(self).wf() ==> final(self).wf(),
    {
        match self.state {
            State::Stopping => {
                return Err(Error::ServerOffline());
            },
            State::Terminated => {
                return Err(Error::ServerOffline());
            },
            _ => {},
        }
        match Instance::process_check(probe) {
            Err(e) => {
                return Err(e);
            },
            Ok(()) => {},
        }
        let ghost text = msg@;
        self.queue.enqueue(msg);
        self.accepted = Ghost(self.accepted@.push(text));
        Ok(())
    }

    /// Begins shutdown. On success the caller has to join the two workers,
    /// wait for the process to exit, and then call [`Instance::finish`].
    pub fn stop(&mut self, probe: Probe) -> (r: Result<(), Error>)
        ensures
            (final(self)@, outcome(r)) == stop_step(old(self)@, probe@),
            old(self).wf() ==> final(self).wf(),
    {
        match self.state {
            State::Starting => {
                return Err(Error::ServerStillStarting());
            },
            State::Stopping => {
                return Err(Error::ServerOffline());
            },
            State::Terminated => {
                return Err(Error::ServerOffline());
            },
            State::Ready => {},
        }
        match probe {
            Probe::Failed(a) => Err(Error::IoError(a)),
            Probe::Exited => {
                self.state = State::Stopping;
                self.crashed = true;
                Ok(())
            },
            Probe::Running => {
                self.queue.enqueue(String::from_str("/stop"));
                self.accepted = Ghost(self.accepted@.push(stop_command()));
                self.state = State::Stopping;
                Ok(())
            },
        }
    }

    /// Copies the console history from line `start` on.
    pub fn get(&self, start: u32) -> (r: Vec<String>)
        ensures
            texts(r@) == tail_from(self@.console, start as int),
    {
        self.console.snapshot_from(start as usize)
    }

    /// Records a line that the process printed.
    pub fn record_output(&mut self, line: String)
        ensures
            final(self)@ == output_step(old(self)@, line@),
            old(self).wf() ==> final(self).wf(),
    {
        match self.state {
            State::Starting => {
                if shows_marker(line.as_str(), self.marker.as_str(), self.place) {
                    self.state = State::Ready;
                }
            },
            _ => {},
        }
        self.console.append(line);
    }

    /// Tells the worker that reads the output whether to go on. Once the
    /// answer is no, the worker counts as finished.
    pub fn keep_reading(&mut self) -> (r: bool)
        ensures
            (final(self)@, r) == poll_step(old(self)@),
            old(self).wf() ==> final(self).wf(),
    {
        match self.state {
            State::Starting => true,
            State::Ready => true,
            _ => {
                self.output_closed = true;
                false
            },
        }
    }

    /// Tells the worker that feeds the input what to do next. Once the answer
    /// is [`Feed::Closed`], the worker counts as finished.
    pub fn next_input(&mut self) -> (r: Feed)
        ensures
            (final(self)@, r@) == feed_step(old(self)@),
            old(self).wf() ==> final(self).wf(),
    {
        if !self.queue.is_empty() {
            let batch = self.queue.drain_all();
            self.delivered = Ghost(self.delivered@ + old(self)@.queue);
            let lines = frame_lines(&batch);
            Feed::Write(lines)
        } else {
            match self.state {
                State::Starting => Feed::Idle,
                State::Ready => Feed::Idle,
                _ => {
                    self.input_closed = true;
                    Feed::Closed
                },
            }
        }
    }

    /// Completes shutdown. To be called once the workers have been joined and
    /// the process has been reaped.
    pub fn finish(&mut self) -> (r: Result<(), Error>)
        ensures
            (final(self)@, outcome(r)) == finish_step(old(self)@),
            old(self).wf() ==> final(self).wf(),
    {
        match self.state {
            State::Starting => {
                return Err(Error::ServerStillStarting());
            },
            State::Terminated => {
                return Err(Error::ServerOffline());
            },
            _ => {},
        }
        if !self.output_closed {
            return Err(Error::ThreadError(String::from_str("stdout")));
        }
        if !self.input_closed {
            return Err(Error::ThreadError(String::from_str("stdin")));
        }
        self.state = State::Terminated;
        if self.crashed {
            Err(Error::ServerProcessExited())
        } else {
            Ok(())
        }
    }
}

} // verus!
