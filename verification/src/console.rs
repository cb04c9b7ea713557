//! The two buffers that stand between a managed process and its callers: the
//! history of the lines it printed, and the commands that wait to be written
//! to its input.

use vstd::prelude::*;

verus! {

/// What a vector of strings holds, each string as its characters.
pub open spec fn texts(v: Seq<String>) -> Seq<Seq<char>> {
    Seq::new(v.len(), |i: int| v[i]@)
}

/// The lines of `history` from position `offset` to the end. An offset past
/// the end stands for the end.
pub open spec fn tail_from(history: Seq<Seq<char>>, offset: int) -> Seq<Seq<char>>
    recommends
        0 <= offset,
{
    if offset >= history.len() {
        Seq::empty()
    } else {
        history.subrange(offset, history.len() as int)
    }
}

/// The history of a process's output, oldest line first. Lines are added at
/// the end and never removed or reordered.
pub struct ConsoleBuffer {
    lines: Vec<String>,
}

impl View for ConsoleBuffer {
    type V = Seq<Seq<char>>;

    closed spec fn view(&self) -> Seq<Seq<char>> {
        texts(self.lines@)
    }
}

impl ConsoleBuffer {
    /// An empty history.
    pub fn new() -> (r: ConsoleBuffer)
        ensures
            r@ == Seq::<Seq<char>>::empty(),
    {
        let r = ConsoleBuffer { lines: Vec::new() };
        r
    }

    /// The number of lines recorded so far.
    pub fn len(&self) -> (n: usize)
        ensures
            n == self@.len(),
    {
        self.lines.len()
    }

    /// Adds one line at the end of the history.
    pub fn append(&mut self, line: String)
        ensures
            final(self)@ == old(self)@.push(line@),
    {
        self.lines.push(line);
    }

    /// Copies the lines from position `offset` on. The history itself is left
    /// as it is, so a second call with the same offset gives the same lines
    /// until a line is appended.
    pub fn snapshot_from(&self, offset: usize) -> (r: Vec<String>)
        ensures
            texts(r@) == tail_from(self@, offset as int),
    {
        let n = self.lines.len();
        let mut i: usize = if offset > n {
            n
        } else {
            offset
        };
        let ghost start: int = i as int;
        let mut r: Vec<String> = Vec::new();
        while i < n
            invariant
                n == self.lines.len(),
                0 <= start <= i <= n,
                texts(r@) =~= self@.subrange(start, i as int),
            decreases n - i,
        {
            let line = self.lines[i].clone();
            r.push(line);
            i = i + 1;
            assert(self@.subrange(start, i as int) =~= self@.subrange(start, i - 1).push(
                self@[i - 1],
            ));
        }
        r
    }
}

/// The commands that wait to be written to a process's input, in the order
/// in which they were queued.
pub struct CommandQueue {
    pending: Vec<String>,
}

impl View for CommandQueue {
    type V = Seq<Seq<char>>;

    closed spec fn view(&self) -> Seq<Seq<char>> {
        texts(self.pending@)
    }
}

impl CommandQueue {
    /// An empty queue.
    pub fn new() -> (r: CommandQueue)
        ensures
            r@ == Seq::<Seq<char>>::empty(),
    {
        let r = CommandQueue { pending: Vec::new() };
        r
    }

    /// The number of commands that wait.
    pub fn len(&self) -> (n: usize)
        ensures
            n == self@.len(),
    {
        self.pending.len()
    }

    /// Tells whether no command waits.
    pub fn is_empty(&self) -> (r: bool)
        ensures
            r == (self@.len() == 0),
    {
        self.pending.len() == 0
    }

    /// Puts one command at the tail of the queue.
    pub fn enqueue(&mut self, line: String)
        ensures
            final(self)@ == old(self)@.push(line@),
    {
        self.pending.push(line);
    }

    /// Takes every waiting command out of the queue, first queued first, and
    /// leaves the queue empty.
    pub fn drain_all(&mut self) -> (r: Vec<String>)
        ensures
            texts(r@) == old(self)@,
            final(self)@ == Seq::<Seq<char>>::empty(),
    {
        let mut r: Vec<String> = Vec::new();
        std::mem::swap(&mut r, &mut self.pending);
        r
    }
}

/// A snapshot from an offset at or past the end of the history is empty.
pub proof fn lemma_snapshot_past_end(history: Seq<Seq<char>>, offset: int)
    requires
        offset >= history.len(),
    ensures
        tail_from(history, offset) == Seq::<Seq<char>>::empty(),
{
}

/// A snapshot from offset zero is the whole history.
pub proof fn lemma_snapshot_from_start(history: Seq<Seq<char>>)
    ensures
        tail_from(history, 0) == history,
{
}

/// Appending keeps every earlier offset valid: a snapshot taken after the
/// append is the snapshot taken before it, followed by the new line.
pub proof fn lemma_append_extends_snapshot(history: Seq<Seq<char>>, line: Seq<char>, offset: int)
    requires
        0 <= offset <= history.len(),
    ensures
        tail_from(history.push(line), offset) == tail_from(history, offset).push(line),
{
}

} // verus!
