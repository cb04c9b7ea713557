//! How the supervisor learns that a process has finished loading: it sends
//! the process a command whose echo it can recognise, and watches the output
//! for that echo.

use crate::console::texts;
use crate::text::characters;
use vstd::prelude::*;
use vstd::string::*;

verus! {

/// Where in a line of output the marker has to stand.
#[derive(Debug, Clone, Copy, PartialEq, Eq, Structural)]
pub enum MarkerPlace {
    /// The line, from this many characters in up to its end, is the marker.
    Column(usize),
    /// The marker stands somewhere in the line.
    Anywhere,
}

/// The marker stands in `line` from position `k` on.
pub open spec fn occurs_at(line: Seq<char>, marker: Seq<char>, k: int) -> bool {
    &&& 0 <= k
    &&& k + marker.len() <= line.len()
    &&& line.subrange(k, k + marker.len()) == marker
}

/// The rest of `line` from position `column` on is exactly the marker.
pub open spec fn ends_with_from(line: Seq<char>, marker: Seq<char>, column: int) -> bool {
    &&& 0 <= column <= line.len()
    &&& line.subrange(column, line.len() as int) == marker
}

/// The line shows the marker at the place asked for.
pub open spec fn announces(line: Seq<char>, marker: Seq<char>, place: MarkerPlace) -> bool {
    match place {
        MarkerPlace::Column(column) => ends_with_from(line, marker, column as int),
        MarkerPlace::Anywhere => exists|k: int| occurs_at(line, marker, k),
    }
}

/// The handshake by which readiness is found out.
pub struct Readiness {
    /// The commands queued for the process as soon as it is spawned.
    pub commands: Vec<String>,
    /// The text whose appearance in the output shows that the process is ready.
    pub marker: String,
    /// Where in a line the marker has to stand.
    pub place: MarkerPlace,
}

/// A handshake as contracts speak of it.
pub ghost struct ReadinessView {
    pub commands: Seq<Seq<char>>,
    pub marker: Seq<char>,
    pub place: MarkerPlace,
}

impl View for Readiness {
    type V = ReadinessView;

    open spec fn view(&self) -> ReadinessView {
        ReadinessView { commands: texts(self.commands@), marker: self.marker@, place: self.place }
    }
}

/// The handshake of a stock game server: a broadcast of `SERVER READY`, asked
/// for with and without a leading slash, which the server echoes behind a
/// time stamp of 33 characters.
pub open spec fn standard_readiness() -> ReadinessView {
    ReadinessView {
        commands: seq!["/say SERVER READY"@, "say SERVER READY"@],
        marker: "[Server] SERVER READY"@,
        place: MarkerPlace::Column(33),
    }
}

fn same_from(line: &Vec<char>, marker: &Vec<char>, k: usize) -> (r: bool)
    requires
        k + marker@.len() <= line@.len(),
    ensures
        r == occurs_at(line@, marker@, k as int),
{
    let m = marker.len();
    let mut i: usize = 0;
    while i < m
        invariant
            m == marker.len(),
            k + m <= line.len(),
            0 <= i <= m,
            forall|j: int| 0 <= j < i ==> line@[k + j] == marker@[j],
        decreases m - i,
    {
        if line[k + i] != marker[i] {
            return false;
        }
        i = i + 1;
    }
    assert(line@.subrange(k as int, k + m) =~= marker@);
    true
}

/// Tells whether a line of output shows the marker at the place asked for.
pub fn shows_marker(line: &str, marker: &str, place: MarkerPlace) -> (r: bool)
    ensures
        r == announces(line@, marker@, place),
{
    let line_chars = characters(line);
    let marker_chars = characters(marker);
    let n = line_chars.len();
    let m = marker_chars.len();
    match place {
        MarkerPlace::Column(column) => {
            if column > n {
                false
            } else if n - column != m {
                false
            } else {
                same_from(&line_chars, &marker_chars, column)
            }
        },
        MarkerPlace::Anywhere => {
            if m > n {
                return false;
            }
            let last = n - m;
            let mut k: usize = 0;
            loop
                invariant
                    n == line_chars@.len(),
                    m == marker_chars@.len(),
                    line_chars@ == line@,
                    marker_chars@ == marker@,
                    m <= n,
                    place is Anywhere,
                    last == n - m,
                    0 <= k <= last,
                    forall|j: int| 0 <= j < k ==> !occurs_at(line@, marker@, j),
                decreases last - k,
            {
                if same_from(&line_chars, &marker_chars, k) {
                    return true;
                }
                if k == last {
                    return false;
                }
                k = k + 1;
            }
        },
    }
}

impl Readiness {
    /// The handshake of a stock game server.
    pub fn standard() -> (r: Readiness)
        ensures
            r@ == standard_readiness(),
    {
        let mut commands: Vec<String> = Vec::new();
        commands.push(String::from_str("/say SERVER READY"));
        commands.push(String::from_str("say SERVER READY"));
        let r = Readiness {
            commands,
            marker: String::from_str("[Server] SERVER READY"),
            place: MarkerPlace::Column(33),
        };
        assert(r@.commands =~= standard_readiness().commands);
        r
    }

    /// Tells whether a line of output shows that the process is ready.
    pub fn matches(&self, line: &str) -> (r: bool)
        ensures
            r == announces(line@, self@.marker, self@.place),
    {
        shows_marker(line, self.marker.as_str(), self.place)
    }
}

} // verus!
