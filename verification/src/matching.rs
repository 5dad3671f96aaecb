use vstd::prelude::*;

verus! {

/// A located occurrence of a detection pattern within one line of text.
///
/// `x` is the zero-based column (character offset) of the occurrence within
/// its line, `y` the zero-based index of that line, `text` the matched
/// substring, and `hint` the label attached by the hint assigner: it is
/// `None` as the scanner emits the match and `Some` of a non-empty label
/// once assignment has run.
pub struct Match {
    pub x: usize,
    pub y: usize,
    pub text: String,
    pub hint: Option<String>,
}

/// The part of a match that identifies it across pipeline runs: column,
/// line index, and matched text. Hints are deliberately left out, since the
/// labels a run hands out depend on how many matches there are in total.
pub open spec fn match_triple(m: Match) -> (int, int, Seq<char>) {
    (m.x as int, m.y as int, m.text@)
}

/// The identifying triples of a whole match sequence, in order.
pub open spec fn triples_of(s: Seq<Match>) -> Seq<(int, int, Seq<char>)> {
    s.map_values(|m: Match| match_triple(m))
}

/// A match lies inside the input it was scanned from: its line index names
/// one of the given lines, its text is non-empty and fits in that line, and
/// its column is a valid character position of that line.
pub open spec fn match_in_bounds(m: Match, lines: Seq<Seq<char>>) -> bool {
    &&& m.y < lines.len()
    &&& m.text@.len() > 0
    &&& m.x + m.text@.len() <= lines[m.y as int].len()
    &&& m.x < lines[m.y as int].len()
}

impl PartialEq for Match {
    /// Two matches are the same occurrence when they sit at the same
    /// position, whatever their text or hint.
    fn eq(&self, other: &Match) -> (r: bool) {
        self.x == other.x && self.y == other.y
    }
}

impl vstd::std_specs::cmp::PartialEqSpecImpl for Match {
    open spec fn obeys_eq_spec() -> bool {
        true
    }

    open spec fn eq_spec(&self, other: &Match) -> bool {
        self.x == other.x && self.y == other.y
    }
}

} // verus!
