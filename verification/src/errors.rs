use vstd::prelude::*;

verus! {

/// The failures the matching core can report.
///
/// Scanning itself cannot fail: an input with no occurrences yields an empty
/// match list. What can fail is configuration (a detection pattern that does
/// not compile, an alphabet identifier that names no known character set) and
/// the label supply (a label sequence whose length does not equal the match
/// count, which would force duplicate or missing hints).
#[derive(Debug, PartialEq, Eq, Structural)]
pub enum Error {
    /// A detection pattern was rejected by the pattern engine.
    BadPattern,
    /// The alphabet identifier names no usable hint character set.
    UnknownAlphabet,
    /// The supplied label sequence does not have one label per match.
    HintShortfall,
}

} // verus!
