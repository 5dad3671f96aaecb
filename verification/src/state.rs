use vstd::prelude::*;

use crate::alphabets::alphabet_ok;
use crate::alphabets::spec_alphabet;
use crate::errors::Error;
use crate::hints::assign_hints;
use crate::hints::generate_hints;
use crate::hints::spec_label;
use crate::matching::Match;
use crate::matching::match_in_bounds;
use crate::matching::triples_of;
use crate::scanner::patterns_ok;
use crate::scanner::scan_lines;
use crate::scanner::scan_triples;

verus! {

/// A matching session: the lines under scrutiny, the alphabet identifier
/// that selects the hint character set, and the navigation skip counter.
pub struct State {
    pub lines: Vec<String>,
    pub alphabet: String,
    pub skip: usize,
}

impl State {
    pub fn new(lines: Vec<String>, alphabet: &str) -> (s: State)
        ensures
            s.lines == lines,
            s.alphabet@ == alphabet@,
            s.skip == 0,
    {
        State { lines, alphabet: alphabet.to_owned(), skip: 0 }
    }

    /// Scans every line with every detection pattern and attaches one
    /// distinct, non-empty hint label per match, labels being consumed from
    /// the end of the generated sequence. Re-scans from scratch on every
    /// call; positions and texts depend on the lines alone.
    pub fn matches(&self) -> (r: Result<Vec<Match>, Error>)
        ensures
            r is Ok <==> patterns_ok() && alphabet_ok(self.alphabet@),
            r == Err::<Vec<Match>, Error>(Error::BadPattern) <==> !patterns_ok(),
            r == Err::<Vec<Match>, Error>(Error::UnknownAlphabet) <==> patterns_ok()
                && !alphabet_ok(self.alphabet@),
            r matches Ok(v) ==> {
                let cs = spec_alphabet(self.alphabet@).unwrap();
                &&& triples_of(v@) == scan_triples(self.lines.deep_view())
                &&& forall|i: int|
                    0 <= i < v@.len() ==> match_in_bounds(#[trigger] v@[i], self.lines.deep_view())
                &&& forall|i: int|
                    0 <= i < v@.len() ==> ((#[trigger] v@[i]).hint matches Some(h) && h@
                        == spec_label(cs, v@.len() - 1 - i) && h@.len() > 0)
                &&& forall|i: int, j: int|
                    0 <= i < j < v@.len() ==> (#[trigger] v@[i]).hint.unwrap()@ != (
                    #[trigger] v@[j]).hint.unwrap()@
            },
    {
        let scanned = match scan_lines(&self.lines) {
            Ok(v) => v,
            Err(e) => {
                return Err(e);
            },
        };
        let labels = match generate_hints(self.alphabet.as_str(), scanned.len()) {
            Ok(h) => h,
            Err(e) => {
                return Err(e);
            },
        };
        let ghost gscanned = scanned@;
        let ghost glabels = labels@;
        match assign_hints(scanned, labels) {
            Ok(v) => {
                proof {
                    assert(triples_of(v@) =~= triples_of(gscanned));
                    let n = v@.len() as int;
                    assert forall|i: int, j: int| 0 <= i < j < n implies (
                    #[trigger] v@[i]).hint.unwrap()@ != (#[trigger] v@[j]).hint.unwrap()@ by {
                        assert(v@[i].hint == Some(glabels[n - 1 - i]));
                        assert(v@[j].hint == Some(glabels[n - 1 - j]));
                        assert(glabels[n - 1 - j]@ != glabels[n - 1 - i]@);
                    }
                }
                Ok(v)
            },
            Err(e) => {
                proof {
                    assert(false);
                }
                Err(e)
            },
        }
    }

    /// Steps the navigation cursor back by one match, saturating at zero.
    pub fn prev(&mut self)
        ensures
            final(self).skip == if old(self).skip > 0 {
                (old(self).skip - 1) as usize
            } else {
                0
            },
            final(self).lines == old(self).lines,
            final(self).alphabet == old(self).alphabet,
    {
        if self.skip > 0 {
            self.skip = self.skip - 1;
        }
    }

    /// Steps the navigation cursor forward by one match.
    pub fn next(&mut self)
        requires
            old(self).skip < usize::MAX,
        ensures
            final(self).skip == old(self).skip + 1,
            final(self).lines == old(self).lines,
            final(self).alphabet == old(self).alphabet,
    {
        self.skip = self.skip + 1;
    }
}

} // verus!
