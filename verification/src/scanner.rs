use vstd::prelude::*;
use vstd::string::StrSliceExecFns;

use crate::errors::Error;
use crate::matching::Match;
use crate::matching::match_triple;
use crate::matching::triples_of;
use crate::matching::match_in_bounds;

verus! {

// ---------------------------------------------------------------------------
// The fixed detection patterns, in application order.
// ---------------------------------------------------------------------------

/// The detection pattern applied in position `p` of the scan:
/// filesystem-path-like tokens, then UUIDs, then content-hash-like hex runs,
/// then IPv4-shaped tokens, then URL-like tokens, then hexadecimal addresses.
pub open spec fn pattern_spec(p: int) -> Seq<char> {
    if p == 0 {
        r"((^|^\.|[[:space:]]|[[:space:]]\.|[[:space:]]\.\.|^\.\.)[[:alnum:]~_-]*/[[:alnum:]_.#$%&+=/@-]+)"@
    } else if p == 1 {
        r"[0-9a-f]{8}-[0-9a-f]{4}-[0-9a-f]{4}-[0-9a-f]{4}-[0-9a-f]{12}"@
    } else if p == 2 {
        r"[0-9a-f]{7,40}"@
    } else if p == 3 {
        r"\d{1,3}\.\d{1,3}\.\d{1,3}\.\d{1,3}"@
    } else if p == 4 {
        r"((https?://|git@|git://|ssh://|ftp://|file:///)[\w?=%/_.:,;~@!#$&()*+-]*)"@
    } else {
        r"(0x[0-9a-fA-F]+)"@
    }
}

/// How many detection patterns the scanner applies to each line.
pub const PATTERN_COUNT: usize = 6;

fn pattern_str(p: usize) -> (r: &'static str)
    requires
        p < PATTERN_COUNT,
    ensures
        r@ == pattern_spec(p as int),
{
    if p == 0 {
        r"((^|^\.|[[:space:]]|[[:space:]]\.|[[:space:]]\.\.|^\.\.)[[:alnum:]~_-]*/[[:alnum:]_.#$%&+=/@-]+)"
    } else if p == 1 {
        r"[0-9a-f]{8}-[0-9a-f]{4}-[0-9a-f]{4}-[0-9a-f]{4}-[0-9a-f]{12}"
    } else if p == 2 {
        r"[0-9a-f]{7,40}"
    } else if p == 3 {
        r"\d{1,3}\.\d{1,3}\.\d{1,3}\.\d{1,3}"
    } else if p == 4 {
        r"((https?://|git@|git://|ssh://|ftp://|file:///)[\w?=%/_.:,;~@!#$&()*+-]*)"
    } else {
        r"(0x[0-9a-fA-F]+)"
    }
}

/// Every detection pattern is accepted by the pattern engine.
pub open spec fn patterns_ok() -> bool {
    forall|p: int| 0 <= p < PATTERN_COUNT ==> regex_compiles(#[trigger] pattern_spec(p))
}

// ---------------------------------------------------------------------------
// The trusted boundary to the pattern engine.
// ---------------------------------------------------------------------------

/// Whether the pattern engine accepts the given pattern string.
pub uninterp spec fn regex_compiles(pattern: Seq<char>) -> bool;

/// The successive non-overlapping occurrences of the pattern in the
/// haystack, each as the pair of the text before the occurrence and the
/// matched text itself.
pub uninterp spec fn regex_find_all(pattern: Seq<char>, hay: Seq<char>) -> Seq<(Seq<char>, Seq<char>)>;

/// Relies on `regex::Regex::new`: whether a pattern compiles is a function
/// of the pattern string alone.
#[verifier::external_body]
fn pattern_compiles(pattern: &str) -> (r: bool)
    ensures
        r == regex_compiles(pattern@),
{
    regex::Regex::new(pattern).is_ok()
}

/// Relies on `regex::Regex::new` and `regex::Regex::find_iter`: the iterator
/// yields the successive non-overlapping matches of the pattern in the
/// haystack, each match `m` carrying offsets on UTF-8 boundaries with
/// `m.as_str() == &hay[m.start()..m.end()]` and `m.end() <= hay.len()`, so
/// that text before the match, matched text and text after it concatenate
/// back to the haystack.
#[verifier::external_body]
fn find_all(pattern: &str, hay: &str) -> (r: Vec<(String, String)>)
    requires
        regex_compiles(pattern@),
    ensures
        r@.len() == regex_find_all(pattern@, hay@).len(),
        forall|j: int| 0 <= j < r@.len()
            ==> #[trigger] regex_find_all(pattern@, hay@)[j] == ((r@[j].0)@, (r@[j].1)@),
        forall|j: int| 0 <= j < r@.len() ==> {
            &&& ((#[trigger] r@[j]).0)@.len() + (r@[j].1)@.len() <= hay@.len()
            &&& (r@[j].0)@ + (r@[j].1)@ == hay@.subrange(
                0,
                (r@[j].0)@.len() + (r@[j].1)@.len() as int,
            )
        },
{
    let re = regex::Regex::new(pattern).unwrap();
    re.find_iter(hay).map(|m| (hay[..m.start()].to_string(), m.as_str().to_string())).collect()
}

// ---------------------------------------------------------------------------
// What a scan returns, as a mathematical function of the input lines.
// ---------------------------------------------------------------------------

/// The `(x, y, text)` triples that one pattern's pass over line `y`
/// contributes, in left-to-right order: one triple per occurrence with a
/// non-empty text, whose column is the character length of the text before
/// the occurrence.
pub open spec fn found_triples(y: int, found: Seq<(Seq<char>, Seq<char>)>) -> Seq<(int, int, Seq<char>)>
    decreases found.len(),
{
    if found.len() == 0 {
        Seq::empty()
    } else {
        let rest = found_triples(y, found.drop_last());
        let last = found.last();
        if last.1.len() > 0 {
            rest.push((last.0.len() as int, y, last.1))
        } else {
            rest
        }
    }
}

/// The triples contributed by the first `p` patterns on line `y`, in
/// pattern order.
pub open spec fn line_triples_upto(y: int, line: Seq<char>, p: int) -> Seq<(int, int, Seq<char>)>
    decreases p,
{
    if p <= 0 {
        Seq::empty()
    } else {
        line_triples_upto(y, line, p - 1) + found_triples(
            y,
            regex_find_all(pattern_spec(p - 1), line),
        )
    }
}

/// The triples contributed by every pattern on line `y`.
pub open spec fn line_triples(y: int, line: Seq<char>) -> Seq<(int, int, Seq<char>)> {
    line_triples_upto(y, line, PATTERN_COUNT as int)
}

/// The triples contributed by the first `k` lines, in line order.
pub open spec fn scan_triples_upto(lines: Seq<Seq<char>>, k: int) -> Seq<(int, int, Seq<char>)>
    decreases k,
{
    if k <= 0 {
        Seq::empty()
    } else {
        scan_triples_upto(lines, k - 1) + line_triples(k - 1, lines[k - 1])
    }
}

/// Everything a scan of the given lines emits: line order first, then
/// pattern order, then left-to-right within one pattern's pass.
pub open spec fn scan_triples(lines: Seq<Seq<char>>) -> Seq<(int, int, Seq<char>)> {
    scan_triples_upto(lines, lines.len() as int)
}

// ---------------------------------------------------------------------------
// The scanner.
// ---------------------------------------------------------------------------

/// Applies every detection pattern to every line and emits one match per
/// occurrence, with the hint left unset. Occurrences of width zero carry no
/// text to select and are skipped; none of the fixed patterns can produce
/// one.
#[verifier::loop_isolation(false)]
pub fn scan_lines(lines: &Vec<String>) -> (r: Result<Vec<Match>, Error>)
    ensures
        r is Ok <==> patterns_ok(),
        r is Err ==> r == Err::<Vec<Match>, Error>(Error::BadPattern),
        r matches Ok(v) ==> {
            &&& triples_of(v@) == scan_triples(lines.deep_view())
            &&& forall|i: int|
                0 <= i < v@.len() ==> match_in_bounds(#[trigger] v@[i], lines.deep_view())
            &&& forall|i: int| 0 <= i < v@.len() ==> (#[trigger] v@[i]).hint is None
        },
{
    let mut p: usize = 0;
    while p < PATTERN_COUNT
        invariant
            p <= PATTERN_COUNT,
            forall|q: int| 0 <= q < p ==> regex_compiles(#[trigger] pattern_spec(q)),
        decreases PATTERN_COUNT - p,
    {
        if !pattern_compiles(pattern_str(p)) {
            return Err(Error::BadPattern);
        }
        p += 1;
    }

    let ghost glines = lines.deep_view();
    let mut out: Vec<Match> = Vec::new();
    let mut y: usize = 0;
    while y < lines.len()
        invariant
            y <= lines.len(),
            triples_of(out@) == scan_triples_upto(glines, y as int),
            forall|i: int| 0 <= i < out@.len() ==> match_in_bounds(#[trigger] out@[i], glines),
            forall|i: int| 0 <= i < out@.len() ==> (#[trigger] out@[i]).hint is None,
        decreases lines.len() - y,
    {
        let line: &String = &lines[y];
        proof {
            assert(glines[y as int] == line@);
        }
        let ghost base_line = triples_of(out@);
        let mut p: usize = 0;
        while p < PATTERN_COUNT
            invariant
                p <= PATTERN_COUNT,
                triples_of(out@) == base_line + line_triples_upto(
                    y as int,
                    line@,
                    p as int,
                ),
                forall|i: int| 0 <= i < out@.len() ==> match_in_bounds(#[trigger] out@[i], glines),
                forall|i: int| 0 <= i < out@.len() ==> (#[trigger] out@[i]).hint is None,
            decreases PATTERN_COUNT - p,
        {
            let found = find_all(pattern_str(p), line.as_str());
            let ghost gfound = regex_find_all(pattern_spec(p as int), line@);
            let ghost base_pat = triples_of(out@);
            let mut j: usize = 0;
            while j < found.len()
                invariant
                    j <= found.len(),
                    triples_of(out@) == base_pat + found_triples(
                        y as int,
                        gfound.take(j as int),
                    ),
                    forall|i: int|
                        0 <= i < out@.len() ==> match_in_bounds(#[trigger] out@[i], glines),
                    forall|i: int| 0 <= i < out@.len() ==> (#[trigger] out@[i]).hint is None,
                decreases found.len() - j,
            {
                proof {
                    assert(gfound.take(j + 1).drop_last() =~= gfound.take(j as int));
                    assert(gfound.take(j + 1).last() == gfound[j as int]);
                    assert(gfound[j as int] == ((found@[j as int].0)@, (found@[j as int].1)@));
                }
                let pr: &(String, String) = &found[j];
                if !pr.1.as_str().is_empty() {
                    let x = pr.0.as_str().unicode_len();
                    let m = Match { x, y, text: pr.1.clone(), hint: None };
                    let ghost prev = triples_of(out@);
                    out.push(m);
                    proof {
                        assert(triples_of(out@) =~= prev.push(match_triple(m)));
                        assert(triples_of(out@) =~= base_pat + found_triples(
                            y as int,
                            gfound.take(j + 1),
                        ));
                    }
                } else {
                    proof {
                        assert(found_triples(y as int, gfound.take(j + 1)) =~= found_triples(
                            y as int,
                            gfound.take(j as int),
                        ));
                    }
                }
                j += 1;
            }
            proof {
                assert(gfound.take(found@.len() as int) =~= gfound);
            }
            p += 1;
        }
        y += 1;
    }
    proof {
        assert(scan_triples(glines) == scan_triples_upto(glines, lines@.len() as int));
    }
    Ok(out)
}

/// Scanning is idempotent: two match sequences whose identifying triples
/// both equal the scan of the same lines agree match for match on column,
/// line index and text. Hints are free to differ between the two runs;
/// they are no part of the triples.
pub proof fn lemma_scan_idempotent(lines: Seq<Seq<char>>, first: Seq<Match>, second: Seq<Match>)
    requires
        triples_of(first) == scan_triples(lines),
        triples_of(second) == scan_triples(lines),
    ensures
        first.len() == second.len(),
        forall|i: int|
            0 <= i < first.len() ==> #[trigger] first[i].x == second[i].x && first[i].y
                == second[i].y && first[i].text@ == second[i].text@,
{
    assert(first.len() == triples_of(first).len());
    assert(second.len() == triples_of(second).len());
    assert forall|i: int|
        0 <= i < first.len() implies #[trigger] first[i].x == second[i].x && first[i].y
        == second[i].y && first[i].text@ == second[i].text@ by {
        assert(triples_of(first)[i] == match_triple(first[i]));
        assert(triples_of(second)[i] == match_triple(second[i]));
    }
}

} // verus!
