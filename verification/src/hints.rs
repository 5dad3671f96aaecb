use vstd::prelude::*;
use vstd::string::StrSliceExecFns;
use vstd::arithmetic::div_mod::lemma_fundamental_div_mod;
use vstd::arithmetic::div_mod::lemma_div_pos_is_pos;
use vstd::arithmetic::div_mod::lemma_mod_division_less_than_divisor;

use crate::alphabets::alphabet_ok;
use crate::alphabets::check_distinct;
use crate::alphabets::distinct_chars;
use crate::alphabets::get_alphabet;
use crate::alphabets::spec_alphabet;
use crate::errors::Error;
use crate::matching::Match;

verus! {

/// The label handed out for position `i` of a request against the character
/// set `cs`: the character `cs[i % cs.len()]`, written `i / cs.len() + 1`
/// times. Every request position therefore gets a distinct, non-empty,
/// typable label.
pub open spec fn spec_label(cs: Seq<char>, i: int) -> Seq<char>
    recommends
        cs.len() > 0,
        i >= 0,
{
    Seq::new((i / cs.len() as int + 1) as nat, |t: int| cs[i % cs.len() as int])
}

/// Distinct request positions get distinct labels: positions that differ in
/// their remainder by the set size differ in their first character, and
/// positions with the same remainder differ in label length.
pub proof fn lemma_label_distinct(cs: Seq<char>, i: int, j: int)
    requires
        cs.len() > 0,
        distinct_chars(cs),
        0 <= i,
        0 <= j,
        i != j,
    ensures
        spec_label(cs, i) != spec_label(cs, j),
{
    let k = cs.len() as int;
    lemma_fundamental_div_mod(i, k);
    lemma_fundamental_div_mod(j, k);
    lemma_div_pos_is_pos(i, k);
    lemma_div_pos_is_pos(j, k);
    lemma_mod_division_less_than_divisor(i, k);
    lemma_mod_division_less_than_divisor(j, k);
    if i % k == j % k {
        assert(i / k != j / k);
        assert(spec_label(cs, i).len() != spec_label(cs, j).len());
    } else {
        assert(spec_label(cs, i)[0] == cs[i % k]);
        assert(spec_label(cs, j)[0] == cs[j % k]);
        assert(cs[i % k] != cs[j % k]);
    }
}

/// Obtains exactly `count` distinct, non-empty labels from the character
/// set that the alphabet identifier selects, or reports the identifier
/// unusable. A request for zero labels succeeds with an empty sequence.
pub fn generate_hints(alphabet: &str, count: usize) -> (r: Result<Vec<String>, Error>)
    ensures
        r is Ok <==> alphabet_ok(alphabet@),
        r is Err ==> r == Err::<Vec<String>, Error>(Error::UnknownAlphabet),
        r matches Ok(v) ==> {
            &&& spec_alphabet(alphabet@) matches Some(cs)
            &&& v@.len() == count
            &&& forall|i: int|
                0 <= i < count ==> (#[trigger] v@[i])@ == spec_label(
                    spec_alphabet(alphabet@).unwrap(),
                    i,
                )
            &&& forall|i: int| 0 <= i < count ==> (#[trigger] v@[i])@.len() > 0
            &&& forall|i: int, j: int|
                0 <= i < j < count ==> (#[trigger] v@[i])@ != (#[trigger] v@[j])@
        },
{
    let cs: &str = match get_alphabet(alphabet) {
        Some(c) => c,
        None => {
            return Err(Error::UnknownAlphabet);
        },
    };
    let k = cs.unicode_len();
    if k == 0 {
        return Err(Error::UnknownAlphabet);
    }
    if !check_distinct(cs) {
        return Err(Error::UnknownAlphabet);
    }
    let mut v: Vec<String> = Vec::new();
    let mut i: usize = 0;
    while i < count
        invariant
            i <= count,
            k == cs@.len(),
            k > 0,
            distinct_chars(cs@),
            spec_alphabet(alphabet@) == Some(cs@),
            v@.len() == i,
            forall|t: int| 0 <= t < i ==> (#[trigger] v@[t])@ == spec_label(cs@, t),
        decreases count - i,
    {
        let j = i % k;
        let reps = i / k;
        proof {
            lemma_div_pos_is_pos(i as int, k as int);
            lemma_mod_division_less_than_divisor(i as int, k as int);
            assert(reps < count) by {
                vstd::arithmetic::div_mod::lemma_div_is_ordered_by_denominator(
                    i as int,
                    1,
                    k as int,
                );
            }
        }
        let ch: &str = cs.substring_char(j, j + 1);
        let mut lab = String::new();
        let mut t: usize = 0;
        while t <= reps
            invariant
                t <= reps + 1,
                reps < count,
                reps == (i as int) / (k as int),
                0 <= (i as int) % (k as int) < k,
                j == (i as int) % (k as int),
                k == cs@.len(),
                ch@ == cs@.subrange(j as int, j + 1),
                lab@ =~= Seq::new(t as nat, |q: int| cs@[(i as int) % (k as int)]),
            decreases reps + 1 - t,
        {
            lab.append(ch);
            proof {
                assert(lab@ =~= Seq::new((t + 1) as nat, |q: int| cs@[(i as int) % (k as int)]));
            }
            t += 1;
        }
        proof {
            assert(lab@ =~= spec_label(cs@, i as int));
        }
        v.push(lab);
        i += 1;
    }
    proof {
        assert forall|a: int, b: int| 0 <= a < b < count implies (#[trigger] v@[a])@ != (
        #[trigger] v@[b])@ by {
            lemma_label_distinct(cs@, a, b);
        }
        assert forall|a: int| 0 <= a < count implies (#[trigger] v@[a])@.len() > 0 by {
            lemma_div_pos_is_pos(a, cs@.len() as int);
        }
    }
    Ok(v)
}

/// Attaches one label per match, consuming the label sequence from its end,
/// exactly as many labels as there are matches. A label sequence of any
/// other length would force duplicate or missing hints and is refused.
pub fn assign_hints(matched: Vec<Match>, labels: Vec<String>) -> (r: Result<Vec<Match>, Error>)
    ensures
        r is Ok <==> matched@.len() == labels@.len(),
        r is Err ==> r == Err::<Vec<Match>, Error>(Error::HintShortfall),
        r matches Ok(v) ==> {
            &&& v@.len() == matched@.len()
            &&& forall|i: int|
                0 <= i < v@.len() ==> {
                    &&& (#[trigger] v@[i]).x == matched@[i].x
                    &&& v@[i].y == matched@[i].y
                    &&& v@[i].text == matched@[i].text
                    &&& v@[i].hint == Some(labels@[matched@.len() - 1 - i])
                }
        },
{
    if matched.len() != labels.len() {
        return Err(Error::HintShortfall);
    }
    let n = matched.len();
    let mut v: Vec<Match> = Vec::new();
    let mut i: usize = 0;
    while i < n
        invariant
            i <= n,
            n == matched@.len(),
            n == labels@.len(),
            v@.len() == i,
            forall|t: int|
                0 <= t < i ==> {
                    &&& (#[trigger] v@[t]).x == matched@[t].x
                    &&& v@[t].y == matched@[t].y
                    &&& v@[t].text == matched@[t].text
                    &&& v@[t].hint == Some(labels@[n - 1 - t])
                },
        decreases n - i,
    {
        let m: &Match = &matched[i];
        let lab: String = labels[n - 1 - i].clone();
        v.push(Match { x: m.x, y: m.y, text: m.text.clone(), hint: Some(lab) });
        i += 1;
    }
    Ok(v)
}

} // verus!
