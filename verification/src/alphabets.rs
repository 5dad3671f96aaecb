use vstd::prelude::*;
use vstd::string::StrSliceExecFns;

verus! {

/// The hint character set selected by an alphabet identifier, or `None`
/// when the identifier names no known set.
pub open spec fn spec_alphabet(name: Seq<char>) -> Option<Seq<char>> {
    if name == "abcd"@ {
        Some("abcd"@)
    } else if name == "numeric"@ {
        Some("1234567890"@)
    } else if name == "qwerty"@ {
        Some("asdfqwerzxcvjklmiuopghtybn"@)
    } else if name == "qwerty-homerow"@ {
        Some("asdfjklgh"@)
    } else {
        None
    }
}

/// No character occurs twice in the sequence.
pub open spec fn distinct_chars(cs: Seq<char>) -> bool {
    forall|i: int, j: int| 0 <= i < j < cs.len() ==> cs[i] != cs[j]
}

/// An identifier names a usable hint character set: one that is known,
/// non-empty, and free of repeated characters, so that distinct labels can
/// be formed from it.
pub open spec fn alphabet_ok(name: Seq<char>) -> bool {
    spec_alphabet(name) matches Some(cs) && cs.len() > 0 && distinct_chars(cs)
}

fn str_eq(a: &str, b: &str) -> (r: bool)
    ensures
        r == (a@ == b@),
{
    let sa: String = a.to_owned();
    let sb: String = b.to_owned();
    sa == sb
}

/// Looks the identifier up in the table of known hint character sets.
pub fn get_alphabet(name: &str) -> (r: Option<&'static str>)
    ensures
        r matches Some(cs) ==> spec_alphabet(name@) == Some(cs@),
        r is None <==> spec_alphabet(name@) is None,
{
    if str_eq(name, "abcd") {
        Some("abcd")
    } else if str_eq(name, "numeric") {
        Some("1234567890")
    } else if str_eq(name, "qwerty") {
        Some("asdfqwerzxcvjklmiuopghtybn")
    } else if str_eq(name, "qwerty-homerow") {
        Some("asdfjklgh")
    } else {
        None
    }
}

/// Decides `distinct_chars` for a character set at run time.
pub fn check_distinct(cs: &str) -> (r: bool)
    ensures
        r == distinct_chars(cs@),
{
    let n = cs.unicode_len();
    let mut a: usize = 0;
    while a < n
        invariant
            a <= n,
            n == cs@.len(),
            forall|i: int, j: int| 0 <= i < j < n && i < a ==> cs@[i] != cs@[j],
        decreases n - a,
    {
        let ca = cs.get_char(a);
        let mut b: usize = a + 1;
        while b < n
            invariant
                a < b <= n || (a + 1 == b && b >= n),
                a < n,
                n == cs@.len(),
                ca == cs@[a as int],
                forall|j: int| a < j < b ==> cs@[a as int] != cs@[j],
            decreases n - b,
        {
            if ca == cs.get_char(b) {
                return false;
            }
            b += 1;
        }
        a += 1;
    }
    true
}

} // verus!
