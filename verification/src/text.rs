//! Verified text utilities: conversions between strings and character
//! vectors, decimal rendering of integers, substring search and the
//! left-to-right replace-all used by the weakness-text rule.

use vstd::prelude::*;
use vstd::string::StrSliceExecFns;
use vstd::string::StringExecFns;

verus! {

/// Relies on std's `String::push`: appends the given character to the end
/// of the string.
#[verifier::external_body]
pub fn push_char(s: &mut String, c: char)
    ensures
        final(s)@ == old(s)@.push(c),
{
    s.push(c);
}

/// The characters of a string, as a vector.
pub fn str_to_chars(s: &str) -> (r: Vec<char>)
    ensures
        r@ == s@,
{
    let n = s.unicode_len();
    let mut r: Vec<char> = Vec::new();
    let mut i: usize = 0;
    while i < n
        invariant
            i <= n,
            n == s@.len(),
            r@ == s@.subrange(0, i as int),
        decreases n - i,
    {
        r.push(s.get_char(i));
        proof {
            assert(r@ =~= s@.subrange(0, i as int + 1));
        }
        i = i + 1;
    }
    proof {
        assert(r@ =~= s@);
    }
    r
}

/// The string holding exactly the given characters.
pub fn chars_to_string(v: &Vec<char>) -> (r: String)
    ensures
        r@ == v@,
{
    let mut r = String::new();
    let mut i: usize = 0;
    while i < v.len()
        invariant
            i <= v.len(),
            r@ == v@.subrange(0, i as int),
        decreases v.len() - i,
    {
        push_char(&mut r, v[i]);
        proof {
            assert(r@ =~= v@.subrange(0, i as int + 1));
        }
        i = i + 1;
    }
    proof {
        assert(r@ =~= v@);
    }
    r
}

/// The decimal digit character for a value between 0 and 9.
pub open spec fn dec_digit(d: int) -> char {
    ((d + 48) as u8) as char
}

/// The decimal numeral of a natural number, most significant digit first.
pub open spec fn dec_of(n: nat) -> Seq<char>
    decreases n,
{
    if n < 10 {
        seq![dec_digit(n as int)]
    } else {
        dec_of(n / 10).push(dec_digit((n % 10) as int))
    }
}

/// The decimal numeral of an integer: a minus sign for negative values,
/// then the numeral of the magnitude.
pub open spec fn int_dec_of(n: int) -> Seq<char> {
    if n < 0 {
        seq!['-'] + dec_of((-n) as nat)
    } else {
        dec_of(n as nat)
    }
}

fn dec_digit_char(d: u64) -> (c: char)
    requires
        d < 10,
    ensures
        c == dec_digit(d as int),
{
    (48 + d as u8) as char
}

/// The decimal numeral of an unsigned value.
pub fn u64_to_string(n: u64) -> (r: String)
    ensures
        r@ == dec_of(n as nat),
    decreases n,
{
    if n < 10 {
        let mut r = String::new();
        push_char(&mut r, dec_digit_char(n));
        proof {
            assert(r@ =~= dec_of(n as nat));
        }
        r
    } else {
        let mut r = u64_to_string(n / 10);
        push_char(&mut r, dec_digit_char(n % 10));
        r
    }
}

/// The decimal numeral of a signed value, with a leading minus sign when
/// the value is negative.
pub fn i64_to_string(n: i64) -> (r: String)
    ensures
        r@ == int_dec_of(n as int),
{
    if n < 0 {
        let mag: u64 = ((-(n + 1)) as u64) + 1;
        let mut r = String::new();
        push_char(&mut r, '-');
        let digits = u64_to_string(mag);
        r.append(digits.as_str());
        proof {
            assert(r@ =~= int_dec_of(n as int));
        }
        r
    } else {
        u64_to_string(n as u64)
    }
}

/// The decimal numeral of an `i32` value.
pub fn i32_to_string(n: i32) -> (r: String)
    ensures
        r@ == int_dec_of(n as int),
{
    i64_to_string(n as i64)
}

/// A character with ASCII upper-case letters mapped to lower case and
/// everything else unchanged.
pub open spec fn ascii_lower_char(c: char) -> char {
    if 'A' <= c && c <= 'Z' {
        (((c as u8) + 32) as u8) as char
    } else {
        c
    }
}

/// The string with ASCII upper-case letters mapped to lower case.
pub fn ascii_lower(s: &str) -> (r: String)
    ensures
        r@ == s@.map_values(|c: char| ascii_lower_char(c)),
{
    let n = s.unicode_len();
    let mut r = String::new();
    let mut i: usize = 0;
    while i < n
        invariant
            i <= n,
            n == s@.len(),
            r@ == s@.subrange(0, i as int).map_values(|c: char| ascii_lower_char(c)),
        decreases n - i,
    {
        let c = s.get_char(i);
        let lc: char = if 'A' <= c && c <= 'Z' {
            ((c as u8) + 32) as char
        } else {
            c
        };
        push_char(&mut r, lc);
        proof {
            assert(s@.subrange(0, i as int + 1).map_values(|c: char| ascii_lower_char(c))
                =~= s@.subrange(0, i as int).map_values(|c: char| ascii_lower_char(c)).push(
                ascii_lower_char(s@[i as int]),
            ));
        }
        i = i + 1;
    }
    proof {
        assert(s@.subrange(0, n as int) =~= s@);
    }
    r
}

/// Whether two string slices hold the same characters.
pub fn str_eq(a: &str, b: &str) -> (r: bool)
    ensures
        r == (a@ == b@),
{
    let na = a.unicode_len();
    let nb = b.unicode_len();
    if na != nb {
        proof {
            assert(a@ != b@);
        }
        return false;
    }
    let mut i: usize = 0;
    while i < na
        invariant
            i <= na,
            na == a@.len(),
            na == b@.len(),
            forall|k: int| 0 <= k < i ==> a@[k] == b@[k],
        decreases na - i,
    {
        if a.get_char(i) != b.get_char(i) {
            return false;
        }
        i = i + 1;
    }
    proof {
        assert(a@ =~= b@);
    }
    true
}

/// The view of an optional string.
pub open spec fn opt_str_view(o: Option<String>) -> Option<Seq<char>> {
    match o {
        Some(s) => Some(s@),
        None => None,
    }
}

/// The first value bound to `key` in an ordered list of string pairs, if
/// any.
pub open spec fn pairs_lookup(pairs: Seq<(String, String)>, key: Seq<char>) -> Option<String>
    decreases pairs.len(),
{
    if pairs.len() == 0 {
        None
    } else if pairs[0].0@ == key {
        Some(pairs[0].1)
    } else {
        pairs_lookup(pairs.skip(1), key)
    }
}

/// Looks `key` up in an ordered list of string pairs; the first binding
/// wins.
pub fn pairs_get<'a>(pairs: &'a Vec<(String, String)>, key: &str) -> (r: Option<&'a String>)
    ensures
        match r {
            Some(v) => pairs_lookup(pairs@, key@) == Some(*v),
            None => pairs_lookup(pairs@, key@) is None,
        },
{
    let mut i: usize = 0;
    proof {
        assert(pairs@.skip(0) =~= pairs@);
    }
    while i < pairs.len()
        invariant
            i <= pairs@.len(),
            pairs_lookup(pairs@, key@) == pairs_lookup(pairs@.skip(i as int), key@),
        decreases pairs@.len() - i,
    {
        proof {
            assert(pairs@.skip(i as int)[0] == pairs@[i as int]);
            assert(pairs@.skip(i as int).skip(1) =~= pairs@.skip(i as int + 1));
        }
        if str_eq(pairs[i].0.as_str(), key) {
            return Some(&pairs[i].1);
        }
        i = i + 1;
    }
    proof {
        assert(pairs@.skip(pairs@.len() as int).len() == 0);
    }
    None
}

/// Whether `pat` occurs as a contiguous subsequence of `s`.
pub open spec fn contains_seq(s: Seq<char>, pat: Seq<char>) -> bool {
    exists|i: int|
        0 <= i && i + pat.len() <= s.len() && #[trigger] s.subrange(i, i + pat.len() as int)
            == pat
}

/// Whether `s` starts with `pat`.
pub open spec fn starts_with_seq(s: Seq<char>, pat: Seq<char>) -> bool {
    pat.len() <= s.len() && s.subrange(0, pat.len() as int) == pat
}

/// Every occurrence of `pat` in `s` replaced by `rep`, scanning left to
/// right and never rescanning replaced text, as std's `str::replace` does.
pub open spec fn replace_all(s: Seq<char>, pat: Seq<char>, rep: Seq<char>) -> Seq<char>
    decreases s.len(),
{
    if pat.len() == 0 || s.len() < pat.len() {
        s
    } else if s.subrange(0, pat.len() as int) == pat {
        rep + replace_all(s.subrange(pat.len() as int, s.len() as int), pat, rep)
    } else {
        seq![s[0]] + replace_all(s.subrange(1, s.len() as int), pat, rep)
    }
}

/// Whether the characters of `pat` occur in `s` starting at position `at`.
fn matches_at(s: &Vec<char>, pat: &Vec<char>, at: usize) -> (r: bool)
    requires
        at as int + pat@.len() <= s@.len(),
    ensures
        r == (s@.subrange(at as int, at as int + pat@.len()) == pat@),
{
    let slen: usize = s.len();
    assert(slen == s@.len() && s@.len() <= usize::MAX);
    let mut j: usize = 0;
    while j < pat.len()
        invariant
            j <= pat@.len(),
            at as int + pat@.len() <= s@.len(),
            s@.len() <= usize::MAX,
            forall|k: int| 0 <= k < j ==> s@[at as int + k] == pat@[k],
        decreases pat@.len() - j,
    {
        if s[at + j] != pat[j] {
            proof {
                assert(s@.subrange(at as int, at as int + pat@.len())[j as int] != pat@[
                    j as int
                ]);
            }
            return false;
        }
        j = j + 1;
    }
    proof {
        assert(s@.subrange(at as int, at as int + pat@.len()) =~= pat@);
    }
    true
}

/// Every occurrence of `pat` in `s` replaced by `rep`, over character
/// vectors.
pub fn replace_all_chars(s: &Vec<char>, pat: &Vec<char>, rep: &Vec<char>) -> (r: Vec<char>)
    ensures
        r@ == replace_all(s@, pat@, rep@),
{
    if pat.len() == 0 {
        let mut r: Vec<char> = Vec::new();
        let mut i: usize = 0;
        while i < s.len()
            invariant
                i <= s@.len(),
                r@ == s@.subrange(0, i as int),
            decreases s@.len() - i,
        {
            r.push(s[i]);
            i = i + 1;
        }
        proof {
            assert(r@ =~= s@);
        }
        return r;
    }
    let mut r: Vec<char> = Vec::new();
    let mut i: usize = 0;
    proof {
        assert(s@.subrange(0, s@.len() as int) =~= s@);
        assert(Seq::<char>::empty() + replace_all(s@, pat@, rep@) =~= replace_all(
            s@,
            pat@,
            rep@,
        ));
    }
    while i < s.len()
        invariant
            i <= s@.len(),
            pat@.len() > 0,
            replace_all(s@, pat@, rep@) == r@ + replace_all(
                s@.subrange(i as int, s@.len() as int),
                pat@,
                rep@,
            ),
        decreases s@.len() - i,
    {
        let ghost rest = s@.subrange(i as int, s@.len() as int);
        if pat.len() <= s.len() - i && matches_at(s, pat, i) {
            proof {
                assert(rest.subrange(0, pat@.len() as int) =~= s@.subrange(
                    i as int,
                    i as int + pat@.len(),
                ));
                assert(rest.subrange(pat@.len() as int, rest.len() as int) =~= s@.subrange(
                    i as int + pat@.len(),
                    s@.len() as int,
                ));
            }
            let ghost r0 = r@;
            let mut j: usize = 0;
            while j < rep.len()
                invariant
                    j <= rep@.len(),
                    r@ == r0 + rep@.subrange(0, j as int),
                decreases rep@.len() - j,
            {
                r.push(rep[j]);
                proof {
                    assert(r@ =~= r0 + rep@.subrange(0, j as int + 1));
                }
                j = j + 1;
            }
            proof {
                assert(rep@.subrange(0, rep@.len() as int) =~= rep@);
                assert(r0 + rep@ + replace_all(
                    s@.subrange(i as int + pat@.len(), s@.len() as int),
                    pat@,
                    rep@,
                ) =~= r0 + (rep@ + replace_all(
                    s@.subrange(i as int + pat@.len(), s@.len() as int),
                    pat@,
                    rep@,
                )));
            }
            i = i + pat.len();
        } else {
            proof {
                if i as int + pat@.len() <= s@.len() {
                    assert(rest.subrange(0, pat@.len() as int) =~= s@.subrange(
                        i as int,
                        i as int + pat@.len(),
                    ));
                }
                assert(rest.subrange(1, rest.len() as int) =~= s@.subrange(
                    i as int + 1,
                    s@.len() as int,
                ));
                assert(seq![s@[i as int]] =~= rest.subrange(0, 1));
            }
            let ghost r0 = r@;
            r.push(s[i]);
            proof {
                assert(r@ =~= r0 + seq![s@[i as int]]);
                assert(r0 + seq![s@[i as int]] + replace_all(
                    s@.subrange(i as int + 1, s@.len() as int),
                    pat@,
                    rep@,
                ) =~= r0 + (seq![s@[i as int]] + replace_all(
                    s@.subrange(i as int + 1, s@.len() as int),
                    pat@,
                    rep@,
                )));
            }
            i = i + 1;
        }
    }
    proof {
        assert(s@.subrange(s@.len() as int, s@.len() as int) =~= Seq::<char>::empty());
        assert(r@ + Seq::<char>::empty() =~= r@);
    }
    r
}

} // verus!
