//! Verified string helpers: equality, prefix and substring tests, splitting,
//! and decimal rendering of integers. All contracts are stated over the
//! character-sequence views of `&str` and `String`.

use vstd::prelude::*;
use vstd::string::*;

verus! {

/// `p` is a prefix of `s`.
pub open spec fn is_prefix(p: Seq<char>, s: Seq<char>) -> bool {
    p.len() <= s.len() && s.subrange(0, p.len() as int) == p
}

/// `p` occurs in `s` at position `i`.
pub open spec fn contains_at(s: Seq<char>, i: int, p: Seq<char>) -> bool {
    0 <= i && i + p.len() <= s.len() && s.subrange(i, i + p.len()) == p
}

/// `p` occurs somewhere in `s`.
pub open spec fn contains_seq(s: Seq<char>, p: Seq<char>) -> bool {
    exists|i: int| contains_at(s, i, p)
}

/// Exact character-wise equality of two string slices.
pub fn str_eq(a: &str, b: &str) -> (r: bool)
    ensures
        r == (a@ == b@),
{
    let la = a.unicode_len();
    let lb = b.unicode_len();
    if la != lb {
        return false;
    }
    let mut i: usize = 0;
    while i < la
        invariant
            i <= la,
            la == a@.len(),
            la == b@.len(),
            forall|j: int| 0 <= j < i ==> a@[j] == b@[j],
        decreases la - i,
    {
        if a.get_char(i) != b.get_char(i) {
            return false;
        }
        i += 1;
    }
    proof {
        assert(a@ =~= b@);
    }
    true
}

/// Whether `s` starts with `p`.
pub fn starts_with(s: &str, p: &str) -> (r: bool)
    ensures
        r == is_prefix(p@, s@),
{
    let ls = s.unicode_len();
    let lp = p.unicode_len();
    if lp > ls {
        return false;
    }
    let mut j: usize = 0;
    while j < lp
        invariant
            j <= lp,
            lp <= ls,
            ls == s@.len(),
            lp == p@.len(),
            forall|k: int| 0 <= k < j ==> s@[k] == p@[k],
        decreases lp - j,
    {
        if s.get_char(j) != p.get_char(j) {
            proof {
                assert(s@.subrange(0, lp as int)[j as int] == s@[j as int]);
            }
            return false;
        }
        j += 1;
    }
    proof {
        assert(s@.subrange(0, lp as int) =~= p@);
    }
    true
}

/// Whether `p` occurs at position `i` of `s` (both already measured).
fn match_at(s: &str, ls: usize, p: &str, lp: usize, i: usize) -> (r: bool)
    requires
        ls == s@.len(),
        lp == p@.len(),
        i + lp <= ls,
    ensures
        r == contains_at(s@, i as int, p@),
{
    let mut j: usize = 0;
    while j < lp
        invariant
            j <= lp,
            ls == s@.len(),
            lp == p@.len(),
            i + lp <= ls,
            forall|k: int| 0 <= k < j ==> s@[i + k] == p@[k],
        decreases lp - j,
    {
        if s.get_char(i + j) != p.get_char(j) {
            proof {
                assert(s@.subrange(i as int, i + lp as int)[j as int] == s@[i + j]);
            }
            return false;
        }
        j += 1;
    }
    proof {
        assert(s@.subrange(i as int, i + lp as int) =~= p@);
    }
    true
}

/// Position of the first occurrence of `p` in `s`, if any.
pub fn find_str(s: &str, p: &str) -> (r: Option<usize>)
    ensures
        match r {
            Some(i) => contains_at(s@, i as int, p@) && forall|k: int|
                0 <= k < i ==> !contains_at(s@, k, p@),
            None => !contains_seq(s@, p@),
        },
{
    let ls = s.unicode_len();
    let lp = p.unicode_len();
    if lp > ls {
        return None;
    }
    if lp == 0 {
        proof {
            assert(s@.subrange(0, 0) =~= p@);
        }
        return Some(0);
    }
    let mut i: usize = 0;
    while i <= ls - lp
        invariant
            0 < lp <= ls,
            ls == s@.len(),
            lp == p@.len(),
            i <= ls - lp + 1,
            forall|k: int| 0 <= k < i ==> !contains_at(s@, k, p@),
        decreases ls - i,
    {
        if match_at(s, ls, p, lp, i) {
            return Some(i);
        }
        i += 1;
    }
    proof {
        assert(forall|k: int| k > ls - lp ==> !contains_at(s@, k, p@));
    }
    None
}

/// Whether `p` occurs somewhere in `s`.
pub fn contains_str(s: &str, p: &str) -> (r: bool)
    ensures
        r == contains_seq(s@, p@),
{
    match find_str(s, p) {
        Some(_) => true,
        None => false,
    }
}

/// Concatenation of two string slices.
pub fn concat_str(a: &str, b: &str) -> (r: String)
    ensures
        r@ == a@ + b@,
{
    let mut r = String::from_str(a);
    r.append(b);
    r
}

/// Splitting at every occurrence of the separator, empty pieces kept;
/// defined by peeling the last character.
pub open spec fn spec_split(s: Seq<char>, c: char) -> Seq<Seq<char>>
    decreases s.len(),
{
    if s.len() == 0 {
        seq![Seq::<char>::empty()]
    } else if s[s.len() - 1] == c {
        spec_split(s.drop_last(), c).push(Seq::<char>::empty())
    } else {
        let r = spec_split(s.drop_last(), c);
        r.update(r.len() - 1, r.last().push(s[s.len() - 1]))
    }
}

pub proof fn lemma_split_len(s: Seq<char>, c: char)
    ensures
        spec_split(s, c).len() >= 1,
    decreases s.len(),
{
    if s.len() > 0 {
        lemma_split_len(s.drop_last(), c);
    }
}

/// Split `s` at every occurrence of `c`; empty pieces are kept, so the
/// result always holds at least one piece.
pub fn split_char(s: &str, c: char) -> (r: Vec<String>)
    ensures
        r.deep_view() == spec_split(s@, c),
        r@.len() >= 1,
{
    let n = s.unicode_len();
    let mut done: Vec<String> = Vec::new();
    let mut start: usize = 0;
    let mut i: usize = 0;
    proof {
        assert(s@.subrange(0, 0) =~= Seq::<char>::empty());
        assert(done.deep_view() =~= Seq::<Seq<char>>::empty());
        assert(done.deep_view().push(s@.subrange(0, 0)) =~= seq![Seq::<char>::empty()]);
    }
    while i < n
        invariant
            start <= i <= n,
            n == s@.len(),
            done.deep_view().push(s@.subrange(start as int, i as int)) == spec_split(
                s@.subrange(0, i as int),
                c,
            ),
        decreases n - i,
    {
        let ghost prefix = s@.subrange(0, i as int);
        let ghost prefix1 = s@.subrange(0, i + 1int);
        proof {
            assert(prefix1.drop_last() =~= prefix);
            assert(prefix1[prefix1.len() - 1] == s@[i as int]);
        }
        if s.get_char(i) == c {
            let piece = s.substring_char(start, i);
            let ghost pre_deep = done.deep_view();
            done.push(String::from_str(piece));
            start = i + 1;
            proof {
                assert(done.deep_view() =~= pre_deep.push(piece@));
                assert(s@.subrange(i + 1int, i + 1int) =~= Seq::<char>::empty());
                assert(spec_split(prefix1, c) == spec_split(prefix, c).push(
                    Seq::<char>::empty(),
                ));
                assert(done.deep_view().push(s@.subrange(start as int, i + 1int)) =~= spec_split(
                    prefix1,
                    c,
                ));
            }
        } else {
            proof {
                let r = spec_split(prefix, c);
                lemma_split_len(prefix, c);
                assert(prefix1[prefix1.len() - 1] != c);
                assert(spec_split(prefix1, c) == r.update(r.len() - 1, r.last().push(
                    s@[i as int],
                )));
                assert(r.last() == s@.subrange(start as int, i as int));
                assert(s@.subrange(start as int, i as int).push(s@[i as int]) =~= s@.subrange(
                    start as int,
                    i + 1int,
                ));
                assert(done.deep_view().push(s@.subrange(start as int, i + 1int)) =~= r.update(
                    r.len() - 1,
                    r.last().push(s@[i as int]),
                ));
            }
        }
        i += 1;
    }
    proof {
        assert(s@.subrange(0, n as int) =~= s@);
    }
    let piece = s.substring_char(start, n);
    let ghost pre_deep = done.deep_view();
    done.push(String::from_str(piece));
    proof {
        assert(done.deep_view() =~= pre_deep.push(piece@));
    }
    done
}

/// The character for one decimal digit.
pub open spec fn spec_digit_char(d: nat) -> char {
    ((48 + d) as u8) as char
}

/// Decimal representation of a natural number, most significant digit first.
pub open spec fn spec_dec(n: nat) -> Seq<char>
    decreases n,
{
    if n < 10 {
        seq![spec_digit_char(n)]
    } else {
        spec_dec(n / 10).push(spec_digit_char(n % 10))
    }
}

/// One decimal digit as a string slice.
fn digit_str(d: u64) -> (s: &'static str)
    requires
        d < 10,
    ensures
        s@ == seq![spec_digit_char(d as nat)],
{
    proof {
        reveal_strlit("0");
        reveal_strlit("1");
        reveal_strlit("2");
        reveal_strlit("3");
        reveal_strlit("4");
        reveal_strlit("5");
        reveal_strlit("6");
        reveal_strlit("7");
        reveal_strlit("8");
        reveal_strlit("9");
    }
    let s: &'static str = if d == 0 {
        "0"
    } else if d == 1 {
        "1"
    } else if d == 2 {
        "2"
    } else if d == 3 {
        "3"
    } else if d == 4 {
        "4"
    } else if d == 5 {
        "5"
    } else if d == 6 {
        "6"
    } else if d == 7 {
        "7"
    } else if d == 8 {
        "8"
    } else {
        "9"
    };
    proof {
        assert(s@ =~= seq![spec_digit_char(d as nat)]);
    }
    s
}

/// Decimal rendering of a `u64`.
pub fn u64_to_dec(n: u64) -> (r: String)
    ensures
        r@ == spec_dec(n as nat),
    decreases n,
{
    if n < 10 {
        String::from_str(digit_str(n))
    } else {
        let mut r = u64_to_dec(n / 10);
        r.append(digit_str(n % 10));
        proof {
            assert(r@ =~= spec_dec((n / 10) as nat).push(spec_digit_char((n % 10) as nat)));
        }
        r
    }
}


/// Position of the first occurrence of `p` in `s`, or -1 when there is none.
pub open spec fn spec_first_at(s: Seq<char>, p: Seq<char>) -> int
    decreases s.len(),
{
    if contains_at(s, 0, p) {
        0
    } else if s.len() == 0 {
        -1
    } else {
        let r = spec_first_at(s.drop_first(), p);
        if r == -1 {
            -1
        } else {
            r + 1
        }
    }
}

/// An occurrence one position further in `s` is an occurrence in `s` without
/// its first character, and the other way round.
proof fn lemma_contains_at_shift(s: Seq<char>, p: Seq<char>, k: int)
    requires
        s.len() > 0,
        k >= 0,
    ensures
        contains_at(s, k + 1, p) == contains_at(s.drop_first(), k, p),
{
    if k + 1 + p.len() <= s.len() {
        assert(s.subrange(k + 1, k + 1 + p.len()) =~= s.drop_first().subrange(k, k + p.len()));
    }
}

/// `spec_first_at` is the position of the first occurrence: -1 means none,
/// anything else is an occurrence with none before it.
pub proof fn lemma_first_at(s: Seq<char>, p: Seq<char>)
    ensures
        ({
            let r = spec_first_at(s, p);
            &&& r >= -1
            &&& r == -1 ==> !contains_seq(s, p)
            &&& r >= 0 ==> contains_at(s, r, p) && (forall|k: int|
                0 <= k < r ==> !contains_at(s, k, p))
        }),
    decreases s.len(),
{
    let r = spec_first_at(s, p);
    if !contains_at(s, 0, p) && s.len() > 0 {
        lemma_first_at(s.drop_first(), p);
        let r1 = spec_first_at(s.drop_first(), p);
        assert forall|k: int| k >= 1 implies contains_at(s, k, p) == contains_at(
            s.drop_first(),
            k - 1,
            p,
        ) by {
            lemma_contains_at_shift(s, p, k - 1);
        }
        if r1 == -1 {
            assert forall|k: int| !contains_at(s, k, p) by {
                if k >= 1 {
                    assert(!contains_at(s.drop_first(), k - 1, p));
                }
            }
        } else {
            assert(contains_at(s.drop_first(), r1, p));
            assert(contains_at(s, r1 + 1, p));
        }
    }
}

/// A decimal digit character.
pub open spec fn is_digit(c: char) -> bool {
    '0' <= c && c <= '9'
}

/// The length of the run of digit characters starting at `i`.
pub open spec fn spec_digit_run(s: Seq<char>, i: int) -> nat
    decreases s.len() - i,
{
    if i < 0 || i >= s.len() || !is_digit(s[i]) {
        0
    } else {
        1 + spec_digit_run(s, i + 1)
    }
}

/// The number written by a sequence of digit characters, most significant
/// first.
pub open spec fn spec_digits_value(s: Seq<char>) -> int
    decreases s.len(),
{
    if s.len() == 0 {
        0
    } else {
        spec_digits_value(s.drop_last()) * 10 + (s.last() as int - 48)
    }
}

/// The value of a digit sequence is non-negative.
pub proof fn lemma_digits_value_nonneg(s: Seq<char>)
    requires
        forall|m: int| 0 <= m < s.len() ==> is_digit(#[trigger] s[m]),
    ensures
        spec_digits_value(s) >= 0,
    decreases s.len(),
{
    if s.len() > 0 {
        lemma_digits_value_nonneg(s.drop_last());
    }
}


/// ASCII lowercasing of one character; other characters are kept.
pub open spec fn spec_ascii_lower_char(c: char) -> char {
    if 'A' <= c && c <= 'Z' {
        (((c as u8) + 32) as u8) as char
    } else {
        c
    }
}

/// ASCII lowercasing of a character sequence.
pub open spec fn spec_ascii_lower(s: Seq<char>) -> Seq<char> {
    s.map_values(|c: char| spec_ascii_lower_char(c))
}

fn ascii_lower_char(c: char) -> (r: char)
    ensures
        r == spec_ascii_lower_char(c),
{
    if 'A' <= c && c <= 'Z' {
        ((c as u8) + 32) as char
    } else {
        c
    }
}

/// Whether two string slices are equal up to ASCII case.
pub fn eq_ignore_ascii_case(a: &str, b: &str) -> (r: bool)
    ensures
        r == (spec_ascii_lower(a@) == spec_ascii_lower(b@)),
{
    let la = a.unicode_len();
    let lb = b.unicode_len();
    if la != lb {
        proof {
            assert(spec_ascii_lower(a@).len() == a@.len());
            assert(spec_ascii_lower(b@).len() == b@.len());
        }
        return false;
    }
    let mut i: usize = 0;
    while i < la
        invariant
            i <= la,
            la == a@.len(),
            la == b@.len(),
            forall|j: int|
                0 <= j < i ==> spec_ascii_lower_char(a@[j]) == spec_ascii_lower_char(b@[j]),
        decreases la - i,
    {
        if ascii_lower_char(a.get_char(i)) != ascii_lower_char(b.get_char(i)) {
            proof {
                assert(spec_ascii_lower(a@)[i as int] != spec_ascii_lower(b@)[i as int]);
            }
            return false;
        }
        i += 1;
    }
    proof {
        assert(spec_ascii_lower(a@) =~= spec_ascii_lower(b@));
    }
    true
}

} // verus!
