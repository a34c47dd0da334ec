//! Character-sequence primitives shared by the text formatter and the
//! transcript cleaner: literal substring replacement, whitespace collapsing,
//! trimming, and first-letter capitalization, each with an exact
//! sequence-level specification.

use vstd::prelude::*;

verus! {

/// The pattern `pat` occurs in `s` starting at index `i`.
pub open spec fn occurs_at(s: Seq<char>, pat: Seq<char>, i: int) -> bool {
    0 <= i && i + pat.len() <= s.len() && s.subrange(i, i + pat.len() as int) == pat
}

/// The pattern `pat` occurs nowhere in `s`.
pub open spec fn no_occurrence(s: Seq<char>, pat: Seq<char>) -> bool {
    forall|i: int| !occurs_at(s, pat, i)
}

/// Every occurrence of `pat` in `s`, scanning left to right without overlap,
/// replaced by `rep`; an empty pattern leaves `s` unchanged.
pub open spec fn replace_all(s: Seq<char>, pat: Seq<char>, rep: Seq<char>) -> Seq<char>
    decreases s.len(),
{
    if pat.len() == 0 || s.len() < pat.len() {
        s
    } else if s.subrange(0, pat.len() as int) == pat {
        rep + replace_all(s.subrange(pat.len() as int, s.len() as int), pat, rep)
    } else {
        seq![s[0]] + replace_all(s.subrange(1, s.len() as int), pat, rep)
    }
}

/// Every run of two or more spaces collapsed to a single space.
pub open spec fn collapse_spaces(s: Seq<char>) -> Seq<char>
    decreases s.len(),
{
    if s.len() == 0 {
        Seq::empty()
    } else if s.len() >= 2 && s[0] == ' ' && s[1] == ' ' {
        collapse_spaces(s.subrange(1, s.len() as int))
    } else {
        seq![s[0]] + collapse_spaces(s.subrange(1, s.len() as int))
    }
}

/// ASCII whitespace, the characters stripped by trimming.
pub open spec fn is_space_char(c: char) -> bool {
    c == ' ' || c == '\t' || c == '\n' || c == '\r'
}

/// `s` without its leading ASCII whitespace.
pub open spec fn trim_start(s: Seq<char>) -> Seq<char>
    decreases s.len(),
{
    if s.len() > 0 && is_space_char(s[0]) {
        trim_start(s.subrange(1, s.len() as int))
    } else {
        s
    }
}

/// `s` without its trailing ASCII whitespace.
pub open spec fn trim_end(s: Seq<char>) -> Seq<char>
    decreases s.len(),
{
    if s.len() > 0 && is_space_char(s[s.len() - 1]) {
        trim_end(s.subrange(0, s.len() - 1))
    } else {
        s
    }
}

/// `s` without leading and trailing ASCII whitespace.
pub open spec fn trim(s: Seq<char>) -> Seq<char> {
    trim_end(trim_start(s))
}

/// An ASCII lowercase letter.
pub open spec fn is_ascii_lower(c: char) -> bool {
    'a' <= c && c <= 'z'
}

/// The uppercase form of an ASCII lowercase letter; any other character is
/// left as it is.
pub open spec fn ascii_upper(c: char) -> char {
    if is_ascii_lower(c) {
        ((c as u8) - 32) as char
    } else {
        c
    }
}

/// `s` with its first character capitalized when that character is an ASCII
/// lowercase letter.
pub open spec fn capitalize_first(s: Seq<char>) -> Seq<char> {
    if s.len() > 0 && is_ascii_lower(s[0]) {
        seq![ascii_upper(s[0])] + s.subrange(1, s.len() as int)
    } else {
        s
    }
}

/// The characters of `s`, in order, as a vector.
pub fn str_chars(s: &str) -> (r: Vec<char>)
    ensures
        r@ == s@,
{
    let n = s.unicode_len();
    let mut v: Vec<char> = Vec::new();
    let mut i: usize = 0;
    while i < n
        invariant
            n == s@.len(),
            i <= n,
            v@ == s@.subrange(0, i as int),
        decreases n - i,
    {
        v.push(s.get_char(i));
        i = i + 1;
        proof {
            assert(v@ =~= s@.subrange(0, i as int));
        }
    }
    proof {
        assert(v@ =~= s@);
    }
    v
}

/// Relies on String::push: appends one character to the string.
#[verifier::external_body]
fn push_char(s: &mut String, c: char)
    ensures
        final(s)@ == old(s)@.push(c),
{
    s.push(c)
}

/// The characters of `v`, in order, as a string.
pub fn chars_string(v: &Vec<char>) -> (r: String)
    ensures
        r@ == v@,
{
    let mut s = String::new();
    let mut i: usize = 0;
    while i < v.len()
        invariant
            i <= v@.len(),
            s@ == v@.subrange(0, i as int),
        decreases v@.len() - i,
    {
        push_char(&mut s, v[i]);
        i = i + 1;
        proof {
            assert(s@ =~= v@.subrange(0, i as int));
        }
    }
    proof {
        assert(s@ =~= v@);
    }
    s
}

pub(crate) fn push_all<T: Copy>(dst: &mut Vec<T>, src: &Vec<T>)
    ensures
        final(dst)@ == old(dst)@ + src@,
{
    let mut j: usize = 0;
    while j < src.len()
        invariant
            j <= src@.len(),
            dst@ == old(dst)@ + src@.subrange(0, j as int),
        decreases src@.len() - j,
    {
        dst.push(src[j]);
        j = j + 1;
        proof {
            assert(dst@ =~= old(dst)@ + src@.subrange(0, j as int));
        }
    }
    proof {
        assert(old(dst)@ + src@.subrange(0, j as int) =~= old(dst)@ + src@);
    }
}

/// Whether `pat` occurs in `s` at index `i`.
fn matches_at(s: &Vec<char>, pat: &Vec<char>, i: usize) -> (r: bool)
    requires
        i <= s@.len(),
    ensures
        r == occurs_at(s@, pat@, i as int),
{
    if pat.len() > s.len() - i {
        return false;
    }
    let mut j: usize = 0;
    while j < pat.len()
        invariant
            j <= pat@.len(),
            i + pat@.len() <= s@.len(),
            s@.len() <= usize::MAX,
            forall|t: int| 0 <= t < j ==> s@[i + t] == pat@[t],
        decreases pat@.len() - j,
    {
        if s[i + j] != pat[j] {
            proof {
                if occurs_at(s@, pat@, i as int) {
                    assert(s@.subrange(i as int, i + pat@.len() as int)[j as int] == pat@[j as int]);
                }
            }
            return false;
        }
        j = j + 1;
    }
    proof {
        assert(s@.subrange(i as int, i + pat@.len() as int) =~= pat@);
    }
    true
}

proof fn lemma_replace_step_match(s: Seq<char>, pat: Seq<char>, rep: Seq<char>, i: int)
    requires
        pat.len() > 0,
        occurs_at(s, pat, i),
    ensures
        replace_all(s.subrange(i, s.len() as int), pat, rep) == rep + replace_all(
            s.subrange(i + pat.len() as int, s.len() as int),
            pat,
            rep,
        ),
{
    let tail = s.subrange(i, s.len() as int);
    assert(tail.subrange(0, pat.len() as int) =~= s.subrange(i, i + pat.len() as int));
    assert(tail.subrange(pat.len() as int, tail.len() as int) =~= s.subrange(
        i + pat.len() as int,
        s.len() as int,
    ));
}

proof fn lemma_replace_step_nomatch(s: Seq<char>, pat: Seq<char>, rep: Seq<char>, i: int)
    requires
        pat.len() > 0,
        0 <= i < s.len(),
        !occurs_at(s, pat, i),
    ensures
        replace_all(s.subrange(i, s.len() as int), pat, rep) == seq![s[i]] + replace_all(
            s.subrange(i + 1, s.len() as int),
            pat,
            rep,
        ),
{
    let tail = s.subrange(i, s.len() as int);
    if tail.len() < pat.len() {
        assert(s.subrange(i + 1, s.len() as int).len() < pat.len());
        assert(tail =~= seq![s[i]] + s.subrange(i + 1, s.len() as int));
    } else {
        assert(tail.subrange(0, pat.len() as int) =~= s.subrange(i, i + pat.len() as int));
        assert(tail.subrange(0, pat.len() as int) != pat);
        assert(tail.subrange(1, tail.len() as int) =~= s.subrange(i + 1, s.len() as int));
        assert(seq![tail[0]] =~= seq![s[i]]);
    }
}

/// Every occurrence of `pat` in `s`, left to right, replaced by `rep`.
pub fn replace_all_chars(s: &Vec<char>, pat: &Vec<char>, rep: &Vec<char>) -> (r: Vec<char>)
    requires
        pat@.len() > 0,
    ensures
        r@ == replace_all(s@, pat@, rep@),
{
    let mut out: Vec<char> = Vec::new();
    let mut i: usize = 0;
    proof {
        assert(s@.subrange(0, s@.len() as int) =~= s@);
        assert(Seq::<char>::empty() + replace_all(s@, pat@, rep@) =~= replace_all(s@, pat@, rep@));
    }
    while i < s.len()
        invariant
            pat@.len() > 0,
            i <= s@.len(),
            replace_all(s@, pat@, rep@) == out@ + replace_all(
                s@.subrange(i as int, s@.len() as int),
                pat@,
                rep@,
            ),
        decreases s@.len() - i,
    {
        if matches_at(s, pat, i) {
            proof {
                lemma_replace_step_match(s@, pat@, rep@, i as int);
                assert(out@ + (rep@ + replace_all(
                    s@.subrange(i + pat@.len() as int, s@.len() as int),
                    pat@,
                    rep@,
                )) =~= (out@ + rep@) + replace_all(
                    s@.subrange(i + pat@.len() as int, s@.len() as int),
                    pat@,
                    rep@,
                ));
            }
            push_all(&mut out, rep);
            i = i + pat.len();
        } else {
            proof {
                lemma_replace_step_nomatch(s@, pat@, rep@, i as int);
                assert(out@ + (seq![s@[i as int]] + replace_all(
                    s@.subrange(i + 1, s@.len() as int),
                    pat@,
                    rep@,
                )) =~= out@.push(s@[i as int]) + replace_all(
                    s@.subrange(i + 1, s@.len() as int),
                    pat@,
                    rep@,
                ));
            }
            out.push(s[i]);
            i = i + 1;
        }
    }
    proof {
        assert(s@.subrange(i as int, s@.len() as int) =~= Seq::<char>::empty());
        assert(out@ + Seq::<char>::empty() =~= out@);
    }
    out
}

proof fn lemma_collapse_step(s: Seq<char>, i: int)
    requires
        0 <= i < s.len(),
    ensures
        (if s[i] == ' ' && i + 1 < s.len() && s[i + 1] == ' ' {
            collapse_spaces(s.subrange(i, s.len() as int)) == collapse_spaces(
                s.subrange(i + 1, s.len() as int),
            )
        } else {
            collapse_spaces(s.subrange(i, s.len() as int)) == seq![s[i]] + collapse_spaces(
                s.subrange(i + 1, s.len() as int),
            )
        }),
{
    let tail = s.subrange(i, s.len() as int);
    assert(tail.subrange(1, tail.len() as int) =~= s.subrange(i + 1, s.len() as int));
    assert(seq![tail[0]] =~= seq![s[i]]);
}

/// Every run of two or more spaces in `s` collapsed to a single space.
pub fn collapse_spaces_chars(s: &Vec<char>) -> (r: Vec<char>)
    ensures
        r@ == collapse_spaces(s@),
{
    let mut out: Vec<char> = Vec::new();
    let mut i: usize = 0;
    proof {
        assert(s@.subrange(0, s@.len() as int) =~= s@);
        assert(Seq::<char>::empty() + collapse_spaces(s@) =~= collapse_spaces(s@));
    }
    while i < s.len()
        invariant
            i <= s@.len(),
            collapse_spaces(s@) == out@ + collapse_spaces(s@.subrange(i as int, s@.len() as int)),
        decreases s@.len() - i,
    {
        proof {
            lemma_collapse_step(s@, i as int);
        }
        if s[i] == ' ' && i + 1 < s.len() && s[i + 1] == ' ' {
        } else {
            proof {
                assert(out@ + (seq![s@[i as int]] + collapse_spaces(
                    s@.subrange(i + 1, s@.len() as int),
                )) =~= out@.push(s@[i as int]) + collapse_spaces(
                    s@.subrange(i + 1, s@.len() as int),
                ));
            }
            out.push(s[i]);
        }
        i = i + 1;
    }
    proof {
        assert(s@.subrange(i as int, s@.len() as int) =~= Seq::<char>::empty());
        assert(out@ + collapse_spaces(Seq::<char>::empty()) =~= out@);
    }
    out
}

fn is_space(c: char) -> (r: bool)
    ensures
        r == is_space_char(c),
{
    c == ' ' || c == '\t' || c == '\n' || c == '\r'
}

proof fn lemma_trim_start_at(s: Seq<char>, a: int)
    requires
        0 <= a <= s.len(),
        forall|t: int| 0 <= t < a ==> is_space_char(s[t]),
        a < s.len() ==> !is_space_char(s[a]),
    ensures
        trim_start(s) == s.subrange(a, s.len() as int),
    decreases a,
{
    if a == 0 {
        assert(s.subrange(0, s.len() as int) =~= s);
    } else {
        let rest = s.subrange(1, s.len() as int);
        lemma_trim_start_at(rest, a - 1);
        assert(rest.subrange(a - 1, rest.len() as int) =~= s.subrange(a, s.len() as int));
    }
}

proof fn lemma_trim_end_at(s: Seq<char>, b: int)
    requires
        0 <= b <= s.len(),
        forall|t: int| b <= t < s.len() ==> is_space_char(s[t]),
        b > 0 ==> !is_space_char(s[b - 1]),
    ensures
        trim_end(s) == s.subrange(0, b),
    decreases s.len(),
{
    if b == s.len() {
        if s.len() > 0 && is_space_char(s[s.len() - 1]) {
            assert(!is_space_char(s[b - 1]));
            assert(false);
        }
        assert(s.subrange(0, s.len() as int) =~= s);
    } else {
        let head = s.subrange(0, s.len() - 1);
        lemma_trim_end_at(head, b);
        assert(head.subrange(0, b) =~= s.subrange(0, b));
    }
}

/// `s` without leading and trailing ASCII whitespace.
pub fn trim_chars(s: &Vec<char>) -> (r: Vec<char>)
    ensures
        r@ == trim(s@),
{
    let mut a: usize = 0;
    while a < s.len() && is_space(s[a])
        invariant
            a <= s@.len(),
            forall|t: int| 0 <= t < a ==> is_space_char(s@[t]),
        decreases s@.len() - a,
    {
        a = a + 1;
    }
    proof {
        lemma_trim_start_at(s@, a as int);
    }
    let mut b: usize = s.len();
    while b > a && is_space(s[b - 1])
        invariant
            a <= b <= s@.len(),
            forall|t: int| b <= t < s@.len() ==> is_space_char(s@[t]),
        decreases b,
    {
        b = b - 1;
    }
    let ghost mid = s@.subrange(a as int, s@.len() as int);
    proof {
        assert(forall|t: int|
            b - a <= t < mid.len() ==> is_space_char(#[trigger] mid[t]) && mid[t] == s@[t + a]);
        if b > a {
            assert(!is_space_char(mid[b - a - 1]));
        }
        lemma_trim_end_at(mid, b - a);
        assert(mid.subrange(0, b - a) =~= s@.subrange(a as int, b as int));
    }
    let mut out: Vec<char> = Vec::new();
    let mut i: usize = a;
    while i < b
        invariant
            a <= i <= b <= s@.len(),
            out@ == s@.subrange(a as int, i as int),
        decreases b - i,
    {
        out.push(s[i]);
        i = i + 1;
        proof {
            assert(out@ =~= s@.subrange(a as int, i as int));
        }
    }
    out
}

/// `s` with its first character capitalized when it is an ASCII lowercase
/// letter.
pub fn capitalize_first_chars(s: &Vec<char>) -> (r: Vec<char>)
    ensures
        r@ == capitalize_first(s@),
{
    let mut out: Vec<char> = Vec::new();
    let mut i: usize = 0;
    while i < s.len()
        invariant
            i <= s@.len(),
            out@ == capitalize_first(s@).subrange(0, i as int),
            capitalize_first(s@).len() == s@.len(),
        decreases s@.len() - i,
    {
        let c = s[i];
        if i == 0 && 'a' <= c && c <= 'z' {
            out.push(((c as u8) - 32) as char);
        } else {
            out.push(c);
        }
        i = i + 1;
        proof {
            assert(out@ =~= capitalize_first(s@).subrange(0, i as int));
        }
    }
    proof {
        assert(capitalize_first(s@).subrange(0, i as int) =~= capitalize_first(s@));
    }
    out
}

/// Replacement with a nonempty replacement never empties a nonempty
/// sequence.
pub proof fn lemma_replace_all_nonempty(s: Seq<char>, pat: Seq<char>, rep: Seq<char>)
    requires
        s.len() > 0,
        rep.len() > 0,
    ensures
        replace_all(s, pat, rep).len() > 0,
    decreases s.len(),
{
    if pat.len() == 0 || s.len() < pat.len() {
    } else if s.subrange(0, pat.len() as int) == pat {
    } else {
    }
}

/// Collapsing spaces keeps a nonempty sequence nonempty and keeps its first
/// character.
pub proof fn lemma_collapse_spaces_first(s: Seq<char>)
    requires
        s.len() > 0,
    ensures
        collapse_spaces(s).len() > 0,
        collapse_spaces(s)[0] == s[0],
    decreases s.len(),
{
    if s.len() >= 2 && s[0] == ' ' && s[1] == ' ' {
        lemma_collapse_spaces_first(s.subrange(1, s.len() as int));
    }
}

/// Replacing a pattern that does not occur in `s` leaves `s` unchanged.
pub proof fn lemma_replace_all_absent(s: Seq<char>, pat: Seq<char>, rep: Seq<char>)
    requires
        pat.len() > 0,
        no_occurrence(s, pat),
    ensures
        replace_all(s, pat, rep) == s,
    decreases s.len(),
{
    if s.len() < pat.len() {
    } else {
        assert(!occurs_at(s, pat, 0));
        let rest = s.subrange(1, s.len() as int);
        assert forall|i: int| !occurs_at(rest, pat, i) by {
            if occurs_at(rest, pat, i) {
                assert(rest.subrange(i, i + pat.len() as int) =~= s.subrange(
                    i + 1,
                    i + 1 + pat.len() as int,
                ));
                assert(occurs_at(s, pat, i + 1));
            }
        }
        lemma_replace_all_absent(rest, pat, rep);
        assert(seq![s[0]] + rest =~= s);
    }
}

/// Collapsing spaces in a sequence with no two adjacent spaces leaves it
/// unchanged.
pub proof fn lemma_collapse_spaces_single(s: Seq<char>)
    requires
        no_occurrence(s, seq![' ', ' ']),
    ensures
        collapse_spaces(s) == s,
    decreases s.len(),
{
    if s.len() == 0 {
        assert(collapse_spaces(s) =~= s);
    } else {
        if s.len() >= 2 && s[0] == ' ' && s[1] == ' ' {
            assert(s.subrange(0, 2) =~= seq![' ', ' ']);
            assert(occurs_at(s, seq![' ', ' '], 0));
            assert(false);
        }
        let rest = s.subrange(1, s.len() as int);
        assert forall|i: int| !occurs_at(rest, seq![' ', ' '], i) by {
            if occurs_at(rest, seq![' ', ' '], i) {
                assert(rest.subrange(i, i + 2) =~= s.subrange(i + 1, i + 3));
                assert(occurs_at(s, seq![' ', ' '], i + 1));
            }
        }
        lemma_collapse_spaces_single(rest);
        assert(seq![s[0]] + rest =~= s);
    }
}

} // verus!
