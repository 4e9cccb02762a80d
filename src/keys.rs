//! Tracker keys in pull-request titles.
//!
//! A title names a requirement when it starts with `LETTERS-NUMBER-NUMBER` and
//! a feature when it starts with `LETTERS-NUMBER`, where letters are `A` to `Z`
//! and a number is a run of decimal digits.
use vstd::prelude::*;

verus! {

/// The two kinds of tracker record that a title can name.
#[derive(Clone, Copy, Debug, PartialEq, Eq, Structural)]
pub enum TrackerKind {
    Feature,
    Requirement,
}

/// A tracker record named by a pull-request title.
#[derive(Clone, Debug)]
pub struct TrackerItemRef {
    pub kind: TrackerKind,
    pub key: String,
}

impl View for TrackerItemRef {
    type V = (TrackerKind, Seq<char>);

    open spec fn view(&self) -> (TrackerKind, Seq<char>) {
        (self.kind, self.key@)
    }
}

impl TrackerItemRef {
    /// A copy of this reference.
    pub fn copy(&self) -> (r: TrackerItemRef)
        ensures
            r == *self,
    {
        TrackerItemRef { kind: self.kind, key: self.key.clone() }
    }
}

pub open spec fn is_key_letter(c: char) -> bool {
    'A' <= c && c <= 'Z'
}

pub open spec fn is_key_digit(c: char) -> bool {
    '0' <= c && c <= '9'
}

/// Whether `c` is a decimal digit (`digits`) or an upper-case letter (`!digits`).
pub open spec fn in_class(c: char, digits: bool) -> bool {
    if digits {
        is_key_digit(c)
    } else {
        is_key_letter(c)
    }
}

/// The number of consecutive characters of one class in `s` from index `i` on.
pub open spec fn run_from(s: Seq<char>, i: int, digits: bool) -> nat
    decreases s.len() - i,
{
    if 0 <= i < s.len() && in_class(s[i], digits) {
        1 + run_from(s, i + 1, digits)
    } else {
        0
    }
}

/// The length of the longest prefix of `s` shaped `LETTERS-NUMBER`, if there is one.
pub open spec fn feature_prefix_len(s: Seq<char>) -> Option<int> {
    let a = run_from(s, 0, false) as int;
    if a > 0 && a < s.len() && s[a] == '-' && run_from(s, a + 1, true) > 0 {
        Some(a + 1 + run_from(s, a + 1, true))
    } else {
        None
    }
}

/// The length of the longest prefix of `s` shaped `LETTERS-NUMBER-NUMBER`, if there is one.
pub open spec fn requirement_prefix_len(s: Seq<char>) -> Option<int> {
    match feature_prefix_len(s) {
        Some(n) => if n < s.len() && s[n] == '-' && run_from(s, n + 1, true) > 0 {
            Some(n + 1 + run_from(s, n + 1, true))
        } else {
            None
        },
        None => None,
    }
}

/// The record that a trimmed title `s` names: a requirement key is looked for
/// first, then a feature key.
pub open spec fn key_of(s: Seq<char>) -> Option<(TrackerKind, Seq<char>)> {
    match requirement_prefix_len(s) {
        Some(n) => Some((TrackerKind::Requirement, s.take(n))),
        None => match feature_prefix_len(s) {
            Some(n) => Some((TrackerKind::Feature, s.take(n))),
            None => None,
        },
    }
}

fn char_in_class(c: char, digits: bool) -> (r: bool)
    ensures
        r == in_class(c, digits),
{
    if digits {
        '0' <= c && c <= '9'
    } else {
        'A' <= c && c <= 'Z'
    }
}

/// The index just past the run of one class of characters that starts at `start`.
fn run_end(s: &str, len: usize, start: usize, digits: bool) -> (end: usize)
    requires
        len == s@.len(),
        start <= len,
    ensures
        end == start + run_from(s@, start as int, digits),
        end <= len,
{
    let mut i: usize = start;
    while i < len && char_in_class(s.get_char(i), digits)
        invariant
            start <= i <= len,
            len == s@.len(),
            run_from(s@, start as int, digits) == (i - start) + run_from(s@, i as int, digits),
        decreases len - i,
    {
        i = i + 1;
    }
    i
}


/// The length of the feature-shaped prefix of `s`, computed by scanning.
fn feature_len(s: &str, len: usize) -> (r: Option<usize>)
    requires
        len == s@.len(),
    ensures
        r is Some <==> feature_prefix_len(s@) is Some,
        r is Some ==> r->0 as int == feature_prefix_len(s@)->0,
        r is Some ==> r->0 <= len,
{
    let a = run_end(s, len, 0, false);
    if a > 0 && a < len && s.get_char(a) == '-' {
        let b = run_end(s, len, a + 1, true);
        if b > a + 1 {
            Some(b)
        } else {
            None
        }
    } else {
        None
    }
}

/// The length of the requirement-shaped prefix of `s`, computed by scanning.
fn requirement_len(s: &str, len: usize) -> (r: Option<usize>)
    requires
        len == s@.len(),
    ensures
        r is Some <==> requirement_prefix_len(s@) is Some,
        r is Some ==> r->0 as int == requirement_prefix_len(s@)->0,
        r is Some ==> r->0 <= len,
{
    match feature_len(s, len) {
        Some(n) => {
            if n < len && s.get_char(n) == '-' {
                let c = run_end(s, len, n + 1, true);
                if c > n + 1 {
                    Some(c)
                } else {
                    None
                }
            } else {
                None
            }
        },
        None => None,
    }
}

/// The record that an already trimmed title names, or `None` when it starts
/// with neither key shape.
pub fn extract_key(s: &str) -> (r: Option<TrackerItemRef>)
    ensures
        match key_of(s@) {
            Some(k) => r is Some && r->0@ == k,
            None => r is None,
        },
{
    let len = s.unicode_len();
    match requirement_len(s, len) {
        Some(n) => Some(TrackerItemRef { kind: TrackerKind::Requirement, key: s.substring_char(0, n).to_owned() }),
        None => match feature_len(s, len) {
            Some(n) => Some(TrackerItemRef { kind: TrackerKind::Feature, key: s.substring_char(0, n).to_owned() }),
            None => None,
        },
    }
}

/// What `str::trim` leaves of a text.
pub uninterp spec fn trim_of(s: Seq<char>) -> Seq<char>;

/// Relies on `str::trim`: drops leading and trailing white space, and the
/// result depends on the characters alone.
#[verifier::external_body]
fn trim<'a>(s: &'a str) -> (r: &'a str)
    ensures
        r@ == trim_of(s@),
{
    s.trim()
}

/// The record that a pull-request title names: the title is trimmed, then
/// searched for a requirement key and then for a feature key at its start.
pub fn title_key(title: &str) -> (r: Option<TrackerItemRef>)
    ensures
        match key_of(trim_of(title@)) {
            Some(k) => r is Some && r->0@ == k,
            None => r is None,
        },
{
    extract_key(trim(title))
}

/// Every character of `s` in `[i, j)` is of one class.
pub open spec fn all_in_class(s: Seq<char>, i: int, j: int, digits: bool) -> bool {
    forall|k: int| i <= k < j ==> in_class(#[trigger] s[k], digits)
}

/// `k` is shaped `LETTERS-NUMBER`.
pub open spec fn is_feature_key(k: Seq<char>) -> bool {
    exists|a: int|
        0 < a && a + 1 < k.len() && all_in_class(k, 0, a, false) && k[a] == '-' && all_in_class(
            k,
            a + 1,
            k.len() as int,
            true,
        )
}

/// `k` is shaped `LETTERS-NUMBER-NUMBER`.
pub open spec fn is_requirement_key(k: Seq<char>) -> bool {
    exists|a: int, b: int|
        0 < a && a + 1 < b && b + 1 < k.len() && all_in_class(k, 0, a, false) && k[a] == '-'
            && all_in_class(k, a + 1, b, true) && k[b] == '-' && all_in_class(
            k,
            b + 1,
            k.len() as int,
            true,
        )
}

proof fn lemma_run_spans(s: Seq<char>, i: int, digits: bool)
    requires
        0 <= i <= s.len(),
    ensures
        i + run_from(s, i, digits) <= s.len(),
        all_in_class(s, i, i + run_from(s, i, digits), digits),
        i + run_from(s, i, digits) < s.len() ==> !in_class(s[i + run_from(s, i, digits)], digits),
    decreases s.len() - i,
{
    if i < s.len() && in_class(s[i], digits) {
        lemma_run_spans(s, i + 1, digits);
    }
}

proof fn lemma_run_covers(s: Seq<char>, i: int, j: int, digits: bool)
    requires
        0 <= i <= j <= s.len(),
        all_in_class(s, i, j, digits),
    ensures
        run_from(s, i, digits) >= j - i,
    decreases j - i,
{
    if i < j {
        assert(in_class(s[i], digits));
        lemma_run_covers(s, i + 1, j, digits);
    }
}

/// The run of one class that starts at `i` ends exactly at `j` when `[i, j)`
/// is of that class and `s[j]` is not.
proof fn lemma_run_exact(s: Seq<char>, i: int, j: int, digits: bool)
    requires
        0 <= i <= j < s.len(),
        all_in_class(s, i, j, digits),
        !in_class(s[j], digits),
    ensures
        run_from(s, i, digits) == j - i,
{
    lemma_run_covers(s, i, j, digits);
    lemma_run_spans(s, i, digits);
    if run_from(s, i, digits) > j - i {
        assert(in_class(s[j], digits));
    }
}

/// A class of characters over `[i, j)` of `s` holds over the same range of a
/// prefix of `s` that covers it, and back.
proof fn lemma_class_in_prefix(s: Seq<char>, n: int, i: int, j: int, digits: bool)
    requires
        0 <= i,
        j <= n <= s.len(),
    ensures
        all_in_class(s.take(n), i, j, digits) == all_in_class(s, i, j, digits),
{
    let k = s.take(n);
    if all_in_class(k, i, j, digits) {
        assert forall|x: int| i <= x < j implies in_class(#[trigger] s[x], digits) by {
            assert(k[x] == s[x]);
        }
    }
    if all_in_class(s, i, j, digits) {
        assert forall|x: int| i <= x < j implies in_class(#[trigger] k[x], digits) by {
            assert(k[x] == s[x]);
        }
    }
}

proof fn lemma_prefix_lens_shaped(s: Seq<char>)
    ensures
        feature_prefix_len(s) is Some ==> 0 < feature_prefix_len(s)->0 <= s.len()
            && is_feature_key(s.take(feature_prefix_len(s)->0)),
        requirement_prefix_len(s) is Some ==> 0 < requirement_prefix_len(s)->0 <= s.len()
            && is_requirement_key(s.take(requirement_prefix_len(s)->0)),
{
    lemma_run_spans(s, 0, false);
    let a = run_from(s, 0, false) as int;
    if feature_prefix_len(s) is Some {
        lemma_run_spans(s, a + 1, true);
        let n = feature_prefix_len(s)->0;
        let k = s.take(n);
        lemma_class_in_prefix(s, n, 0, a, false);
        lemma_class_in_prefix(s, n, a + 1, n, true);
        assert(k[a] == '-');
        assert(is_feature_key(k));
        if requirement_prefix_len(s) is Some {
            lemma_run_spans(s, n + 1, true);
            let m = requirement_prefix_len(s)->0;
            let q = s.take(m);
            lemma_class_in_prefix(s, m, 0, a, false);
            lemma_class_in_prefix(s, m, a + 1, n, true);
            lemma_class_in_prefix(s, m, n + 1, m, true);
            assert(q[a] == '-');
            assert(q[n] == '-');
            assert(is_requirement_key(q));
        }
    }
}

proof fn lemma_shaped_prefix_bounded(s: Seq<char>, n: int)
    requires
        0 <= n <= s.len(),
    ensures
        is_feature_key(s.take(n)) ==> feature_prefix_len(s) is Some && n <= feature_prefix_len(
            s,
        )->0,
        is_requirement_key(s.take(n)) ==> requirement_prefix_len(s) is Some && n
            <= requirement_prefix_len(s)->0,
{
    let k = s.take(n);
    if is_feature_key(k) {
        let a = choose|a: int|
            0 < a && a + 1 < k.len() && all_in_class(k, 0, a, false) && k[a] == '-'
                && all_in_class(k, a + 1, k.len() as int, true);
        lemma_class_in_prefix(s, n, 0, a, false);
        lemma_class_in_prefix(s, n, a + 1, n, true);
        assert(s[a] == k[a]);
        lemma_run_exact(s, 0, a, false);
        lemma_run_covers(s, a + 1, n, true);
    }
    if is_requirement_key(k) {
        let (a, b) = choose|a: int, b: int|
            0 < a && a + 1 < b && b + 1 < k.len() && all_in_class(k, 0, a, false) && k[a] == '-'
                && all_in_class(k, a + 1, b, true) && k[b] == '-' && all_in_class(
                k,
                b + 1,
                k.len() as int,
                true,
            );
        lemma_class_in_prefix(s, n, 0, a, false);
        lemma_class_in_prefix(s, n, a + 1, b, true);
        lemma_class_in_prefix(s, n, b + 1, n, true);
        assert(s[a] == k[a]);
        assert(s[b] == k[b]);
        lemma_run_exact(s, 0, a, false);
        lemma_run_exact(s, a + 1, b, true);
        assert(feature_prefix_len(s) == Some(b));
        lemma_run_covers(s, b + 1, n, true);
    }
}

/// Key extraction on a trimmed title: when some prefix is shaped
/// `LETTERS-NUMBER-NUMBER` the title names a requirement whose key is the
/// longest such prefix; otherwise, when some prefix is shaped `LETTERS-NUMBER`,
/// it names a feature whose key is the longest such prefix; otherwise it names
/// nothing.
pub proof fn law_key_is_longest_shaped_prefix(s: Seq<char>)
    ensures
        (exists|n: int| 0 <= n <= s.len() && is_requirement_key(#[trigger] s.take(n))) ==> (key_of(
            s,
        ) matches Some((kind, k)) && kind == TrackerKind::Requirement && is_requirement_key(k)
            && s.take(k.len() as int) == k && forall|n: int|
            0 <= n <= s.len() && is_requirement_key(#[trigger] s.take(n)) ==> n <= k.len()),
        (!exists|n: int| 0 <= n <= s.len() && is_requirement_key(#[trigger] s.take(n))) && (exists|
            n: int,
        |
            0 <= n <= s.len() && is_feature_key(#[trigger] s.take(n))) ==> (key_of(s) matches Some(
            (kind, k),
        ) && kind == TrackerKind::Feature && is_feature_key(k) && s.take(k.len() as int) == k
            && forall|n: int|
            0 <= n <= s.len() && is_feature_key(#[trigger] s.take(n)) ==> n <= k.len()),
        (!exists|n: int| 0 <= n <= s.len() && is_requirement_key(#[trigger] s.take(n))) && (!exists|
            n: int,
        |
            0 <= n <= s.len() && is_feature_key(#[trigger] s.take(n))) ==> key_of(s) is None,
{
    lemma_prefix_lens_shaped(s);
    assert forall|n: int| 0 <= n <= s.len() implies (is_requirement_key(#[trigger] s.take(n)) ==> requirement_prefix_len(s) is Some
        && n <= requirement_prefix_len(s)->0) && (is_feature_key(s.take(n)) ==> feature_prefix_len(s) is Some && n <= feature_prefix_len(s)->0) by {
        lemma_shaped_prefix_bounded(s, n);
    }
    if requirement_prefix_len(s) is Some {
        let m = requirement_prefix_len(s)->0;
        assert(s.take(m).len() == m);
        assert(s.take(s.take(m).len() as int) == s.take(m));
    } else if feature_prefix_len(s) is Some {
        let m = feature_prefix_len(s)->0;
        assert(s.take(m).len() == m);
        assert(s.take(s.take(m).len() as int) == s.take(m));
    }
}

} // verus!
