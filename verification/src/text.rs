//! Text operations, stated and proved over sequences of characters.

use vstd::prelude::*;
use vstd::string::*;

verus! {

/// The view of an optional value.
pub open spec fn opt_view<T: View>(item: Option<T>) -> Option<T::V> {
    match item {
        Some(value) => Some(value@),
        None => None,
    }
}

/// The views of a sequence of values.
pub open spec fn views<T: View>(items: Seq<T>) -> Seq<T::V> {
    items.map_values(|item: T| item@)
}

/// The views of an optional sequence of values.
pub open spec fn opt_views<T: View>(items: Option<Vec<T>>) -> Option<Seq<T::V>> {
    match items {
        Some(items) => Some(views(items@)),
        None => None,
    }
}

/// Whether two texts are equal.
pub fn same_text(a: &str, b: &str) -> (same: bool)
    ensures
        same == (a@ == b@),
{
    a.to_owned() == b.to_owned()
}

/// The decimal digit of a value below ten.
pub open spec fn digit_char(d: nat) -> char {
    if d == 0 {
        '0'
    } else if d == 1 {
        '1'
    } else if d == 2 {
        '2'
    } else if d == 3 {
        '3'
    } else if d == 4 {
        '4'
    } else if d == 5 {
        '5'
    } else if d == 6 {
        '6'
    } else if d == 7 {
        '7'
    } else if d == 8 {
        '8'
    } else {
        '9'
    }
}

/// The decimal numeral of a natural number, without leading zeros.
pub open spec fn decimal(n: nat) -> Seq<char>
    decreases n,
{
    if n < 10 {
        seq![digit_char(n)]
    } else {
        decimal(n / 10).push(digit_char(n % 10))
    }
}

fn digit_text(d: u64) -> (text: &'static str)
    requires
        d < 10,
    ensures
        text@ == seq![digit_char(d as nat)],
{
    proof {
        reveal_strlit("0");
        reveal_strlit("1");
        reveal_strlit("2");
        reveal_strlit("3");
        reveal_strlit("4");
        reveal_strlit("5");
        reveal_strlit("6");
        reveal_strlit("7");
        reveal_strlit("8");
        reveal_strlit("9");
    }
    let text: &'static str = if d == 0 {
        "0"
    } else if d == 1 {
        "1"
    } else if d == 2 {
        "2"
    } else if d == 3 {
        "3"
    } else if d == 4 {
        "4"
    } else if d == 5 {
        "5"
    } else if d == 6 {
        "6"
    } else if d == 7 {
        "7"
    } else if d == 8 {
        "8"
    } else {
        "9"
    };
    assert(text@ =~= seq![digit_char(d as nat)]);
    text
}

/// Writes a number in decimal.
pub fn decimal_text(n: u64) -> (text: String)
    ensures
        text@ == decimal(n as nat),
    decreases n,
{
    if n < 10 {
        digit_text(n).to_owned()
    } else {
        let head = decimal_text(n / 10);
        let text = head.concat(digit_text(n % 10));
        assert(text@ =~= decimal(n as nat));
        text
    }
}

/// Different numbers have different numerals.
pub proof fn lemma_decimal_injective(a: nat, b: nat)
    requires
        decimal(a) == decimal(b),
    ensures
        a == b,
    decreases a,
{
    let x = decimal(a);
    let y = decimal(b);
    lemma_decimal_len(a);
    lemma_decimal_len(b);
    assert(x.last() == digit_char(a % 10));
    assert(y.last() == digit_char(b % 10));
    assert(a % 10 == b % 10);
    if a >= 10 && b >= 10 {
        assert(x.drop_last() =~= decimal(a / 10));
        assert(y.drop_last() =~= decimal(b / 10));
        lemma_decimal_injective(a / 10, b / 10);
    }
}

proof fn lemma_decimal_len(n: nat)
    ensures
        decimal(n).len() >= 1,
        n < 10 <==> decimal(n).len() == 1,
    decreases n,
{
    if n >= 10 {
        lemma_decimal_len(n / 10);
    }
}

/// How Rust writes a text as a string literal, which is what `Debug` shows of a `str`.
pub uninterp spec fn quoted(text: Seq<char>) -> Seq<char>;

/// `<str as Debug>::fmt`, through `format!`: the text between quotes and with its special
/// characters escaped, which `quoted` names.
#[verifier::external_body]
pub(crate) fn quote(text: &str) -> (literal: String)
    ensures
        literal@ == quoted(text@),
{
    format!("{:?}", text)
}

/// Joins three texts.
pub(crate) fn join3(a: &str, b: &str, c: &str) -> (text: String)
    ensures
        text@ == a@ + b@ + c@,
{
    a.to_owned().concat(b).concat(c)
}

/// Whether `part` stands in `whole` at position `at`.
pub open spec fn occurs_at(whole: Seq<char>, part: Seq<char>, at: int) -> bool {
    0 <= at && at + part.len() <= whole.len() && whole.subrange(at, at + part.len()) == part
}

/// Whether `part` stands anywhere in `whole`.
pub open spec fn occurs(whole: Seq<char>, part: Seq<char>) -> bool {
    exists|at: int| occurs_at(whole, part, at)
}

/// Whether `at` is the first position at which `part` stands in `whole`.
pub open spec fn first_at(whole: Seq<char>, part: Seq<char>, at: int) -> bool {
    occurs_at(whole, part, at) && forall|earlier: int|
        0 <= earlier < at ==> !occurs_at(whole, part, earlier)
}

/// The first position at which `part` stands in `whole`.
pub open spec fn find(whole: Seq<char>, part: Seq<char>) -> Option<int> {
    if occurs(whole, part) {
        Some(choose|at: int| first_at(whole, part, at))
    } else {
        None
    }
}

/// What `find` gives is the first occurrence, and a first occurrence is what `find` gives.
pub proof fn lemma_find(whole: Seq<char>, part: Seq<char>)
    ensures
        match find(whole, part) {
            Some(at) => first_at(whole, part, at),
            None => !occurs(whole, part),
        },
        forall|at: int| first_at(whole, part, at) ==> find(whole, part) == Some(at),
{
    if occurs(whole, part) {
        let at = choose|at: int| occurs_at(whole, part, at);
        lemma_first_exists(whole, part, at);
    }
    assert forall|at: int| first_at(whole, part, at) implies find(whole, part) == Some(at) by {
        let found = choose|at: int| first_at(whole, part, at);
        assert(occurs_at(whole, part, at));
        assert(first_at(whole, part, found));
        assert(found == at);
    }
}

proof fn lemma_first_exists(whole: Seq<char>, part: Seq<char>, at: int)
    requires
        occurs_at(whole, part, at),
    ensures
        exists|first: int| first_at(whole, part, first),
    decreases at,
{
    if exists|earlier: int| 0 <= earlier < at && occurs_at(whole, part, earlier) {
        let earlier = choose|earlier: int| 0 <= earlier < at && occurs_at(whole, part, earlier);
        lemma_first_exists(whole, part, earlier);
    } else {
        assert(first_at(whole, part, at));
    }
}

/// The characters of a text.
fn chars_of(text: &str) -> (chars: Vec<char>)
    ensures
        chars@ == text@,
{
    let mut chars: Vec<char> = Vec::new();
    for c in it: text.chars()
        invariant
            it.seq() == text@,
            chars@ == text@.take(it.index()),
    {
        chars.push(c);
        assert(text@.take(it.index() + 1) =~= text@.take(it.index()).push(c));
    }
    assert(text@.take(text@.len() as int) =~= text@);
    chars
}

/// Whether `part` stands in `whole` at position `at`.
fn matches_at(whole: &Vec<char>, part: &Vec<char>, at: usize) -> (matches: bool)
    requires
        at + part@.len() <= whole@.len(),
    ensures
        matches == occurs_at(whole@, part@, at as int),
{
    let len = whole.len();
    let mut i: usize = 0;
    while i < part.len()
        invariant
            i <= part@.len(),
            len == whole@.len(),
            at + part@.len() <= len,
            forall|j: int| 0 <= j < i ==> whole@[at + j] == #[trigger] part@[j],
        decreases part@.len() - i,
    {
        if whole[at + i] != part[i] {
            assert(whole@.subrange(at as int, at + part@.len())[i as int] != part@[i as int]);
            return false;
        }
        i += 1;
    }
    assert(whole@.subrange(at as int, at + part@.len()) =~= part@);
    true
}

/// The first position at which `part` stands in `whole`, counted in characters.
pub fn find_text(whole: &str, part: &str) -> (found: Option<usize>)
    ensures
        match found {
            Some(at) => find(whole@, part@) == Some(at as int),
            None => find(whole@, part@) is None,
        },
{
    let haystack = chars_of(whole);
    let needle = chars_of(part);
    proof {
        lemma_find(whole@, part@);
    }
    if needle.len() > haystack.len() {
        return None;
    }
    let last = haystack.len() - needle.len();
    let mut at: usize = 0;
    while at < last
        invariant
            haystack@ == whole@,
            needle@ == part@,
            last + needle@.len() == haystack@.len(),
            at <= last,
            forall|earlier: int| 0 <= earlier < at ==> !occurs_at(whole@, part@, earlier),
            forall|i: int| first_at(whole@, part@, i) ==> find(whole@, part@) == Some(i),
        decreases last - at,
    {
        if matches_at(&haystack, &needle, at) {
            assert(first_at(whole@, part@, at as int));
            return Some(at);
        }
        at += 1;
    }
    if matches_at(&haystack, &needle, last) {
        assert(first_at(whole@, part@, last as int));
        return Some(last);
    }
    assert(!occurs(whole@, part@));
    None
}

/// Whether `part` stands anywhere in `whole`.
pub fn contains_text(whole: &str, part: &str) -> (contains: bool)
    ensures
        contains == occurs(whole@, part@),
{
    proof {
        lemma_find(whole@, part@);
    }
    find_text(whole, part).is_some()
}

/// Whether `whole` ends in `part`.
pub open spec fn ends_in(whole: Seq<char>, part: Seq<char>) -> bool {
    occurs_at(whole, part, whole.len() - part.len())
}

/// Whether `whole` ends in `part`.
pub fn ends_in_text(whole: &str, part: &str) -> (ends: bool)
    ensures
        ends == ends_in(whole@, part@),
{
    let haystack = chars_of(whole);
    let needle = chars_of(part);
    needle.len() <= haystack.len() && matches_at(&haystack, &needle, haystack.len() - needle.len())
}

/// A text without the occurrences of `c` at its end.
pub open spec fn without_trailing(text: Seq<char>, c: char) -> Seq<char>
    decreases text.len(),
{
    if text.len() > 0 && text.last() == c {
        without_trailing(text.drop_last(), c)
    } else {
        text
    }
}

/// Drops the occurrences of `c` at the end of a text.
pub fn drop_trailing(text: &str, c: char) -> (kept: &str)
    ensures
        kept@ == without_trailing(text@, c),
{
    let chars = chars_of(text);
    let mut end: usize = chars.len();
    proof {
        assert(text@.take(end as int) =~= text@);
    }
    while end > 0 && chars[end - 1] == c
        invariant
            chars@ == text@,
            end <= chars@.len(),
            without_trailing(text@.take(end as int), c) == without_trailing(text@, c),
        decreases end,
    {
        assert(text@.take(end as int).drop_last() =~= text@.take(end - 1));
        end -= 1;
    }
    assert(text@.subrange(0, end as int) =~= text@.take(end as int));
    text.substring_char(0, end)
}

/// Whether a character has the Unicode property `White_Space`.
pub open spec fn is_white_space(c: char) -> bool {
    ||| '\u{0009}' <= c <= '\u{000D}'
    ||| c == '\u{0020}'
    ||| c == '\u{0085}'
    ||| c == '\u{00A0}'
    ||| c == '\u{1680}'
    ||| '\u{2000}' <= c <= '\u{200A}'
    ||| c == '\u{2028}'
    ||| c == '\u{2029}'
    ||| c == '\u{202F}'
    ||| c == '\u{205F}'
    ||| c == '\u{3000}'
}

/// Whether a character has the Unicode property `White_Space`.
pub fn white_space(c: char) -> (white: bool)
    ensures
        white == is_white_space(c),
{
    ('\u{0009}' <= c && c <= '\u{000D}') || c == '\u{0020}' || c == '\u{0085}' || c == '\u{00A0}'
        || c == '\u{1680}' || ('\u{2000}' <= c && c <= '\u{200A}') || c == '\u{2028}' || c
        == '\u{2029}' || c == '\u{202F}' || c == '\u{205F}' || c == '\u{3000}'
}

/// A text without the white space at its start.
pub open spec fn trim_start(text: Seq<char>) -> Seq<char>
    decreases text.len(),
{
    if text.len() > 0 && is_white_space(text.first()) {
        trim_start(text.drop_first())
    } else {
        text
    }
}

/// A text without the white space at its end.
pub open spec fn trim_end(text: Seq<char>) -> Seq<char>
    decreases text.len(),
{
    if text.len() > 0 && is_white_space(text.last()) {
        trim_end(text.drop_last())
    } else {
        text
    }
}

/// A text without the white space at its ends.
pub open spec fn trim(text: Seq<char>) -> Seq<char> {
    trim_end(trim_start(text))
}

/// Drops the white space at both ends of a text.
pub fn trim_text(text: &str) -> (kept: &str)
    ensures
        kept@ == trim(text@),
{
    let chars = chars_of(text);
    let mut start: usize = 0;
    proof {
        assert(text@.skip(0) =~= text@);
    }
    while start < chars.len() && white_space(chars[start])
        invariant
            chars@ == text@,
            start <= chars@.len(),
            trim_start(text@.skip(start as int)) == trim_start(text@),
        decreases chars@.len() - start,
    {
        assert(text@.skip(start as int).drop_first() =~= text@.skip(start + 1));
        start += 1;
    }
    let ghost rest = text@.skip(start as int);
    assert(rest == trim_start(text@));
    let mut end: usize = chars.len();
    proof {
        assert(text@.subrange(start as int, end as int) =~= rest);
    }
    while end > start && white_space(chars[end - 1])
        invariant
            chars@ == text@,
            start <= end <= chars@.len(),
            trim_end(text@.subrange(start as int, end as int)) == trim_end(rest),
        decreases end,
    {
        assert(text@.subrange(start as int, end as int).drop_last() =~= text@.subrange(
            start as int,
            end - 1,
        ));
        end -= 1;
    }
    text.substring_char(start, end)
}

} // verus!
