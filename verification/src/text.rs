//! Character sequences: surrounding whitespace, decimal numerals, and what it
//! means for one text to occur inside another.

use vstd::prelude::*;
use vstd::utf8::encode_utf8_decode_utf8;

verus! {

/// Whether `c` has the Unicode property `White_Space`.
pub open spec fn is_space(c: char) -> bool {
    let n = c as u32;
    ||| 0x09 <= n <= 0x0D
    ||| n == 0x20
    ||| n == 0x85
    ||| n == 0xA0
    ||| n == 0x1680
    ||| 0x2000 <= n <= 0x200A
    ||| n == 0x2028
    ||| n == 0x2029
    ||| n == 0x202F
    ||| n == 0x205F
    ||| n == 0x3000
}

/// `s` without its leading whitespace.
pub open spec fn trim_start(s: Seq<char>) -> Seq<char>
    decreases s.len(),
{
    if s.len() > 0 && is_space(s.first()) {
        trim_start(s.drop_first())
    } else {
        s
    }
}

/// `s` without its trailing whitespace.
pub open spec fn trim_end(s: Seq<char>) -> Seq<char>
    decreases s.len(),
{
    if s.len() > 0 && is_space(s.last()) {
        trim_end(s.drop_last())
    } else {
        s
    }
}

/// `s` without the whitespace that surrounds it.
pub open spec fn trimmed(s: Seq<char>) -> Seq<char> {
    trim_end(trim_start(s))
}

/// Whether every character of `s` is whitespace.
pub open spec fn all_space(s: Seq<char>) -> bool {
    forall|i: int| 0 <= i < s.len() ==> is_space(#[trigger] s[i])
}

/// Whether `s` neither starts nor ends with whitespace.
pub open spec fn is_trimmed(s: Seq<char>) -> bool {
    s.len() > 0 ==> !is_space(s.first()) && !is_space(s.last())
}

/// Whether `text` is `value` with nothing but whitespace before and after it.
pub open spec fn is_padded(text: Seq<char>, value: Seq<char>) -> bool {
    exists|before: Seq<char>, after: Seq<char>|
        #![trigger before + value + after]
        all_space(before) && all_space(after) && text == before + value + after
}

/// Whether `needle` occurs in `hay` starting at position `i`.
pub open spec fn occurs_at(needle: Seq<char>, hay: Seq<char>, i: int) -> bool {
    &&& 0 <= i
    &&& i + needle.len() <= hay.len()
    &&& hay.subrange(i, i + needle.len()) == needle
}

/// Whether `needle` occurs in `hay` as a run of consecutive characters.
pub open spec fn occurs_in(needle: Seq<char>, hay: Seq<char>) -> bool {
    exists|i: int| occurs_at(needle, hay, i)
}

/// The character for the digit `d`, which is below ten.
pub open spec fn digit(d: nat) -> char {
    (0x30 + d) as char
}

/// The decimal numeral of `n`, without leading zeros.
pub open spec fn decimal(n: nat) -> Seq<char>
    decreases n,
{
    if n < 10 {
        seq![digit(n)]
    } else {
        decimal(n / 10).push(digit(n % 10))
    }
}

/// Leading whitespace does not change what `trim_start` leaves.
pub proof fn lemma_trim_start_skips(s: Seq<char>, k: int)
    requires
        0 <= k <= s.len(),
        all_space(s.subrange(0, k)),
    ensures
        trim_start(s) == trim_start(s.subrange(k, s.len() as int)),
    decreases k,
{
    if k == 0 {
        assert(s.subrange(0, s.len() as int) == s);
    } else {
        assert(s.first() == s.subrange(0, k)[0]);
        let rest = s.drop_first();
        assert forall|i: int| 0 <= i < k - 1 implies is_space(
            #[trigger] rest.subrange(0, k - 1)[i],
        ) by {
            assert(rest.subrange(0, k - 1)[i] == s.subrange(0, k)[i + 1]);
        }
        lemma_trim_start_skips(rest, k - 1);
        assert(rest.subrange(k - 1, rest.len() as int) == s.subrange(k, s.len() as int));
    }
}

/// Trailing whitespace does not change what `trim_end` leaves.
pub proof fn lemma_trim_end_skips(s: Seq<char>, k: int)
    requires
        0 <= k <= s.len(),
        all_space(s.subrange(k, s.len() as int)),
    ensures
        trim_end(s) == trim_end(s.subrange(0, k)),
    decreases s.len() - k,
{
    if k == s.len() {
        assert(s.subrange(0, k) == s);
    } else {
        assert(s.last() == s.subrange(k, s.len() as int)[s.len() - k - 1]);
        let rest = s.drop_last();
        assert forall|i: int| 0 <= i < rest.len() - k implies is_space(
            #[trigger] rest.subrange(k, rest.len() as int)[i],
        ) by {
            assert(rest.subrange(k, rest.len() as int)[i] == s.subrange(k, s.len() as int)[i]);
        }
        lemma_trim_end_skips(rest, k);
        assert(rest.subrange(0, k) == s.subrange(0, k));
    }
}

/// What `trimmed` leaves is the stretch between the whitespace at both ends.
pub proof fn lemma_trimmed_is_core(s: Seq<char>, start: int, end: int)
    requires
        0 <= start <= end <= s.len(),
        all_space(s.subrange(0, start)),
        all_space(s.subrange(end, s.len() as int)),
        is_trimmed(s.subrange(start, end)),
    ensures
        trimmed(s) == s.subrange(start, end),
{
    let len = s.len() as int;
    if start == end {
        assert forall|i: int| 0 <= i < len implies is_space(#[trigger] s.subrange(0, len)[i]) by {
            if i >= start {
                assert(s.subrange(end, len)[i - end] == s[i]);
            }
        }
        lemma_trim_start_skips(s, len);
    } else {
        lemma_trim_start_skips(s, start);
        let tail = s.subrange(start, len);
        assert(tail.subrange(end - start, tail.len() as int) == s.subrange(end, len));
        lemma_trim_end_skips(tail, end - start);
    }
}

/// What `trim_start` leaves is the rest of `s` behind its first `k`
/// characters, which are all whitespace; what is left does not start with
/// whitespace.
pub proof fn lemma_trim_start_leaves_rest(s: Seq<char>) -> (k: int)
    ensures
        0 <= k <= s.len(),
        all_space(s.subrange(0, k)),
        trim_start(s) == s.subrange(k, s.len() as int),
        k < s.len() ==> !is_space(s[k]),
    decreases s.len(),
{
    if s.len() > 0 && is_space(s.first()) {
        let rest = s.drop_first();
        let j = lemma_trim_start_leaves_rest(rest);
        assert forall|i: int| 0 <= i < j + 1 implies is_space(
            #[trigger] s.subrange(0, j + 1)[i],
        ) by {
            if i > 0 {
                assert(rest.subrange(0, j)[i - 1] == s[i]);
            }
        }
        j + 1
    } else {
        0
    }
}

/// What `trim_end` leaves is the first `k` characters of `s`; the characters
/// behind them are all whitespace, and what is left does not end with
/// whitespace.
pub proof fn lemma_trim_end_leaves_front(s: Seq<char>) -> (k: int)
    ensures
        0 <= k <= s.len(),
        all_space(s.subrange(k, s.len() as int)),
        trim_end(s) == s.subrange(0, k),
        k > 0 ==> !is_space(s[k - 1]),
    decreases s.len(),
{
    if s.len() > 0 && is_space(s.last()) {
        let front = s.drop_last();
        let k = lemma_trim_end_leaves_front(front);
        assert forall|i: int| 0 <= i < s.len() - k implies is_space(
            #[trigger] s.subrange(k, s.len() as int)[i],
        ) by {
            if i < front.len() - k {
                assert(front.subrange(k, front.len() as int)[i] == s[k + i]);
            }
        }
        k
    } else {
        s.len() as int
    }
}

/// What `trimmed` leaves of `s` neither starts nor ends with whitespace, and
/// `s` is that with nothing but whitespace around it.
pub proof fn lemma_trimmed_is_padded_core(s: Seq<char>)
    ensures
        is_trimmed(trimmed(s)),
        is_padded(s, trimmed(s)),
{
    let start = lemma_trim_start_leaves_rest(s);
    let rest = s.subrange(start, s.len() as int);
    let kept = lemma_trim_end_leaves_front(rest);
    let before = s.subrange(0, start);
    let core = rest.subrange(0, kept);
    let after = rest.subrange(kept, rest.len() as int);
    assert(s == before + core + after);
}

/// A value that neither starts nor ends with whitespace is what `trimmed`
/// leaves of it, whatever whitespace stands around it.
pub proof fn lemma_trimmed_undoes_padding(text: Seq<char>, value: Seq<char>)
    requires
        is_padded(text, value),
        is_trimmed(value),
    ensures
        trimmed(text) == value,
{
    let (before, after) = choose|before: Seq<char>, after: Seq<char>|
        #![trigger before + value + after]
        all_space(before) && all_space(after) && text == before + value + after;
    let start = before.len() as int;
    let end = start + value.len();
    lemma_trimmed_is_core(text, start, end);
}

/// A text occurs in itself.
pub proof fn lemma_occurs_in_self(s: Seq<char>)
    ensures
        occurs_in(s, s),
{
    assert(s.subrange(0, s.len() as int) == s);
    assert(occurs_at(s, s, 0));
}

/// A text that occurs in `hay` occurs in `hay` with more text before it.
pub proof fn lemma_occurs_in_prefixed(needle: Seq<char>, hay: Seq<char>, before: Seq<char>)
    requires
        occurs_in(needle, hay),
    ensures
        occurs_in(needle, before + hay),
{
    let i = choose|i: int| occurs_at(needle, hay, i);
    let at = before.len() + i;
    assert((before + hay).subrange(at, at + needle.len()) == hay.subrange(i, i + needle.len()));
    assert(occurs_at(needle, before + hay, at));
}

/// A text that occurs in `hay` occurs in `hay` with more text behind it.
pub proof fn lemma_occurs_in_suffixed(needle: Seq<char>, hay: Seq<char>, after: Seq<char>)
    requires
        occurs_in(needle, hay),
    ensures
        occurs_in(needle, hay + after),
{
    let i = choose|i: int| occurs_at(needle, hay, i);
    assert((hay + after).subrange(i, i + needle.len()) == hay.subrange(i, i + needle.len()));
    assert(occurs_at(needle, hay + after, i));
}

/// A text that occurs in a part of `hay` occurs in `hay`.
pub proof fn lemma_occurs_in_within(needle: Seq<char>, part: Seq<char>, hay: Seq<char>)
    requires
        occurs_in(needle, part),
        occurs_in(part, hay),
    ensures
        occurs_in(needle, hay),
{
    let i = choose|i: int| occurs_at(needle, part, i);
    let j = choose|j: int| occurs_at(part, hay, j);
    assert(hay.subrange(j + i, j + i + needle.len()) == hay.subrange(j, j + part.len()).subrange(
        i,
        i + needle.len(),
    ));
    assert(occurs_at(needle, hay, j + i));
}

/// Decides `is_space`.
pub fn is_whitespace(c: char) -> (r: bool)
    ensures
        r == is_space(c),
{
    let n: u32 = c as u32;
    (0x09 <= n && n <= 0x0D) || n == 0x20 || n == 0x85 || n == 0xA0 || n == 0x1680 || (0x2000 <= n
        && n <= 0x200A) || n == 0x2028 || n == 0x2029 || n == 0x202F || n == 0x205F || n == 0x3000
}

/// Whether `a` and `b` hold the same characters.
pub fn same_text(a: &str, b: &str) -> (r: bool)
    ensures
        r == (a@ == b@),
{
    let x = a.as_bytes();
    let y = b.as_bytes();
    proof {
        encode_utf8_decode_utf8(a@);
        encode_utf8_decode_utf8(b@);
    }
    if x.len() != y.len() {
        return false;
    }
    let mut i: usize = 0;
    while i < x.len()
        invariant
            i <= x@.len() == y@.len(),
            a@ == b@ ==> x@ == y@,
            forall|j: int| 0 <= j < i ==> x@[j] == y@[j],
        decreases x.len() - i,
    {
        if x[i] != y[i] {
            return false;
        }
        i += 1;
    }
    assert(x@ =~= y@);
    true
}

/// Removes the whitespace around `s`.
pub fn trim(s: &str) -> (r: String)
    ensures
        r@ == trimmed(s@),
{
    let n = s.unicode_len();
    let mut start: usize = 0;
    let mut end: usize = 0;
    let mut i: usize = 0;
    for c in it: s.chars()
        invariant
            n == s@.len(),
            it.seq() == s@,
            i == it.index(),
            start <= end <= i,
            all_space(s@.subrange(0, start as int)),
            all_space(s@.subrange(end as int, i as int)),
            is_trimmed(s@.subrange(start as int, end as int)),
    {
        let ghost before = s@.subrange(end as int, i as int);
        if !is_whitespace(c) {
            if start == end {
                assert forall|j: int| 0 <= j < i implies is_space(
                    #[trigger] s@.subrange(0, i as int)[j],
                ) by {
                    if j >= start {
                        assert(before[j - end] == s@[j]);
                    }
                }
                start = i;
            }
            end = i + 1;
        } else {
            assert forall|j: int| 0 <= j < i + 1 - end implies is_space(
                #[trigger] s@.subrange(end as int, i + 1)[j],
            ) by {
                if j < i - end {
                    assert(before[j] == s@[end + j]);
                }
            }
        }
        i += 1;
    }
    proof {
        lemma_trimmed_is_core(s@, start as int, end as int);
    }
    s.substring_char(start, end).to_owned()
}

/// The one-character text of the digit `d`.
fn digit_text(d: u64) -> (r: &'static str)
    requires
        d < 10,
    ensures
        r@ == seq![digit(d as nat)],
{
    proof {
        reveal_strlit("0");
        reveal_strlit("1");
        reveal_strlit("2");
        reveal_strlit("3");
        reveal_strlit("4");
        reveal_strlit("5");
        reveal_strlit("6");
        reveal_strlit("7");
        reveal_strlit("8");
        reveal_strlit("9");
    }
    if d == 0 {
        "0"
    } else if d == 1 {
        "1"
    } else if d == 2 {
        "2"
    } else if d == 3 {
        "3"
    } else if d == 4 {
        "4"
    } else if d == 5 {
        "5"
    } else if d == 6 {
        "6"
    } else if d == 7 {
        "7"
    } else if d == 8 {
        "8"
    } else {
        "9"
    }
}

/// Writes `n` as a decimal numeral.
pub fn to_decimal(n: u64) -> (r: String)
    ensures
        r@ == decimal(n as nat),
    decreases n,
{
    if n < 10 {
        digit_text(n).to_owned()
    } else {
        let mut r = to_decimal(n / 10);
        r.append(digit_text(n % 10));
        r
    }
}

} // verus!
