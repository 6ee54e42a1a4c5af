//! The part of a time-of-day text that names the time.
//!
//! A time of day is entered as `HH:MM:SS`, optionally followed by an offset
//! such as `+09:00` or `-05:00`. The offset is accepted and discarded: the
//! time is the text before the first sign, without the white space around it.

use vstd::prelude::*;
use vstd::string::StrSliceExecFns;

verus! {

/// `c` opens an offset.
pub open spec fn is_sign(c: char) -> bool {
    c == '+' || c == '-'
}

/// `c` is white space: one of the 25 characters with the Unicode property
/// `White_Space`.
pub open spec fn is_space(c: char) -> bool {
    let u = c as u32;
    ||| 0x09 <= u <= 0x0D
    ||| u == 0x20
    ||| u == 0x85
    ||| u == 0xA0
    ||| u == 0x1680
    ||| 0x2000 <= u <= 0x200A
    ||| u == 0x2028
    ||| u == 0x2029
    ||| u == 0x202F
    ||| u == 0x205F
    ||| u == 0x3000
}

/// `k` is where the offset of `s` starts: the place of the first sign, or
/// the end of `s` where it holds no sign.
pub open spec fn is_offset_start(s: Seq<char>, k: int) -> bool {
    &&& 0 <= k <= s.len()
    &&& forall|j: int| 0 <= j < k ==> !is_sign(#[trigger] s[j])
    &&& k < s.len() ==> is_sign(s[k])
}

/// `a` is where the text of `s` starts: the place of the first character
/// that is not white space, or the end of `s` where it holds no other.
pub open spec fn is_text_start(s: Seq<char>, a: int) -> bool {
    &&& 0 <= a <= s.len()
    &&& forall|j: int| 0 <= j < a ==> is_space(#[trigger] s[j])
    &&& a < s.len() ==> !is_space(s[a])
}

/// `b` is where the text of `s` ends: just behind the last character that is
/// not white space, or the start of `s` where it holds no other.
pub open spec fn is_text_end(s: Seq<char>, b: int) -> bool {
    &&& 0 <= b <= s.len()
    &&& forall|j: int| b <= j < s.len() ==> is_space(#[trigger] s[j])
    &&& b > 0 ==> !is_space(s[b - 1])
}

/// Where the offset of `s` starts.
pub open spec fn offset_start(s: Seq<char>) -> int {
    choose|k: int| is_offset_start(s, k)
}

/// `s` without the white space at its two ends.
pub open spec fn trimmed(s: Seq<char>) -> Seq<char> {
    let a = choose|a: int| is_text_start(s, a);
    let b = choose|b: int| is_text_end(s, b);
    if a < b {
        s.subrange(a, b)
    } else {
        Seq::empty()
    }
}

/// The part of a time-of-day text that names the time: what stands before
/// the first sign, trimmed.
pub open spec fn clock_part(s: Seq<char>) -> Seq<char> {
    trimmed(s.take(offset_start(s)))
}

/// A text has one place where its offset starts.
pub proof fn lemma_offset_start(s: Seq<char>, k: int)
    requires
        is_offset_start(s, k),
    ensures
        offset_start(s) == k,
{
}

/// A text has one start and one end, which give its trimmed form.
pub proof fn lemma_trimmed(s: Seq<char>, a: int, b: int)
    requires
        is_text_start(s, a),
        is_text_end(s, b),
    ensures
        a < b ==> trimmed(s) == s.subrange(a, b),
        a >= b ==> trimmed(s) == Seq::<char>::empty() && a == s.len() && b == 0,
{
}

/// Whether `c` opens an offset.
pub fn opens_offset(c: char) -> (b: bool)
    ensures
        b == is_sign(c),
{
    c == '+' || c == '-'
}

/// Whether `c` is white space.
pub fn is_white_space(c: char) -> (b: bool)
    ensures
        b == is_space(c),
{
    let u: u32 = c as u32;
    (0x09 <= u && u <= 0x0D) || u == 0x20 || u == 0x85 || u == 0xA0 || u == 0x1680 || (0x2000 <= u
        && u <= 0x200A) || u == 0x2028 || u == 0x2029 || u == 0x202F || u == 0x205F || u == 0x3000
}

/// The part of a time-of-day text that names the time.
pub fn clock_text(time: &str) -> (part: &str)
    ensures
        part@ == clock_part(time@),
{
    let len: usize = time.unicode_len();
    let mut cut: usize = 0;
    while cut < len
        invariant
            len == time@.len(),
            cut <= len,
            forall|j: int| 0 <= j < cut ==> !is_sign(#[trigger] time@[j]),
        ensures
            cut <= len,
            is_offset_start(time@, cut as int),
        decreases len - cut,
    {
        if opens_offset(time.get_char(cut)) {
            break ;
        }
        cut += 1;
    }
    proof {
        lemma_offset_start(time@, cut as int);
    }
    let head: &str = time.substring_char(0, cut);
    let mut start: usize = 0;
    while start < cut
        invariant
            cut == head@.len(),
            start <= cut,
            forall|j: int| 0 <= j < start ==> is_space(#[trigger] head@[j]),
        ensures
            start <= cut,
            is_text_start(head@, start as int),
        decreases cut - start,
    {
        if !is_white_space(head.get_char(start)) {
            break ;
        }
        start += 1;
    }
    let mut end: usize = cut;
    while end > 0
        invariant
            cut == head@.len(),
            end <= cut,
            forall|j: int| end <= j < cut ==> is_space(#[trigger] head@[j]),
        ensures
            end <= cut,
            is_text_end(head@, end as int),
        decreases end,
    {
        if !is_white_space(head.get_char(end - 1)) {
            break ;
        }
        end -= 1;
    }
    proof {
        lemma_trimmed(head@, start as int, end as int);
    }
    if start < end {
        head.substring_char(start, end)
    } else {
        head.substring_char(0, 0)
    }
}

} // verus!
