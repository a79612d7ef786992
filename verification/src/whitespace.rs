//! Unicode whitespace and trimming.

use vstd::prelude::*;
use vstd::std_specs::iter::IteratorSpec;
use vstd::string::{StrSliceExecFns, StringExecFns};

verus! {

/// Whether `c` has the Unicode property `White_Space`.
pub open spec fn is_whitespace(c: char) -> bool {
    let u = c as u32;
    ||| 0x09 <= u <= 0x0D
    ||| u == 0x20
    ||| u == 0x85
    ||| u == 0xA0
    ||| u == 0x1680
    ||| 0x2000 <= u <= 0x200A
    ||| u == 0x2028
    ||| u == 0x2029
    ||| u == 0x202F
    ||| u == 0x205F
    ||| u == 0x3000
}

/// `s` without the whitespace at its front.
pub open spec fn trim_start(s: Seq<char>) -> Seq<char>
    decreases s.len(),
{
    if s.len() > 0 && is_whitespace(s.first()) {
        trim_start(s.drop_first())
    } else {
        s
    }
}

/// `s` without the whitespace at its end.
pub open spec fn trim_end(s: Seq<char>) -> Seq<char>
    decreases s.len(),
{
    if s.len() > 0 && is_whitespace(s.last()) {
        trim_end(s.drop_last())
    } else {
        s
    }
}

/// `s` without the whitespace at either end.
pub open spec fn trimmed(s: Seq<char>) -> Seq<char> {
    trim_end(trim_start(s))
}

/// Decides whether `c` is whitespace.
pub fn char_is_whitespace(c: char) -> (b: bool)
    ensures
        b == is_whitespace(c),
{
    let u: u32 = c as u32;
    (0x09 <= u && u <= 0x0D) || u == 0x20 || u == 0x85 || u == 0xA0 || u == 0x1680 || (0x2000 <= u
        && u <= 0x200A) || u == 0x2028 || u == 0x2029 || u == 0x202F || u == 0x205F || u == 0x3000
}

/// Every character of `s` from position `from` up to `to` is whitespace.
pub open spec fn all_whitespace(s: Seq<char>, from: int, to: int) -> bool {
    forall|i: int| from <= i < to ==> is_whitespace(#[trigger] s[i])
}

/// `a` and `b` bound what trimming keeps of `s`: whitespace alone lies
/// outside them, and where anything lies between them it begins and ends with
/// a character that is no whitespace.
pub open spec fn is_trim_window(s: Seq<char>, a: int, b: int) -> bool {
    &&& 0 <= a <= b <= s.len()
    &&& all_whitespace(s, 0, a)
    &&& all_whitespace(s, b, s.len() as int)
    &&& a < b ==> !is_whitespace(s[a]) && !is_whitespace(s[b - 1])
}

proof fn lemma_trim_start_skips(s: Seq<char>, a: int)
    requires
        0 <= a <= s.len(),
        all_whitespace(s, 0, a),
        a < s.len() ==> !is_whitespace(s[a]),
    ensures
        trim_start(s) == s.subrange(a, s.len() as int),
    decreases a,
{
    if a == 0 {
        assert(s.subrange(0, s.len() as int) =~= s);
    } else {
        let rest = s.drop_first();
        assert(is_whitespace(s[0]));
        assert forall|i: int| 0 <= i < a - 1 implies is_whitespace(#[trigger] rest[i]) by {
            assert(rest[i] == s[i + 1]);
        }
        lemma_trim_start_skips(rest, a - 1);
        assert(rest.subrange(a - 1, rest.len() as int) =~= s.subrange(a, s.len() as int));
    }
}

proof fn lemma_trim_end_drops(s: Seq<char>, b: int)
    requires
        0 <= b <= s.len(),
        all_whitespace(s, b, s.len() as int),
        0 < b ==> !is_whitespace(s[b - 1]),
    ensures
        trim_end(s) == s.subrange(0, b),
    decreases s.len() - b,
{
    if b == s.len() {
        assert(s.subrange(0, b) =~= s);
    } else {
        let rest = s.drop_last();
        assert(is_whitespace(s[s.len() - 1]));
        assert forall|i: int| b <= i < rest.len() implies is_whitespace(#[trigger] rest[i]) by {
            assert(rest[i] == s[i]);
        }
        lemma_trim_end_drops(rest, b);
        assert(rest.subrange(0, b) =~= s.subrange(0, b));
    }
}

/// Trimming keeps exactly what lies between the bounds of the trim window.
pub proof fn lemma_trim_window(s: Seq<char>, a: int, b: int)
    requires
        is_trim_window(s, a, b),
    ensures
        trimmed(s) == s.subrange(a, b),
{
    if a < b {
        lemma_trim_start_skips(s, a);
        let t = s.subrange(a, s.len() as int);
        assert forall|i: int| b - a <= i < t.len() implies is_whitespace(#[trigger] t[i]) by {
            assert(t[i] == s[i + a]);
        }
        assert(t[b - a - 1] == s[b - 1]);
        lemma_trim_end_drops(t, b - a);
        assert(t.subrange(0, b - a) =~= s.subrange(a, b));
    } else {
        assert forall|i: int| 0 <= i < s.len() implies is_whitespace(#[trigger] s[i]) by {
            if i < a {
            } else {
            }
        }
        lemma_trim_start_skips(s, s.len() as int);
        assert(s.subrange(s.len() as int, s.len() as int) =~= s.subrange(a, b));
    }
}

/// Whitespace in front of a text does not change what `trim_start` keeps.
proof fn lemma_trim_start_ignores_front(pad: Seq<char>, s: Seq<char>)
    requires
        all_whitespace(pad, 0, pad.len() as int),
    ensures
        trim_start(pad + s) == trim_start(s),
    decreases pad.len(),
{
    if pad.len() == 0 {
        assert(pad + s =~= s);
    } else {
        let rest = pad.drop_first();
        assert((pad + s).first() == pad[0]);
        assert((pad + s).drop_first() =~= rest + s);
        assert forall|i: int| 0 <= i < rest.len() implies is_whitespace(#[trigger] rest[i]) by {
            assert(rest[i] == pad[i + 1]);
        }
        lemma_trim_start_ignores_front(rest, s);
    }
}

/// Whitespace behind a text does not change what `trim_end` keeps.
proof fn lemma_trim_end_ignores_back(s: Seq<char>, pad: Seq<char>)
    requires
        all_whitespace(pad, 0, pad.len() as int),
    ensures
        trim_end(s + pad) == trim_end(s),
    decreases pad.len(),
{
    if pad.len() == 0 {
        assert(s + pad =~= s);
    } else {
        let rest = pad.drop_last();
        assert((s + pad).last() == pad[pad.len() - 1]);
        assert((s + pad).drop_last() =~= s + rest);
        assert forall|i: int| 0 <= i < rest.len() implies is_whitespace(#[trigger] rest[i]) by {
            assert(rest[i] == pad[i]);
        }
        lemma_trim_end_ignores_back(s, rest);
    }
}

/// What `trim_start` keeps is either nothing, and then the text was all
/// whitespace, or it begins with a character that is no whitespace, and then
/// whatever follows the text follows what is kept.
proof fn lemma_trim_start_cases(s: Seq<char>, tail: Seq<char>)
    ensures
        trim_start(s).len() == 0 ==> all_whitespace(s, 0, s.len() as int),
        trim_start(s).len() > 0 ==> !is_whitespace(trim_start(s).first()) && trim_start(s + tail)
            == trim_start(s) + tail,
    decreases s.len(),
{
    if s.len() > 0 && is_whitespace(s.first()) {
        let rest = s.drop_first();
        lemma_trim_start_cases(rest, tail);
        assert((s + tail).first() == s[0]);
        assert((s + tail).drop_first() =~= rest + tail);
        if trim_start(s).len() == 0 {
            assert forall|i: int| 0 <= i < s.len() implies is_whitespace(#[trigger] s[i]) by {
                if i > 0 {
                    assert(rest[i - 1] == s[i]);
                }
            }
        }
    } else if s.len() > 0 {
        assert((s + tail).first() == s[0]);
    }
}

/// What `trim_end` keeps is a front part of the text that is either empty or
/// ends with a character that is no whitespace; what it drops is whitespace.
proof fn lemma_trim_end_cases(s: Seq<char>)
    ensures
        trim_end(s).len() <= s.len(),
        trim_end(s) == s.subrange(0, trim_end(s).len() as int),
        trim_end(s).len() > 0 ==> !is_whitespace(trim_end(s).last()),
        all_whitespace(s, trim_end(s).len() as int, s.len() as int),
    decreases s.len(),
{
    if s.len() > 0 && is_whitespace(s.last()) {
        let rest = s.drop_last();
        lemma_trim_end_cases(rest);
        assert(rest.subrange(0, trim_end(rest).len() as int) =~= s.subrange(
            0,
            trim_end(rest).len() as int,
        ));
        assert forall|i: int| trim_end(s).len() <= i < s.len() implies is_whitespace(
            #[trigger] s[i],
        ) by {
            if i < rest.len() {
                assert(rest[i] == s[i]);
            }
        }
    } else {
        assert(s.subrange(0, s.len() as int) =~= s);
    }
}

/// What `trim_start` keeps is a back part of the text; what it drops is
/// whitespace.
proof fn lemma_trim_start_is_back_part(s: Seq<char>)
    ensures
        trim_start(s).len() <= s.len(),
        trim_start(s) == s.subrange(s.len() - trim_start(s).len(), s.len() as int),
        all_whitespace(s, 0, s.len() - trim_start(s).len()),
    decreases s.len(),
{
    if s.len() > 0 && is_whitespace(s.first()) {
        let rest = s.drop_first();
        lemma_trim_start_is_back_part(rest);
        let a = rest.len() - trim_start(rest).len();
        assert(rest.subrange(a, rest.len() as int) =~= s.subrange(a + 1, s.len() as int));
        assert forall|i: int| 0 <= i < a + 1 implies is_whitespace(#[trigger] s[i]) by {
            if i > 0 {
                assert(rest[i - 1] == s[i]);
            }
        }
    } else {
        assert(s.subrange(0, s.len() as int) =~= s);
    }
}

/// Where what trimming keeps of `s` begins and ends in `s`.
pub open spec fn trim_bounds(s: Seq<char>) -> (int, int) {
    let a = s.len() - trim_start(s).len();
    (a, a + trimmed(s).len())
}

/// Trimming keeps one stretch of the text, and drops nothing but whitespace
/// before and behind it; the stretch, unless it is empty, begins and ends
/// with a character that is no whitespace.
pub proof fn lemma_trim_bounds(s: Seq<char>)
    ensures
        is_trim_window(s, trim_bounds(s).0, trim_bounds(s).1),
        trimmed(s) == s.subrange(trim_bounds(s).0, trim_bounds(s).1),
{
    let (a, b) = trim_bounds(s);
    let front = trim_start(s);
    let kept = trimmed(s);
    lemma_trim_start_is_back_part(s);
    lemma_trim_start_cases(s, Seq::<char>::empty());
    lemma_trim_end_cases(front);
    assert(front.subrange(0, kept.len() as int) =~= s.subrange(a, b));
    assert forall|i: int| b <= i < s.len() implies is_whitespace(#[trigger] s[i]) by {
        assert(front[i - a] == s[i]);
    }
    if a < b {
        assert(kept.first() == front.first());
        assert(front.first() == s[a]);
        assert(kept.last() == s[b - 1]);
    }
}

/// Whitespace around a text does not change what trimming keeps of it.
pub proof fn lemma_trim_ignores_padding(front: Seq<char>, s: Seq<char>, back: Seq<char>)
    requires
        all_whitespace(front, 0, front.len() as int),
        all_whitespace(back, 0, back.len() as int),
    ensures
        trimmed(front + s + back) == trimmed(s),
{
    assert(front + s + back =~= front + (s + back));
    lemma_trim_start_ignores_front(front, s + back);
    lemma_trim_start_cases(s, back);
    if trim_start(s).len() > 0 {
        lemma_trim_end_ignores_back(trim_start(s), back);
    } else {
        let padded = s + back;
        assert forall|i: int| 0 <= i < padded.len() implies is_whitespace(#[trigger] padded[i]) by {
            if i < s.len() {
                assert(padded[i] == s[i]);
            } else {
                assert(padded[i] == back[i - s.len()]);
            }
        }
        lemma_trim_start_skips(padded, padded.len() as int);
        assert(trim_start(padded) =~= Seq::<char>::empty());
        assert(trim_start(s) =~= Seq::<char>::empty());
    }
}

/// A line feed at the end of a text is trimmed away with the rest.
pub proof fn lemma_trim_drops_final_line_feed(s: Seq<char>)
    ensures
        trimmed(s.push('\n')) == trimmed(s),
{
    let back = seq!['\n'];
    assert(is_whitespace('\n'));
    assert(Seq::<char>::empty() + s + back =~= s.push('\n'));
    lemma_trim_ignores_padding(Seq::<char>::empty(), s, back);
}

/// What trimming keeps neither begins nor ends with whitespace, so trimming
/// it again changes nothing.
pub proof fn lemma_trimmed_has_bare_ends(s: Seq<char>)
    ensures
        trimmed(s).len() > 0 ==> !is_whitespace(trimmed(s).first()) && !is_whitespace(
            trimmed(s).last(),
        ),
        trimmed(trimmed(s)) == trimmed(s),
{
    lemma_trim_bounds(s);
    lemma_trim_keeps_bare_text(trimmed(s));
}

/// A text that neither begins nor ends with whitespace is left as it is.
pub proof fn lemma_trim_keeps_bare_text(s: Seq<char>)
    requires
        s.len() > 0 ==> !is_whitespace(s.first()) && !is_whitespace(s.last()),
    ensures
        trimmed(s) == s,
{
    lemma_trim_window(s, 0, s.len() as int);
    assert(s.subrange(0, s.len() as int) =~= s);
}

/// Strips the whitespace from both ends of `s`.
pub fn trim(s: &str) -> (t: String)
    ensures
        t@ == trimmed(s@),
{
    let n = s.unicode_len();
    let mut start: usize = 0;
    let mut end: usize = 0;
    let mut i: usize = 0;
    let mut chars = s.chars();
    while i < n
        invariant
            n == s@.len(),
            i <= n,
            chars.remaining() == s@.subrange(i as int, n as int),
            start <= end <= i,
            all_whitespace(s@, 0, start as int),
            all_whitespace(s@, end as int, i as int),
            start == end ==> start == i,
            start < end ==> !is_whitespace(s@[start as int]) && !is_whitespace(s@[end - 1]),
        decreases n - i,
    {
        if let Some(c) = chars.next() {
            assert(c == s@[i as int]);
            if !char_is_whitespace(c) {
                if start == end {
                    start = i;
                }
                end = i + 1;
            } else if start == end {
                start = i + 1;
                end = i + 1;
            }
        }
        i = i + 1;
    }
    proof {
        lemma_trim_window(s@, start as int, end as int);
    }
    String::from_str(s.substring_char(start, end))
}

} // verus!
