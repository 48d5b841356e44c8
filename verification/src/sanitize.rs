//! Making foreign text safe to show: characters that reorder, hide or control
//! text are dropped, and long text is cut.

use vstd::prelude::*;

use crate::text::chars_of;

verus! {

/// How many characters of a token's or a network's name are shown.
pub const MAX_TOKEN_NAME_CHARS: usize = 64;

/// Control characters.
pub open spec fn is_control(c: char) -> bool {
    let n = c as u32;
    n <= 0x1f || 0x7f <= n <= 0x9f
}

/// Characters that change the direction of the text around them.
pub open spec fn is_bidi(c: char) -> bool {
    let n = c as u32;
    n == 0x61c || n == 0x200e || n == 0x200f || 0x202a <= n <= 0x202e || 0x2066 <= n <= 0x2069
}

/// Characters that take no room.
pub open spec fn is_invisible(c: char) -> bool {
    let n = c as u32;
    ||| n == 0xad
    ||| n == 0x34f
    ||| 0x115f <= n <= 0x1160
    ||| 0x17b4 <= n <= 0x17b5
    ||| 0x180b <= n <= 0x180f
    ||| 0x200b <= n <= 0x200d
    ||| 0x2028 <= n <= 0x2029
    ||| 0x2060 <= n <= 0x2065
    ||| 0x206a <= n <= 0x206f
    ||| n == 0x3164
    ||| 0xfe00 <= n <= 0xfe0f
    ||| n == 0xfeff
    ||| n == 0xffa0
    ||| 0xfff0 <= n <= 0xfffb
    ||| 0xe0000 <= n <= 0xe0fff
}

/// A character that may be shown.
pub open spec fn is_safe(c: char) -> bool {
    !is_control(c) && !is_bidi(c) && !is_invisible(c)
}

/// Tells whether a character may be shown.
pub fn safe_char(c: char) -> (b: bool)
    ensures
        b == is_safe(c),
{
    let n: u32 = c as u32;
    let control = n <= 0x1f || (0x7f <= n && n <= 0x9f);
    let bidi = n == 0x61c || n == 0x200e || n == 0x200f || (0x202a <= n && n <= 0x202e) || (0x2066
        <= n && n <= 0x2069);
    let invisible = n == 0xad || n == 0x34f || (0x115f <= n && n <= 0x1160) || (0x17b4 <= n && n
        <= 0x17b5) || (0x180b <= n && n <= 0x180f) || (0x200b <= n && n <= 0x200d) || (0x2028 <= n
        && n <= 0x2029) || (0x2060 <= n && n <= 0x2065) || (0x206a <= n && n <= 0x206f) || n
        == 0x3164 || (0xfe00 <= n && n <= 0xfe0f) || n == 0xfeff || n == 0xffa0 || (0xfff0 <= n && n
        <= 0xfffb) || (0xe0000 <= n && n <= 0xe0fff);
    !control && !bidi && !invisible
}

/// Text that may be shown as it is.
pub open spec fn all_safe(s: Seq<char>) -> bool {
    forall|i: int| 0 <= i < s.len() ==> is_safe(#[trigger] s[i])
}

/// The characters of `s` that may be shown.
pub open spec fn stripped(s: Seq<char>) -> Seq<char> {
    s.filter(|c: char| is_safe(c))
}

/// `s` cut to `max` characters, with an ellipsis where something was cut off.
pub open spec fn clamped(s: Seq<char>, max: nat) -> Seq<char> {
    if s.len() <= max {
        s
    } else {
        s.take(max as int).push('…')
    }
}

/// `s` as it is shown: stripped, and cut to `max` characters.
pub open spec fn sanitized(s: Seq<char>, max: nat) -> Seq<char> {
    clamped(stripped(s), max)
}

/// Makes foreign text safe to show.
pub fn sanitize_display(s: &str, max: usize) -> (r: String)
    ensures
        r@ == sanitized(s@, max as nat),
{
    let v = chars_of(s);
    let ghost safe = |c: char| is_safe(c);
    let mut out = String::new();
    let mut kept: usize = 0;
    let mut cut = false;
    let mut i: usize = 0;
    assert(v@.take(0).filter(safe) =~= Seq::<char>::empty()) by {
        reveal(Seq::filter);
    }
    while i < v.len()
        invariant
            i <= v.len(),
            safe == (|c: char| is_safe(c)),
            ({
                let f = v@.take(i as int).filter(safe);
                &&& f.len() <= i
                &&& cut == (f.len() > max)
                &&& kept == if cut {
                    max as int
                } else {
                    f.len() as int
                }
                &&& out@ == f.take(kept as int)
            }),
        decreases v.len() - i,
    {
        let c = v[i];
        let ghost before = v@.take(i as int).filter(safe);
        proof {
            assert(v@.take(i + 1).drop_last() =~= v@.take(i as int));
            reveal(Seq::filter);
        }
        if safe_char(c) {
            if kept < max {
                out.push(c);
                kept += 1;
                assert(out@ =~= before.push(c).take(kept as int));
            } else {
                cut = true;
                assert(out@ =~= before.push(c).take(kept as int));
            }
        }
        i += 1;
    }
    proof {
        assert(v@.take(v@.len() as int) =~= v@);
    }
    let ghost all = stripped(s@);
    if cut {
        out.push('…');
        assert(out@ =~= clamped(all, max as nat));
    } else {
        assert(out@ =~= clamped(all, max as nat));
    }
    out
}

/// Makes foreign text safe to show, however long it is.
pub fn strip_display(s: &str) -> (r: String)
    ensures
        r@ == stripped(s@),
{
    let v = chars_of(s);
    proof {
        s@.lemma_filter_len(|c: char| is_safe(c));
    }
    sanitize_display(s, v.len())
}

/// What is shown holds no character that reorders, hides or controls text, and
/// at most one character more than the limit.
pub proof fn law_shown_text_is_safe(s: Seq<char>, max: nat, i: int)
    requires
        0 <= i < sanitized(s, max).len(),
    ensures
        is_safe(sanitized(s, max)[i]),
        sanitized(s, max).len() <= max + 1,
{
    let f = stripped(s);
    assert(is_safe('…'));
    if i < f.len() && !(i == max && f.len() > max) {
        assert(sanitized(s, max)[i] == f[i]);
        law_stripped_text_is_safe(s, i);
    }
}

/// Text that is only stripped holds no such character either.
pub proof fn law_stripped_text_is_safe(s: Seq<char>, i: int)
    requires
        0 <= i < stripped(s).len(),
    ensures
        is_safe(stripped(s)[i]),
    decreases s.len(),
{
    reveal(Seq::filter);
    let before = stripped(s.drop_last());
    if i < before.len() {
        law_stripped_text_is_safe(s.drop_last(), i);
    }
}

} // verus!
