//! Text helpers: trimming, searching, joining and decimal numerals, stated over
//! the sequence of characters of a string.

use vstd::prelude::*;
use vstd::string::*;
use vstd::utf8::*;

verus! {

/// `String::push` appends one character.
pub assume_specification[ String::push ](s: &mut String, c: char)
    ensures
        final(s)@ == old(s)@.push(c),
;

// ── characters ──────────────────────────────────────────────────────────────

/// The characters with Unicode's `White_Space` property.
pub open spec fn is_white(c: char) -> bool {
    let n = c as u32;
    ||| 0x09 <= n <= 0x0d
    ||| n == 0x20
    ||| n == 0x85
    ||| n == 0xa0
    ||| n == 0x1680
    ||| 0x2000 <= n <= 0x200a
    ||| n == 0x2028
    ||| n == 0x2029
    ||| n == 0x202f
    ||| n == 0x205f
    ||| n == 0x3000
}

/// Tells whether `c` is white space.
pub fn white(c: char) -> (b: bool)
    ensures
        b == is_white(c),
{
    let n: u32 = c as u32;
    (0x09 <= n && n <= 0x0d) || n == 0x20 || n == 0x85 || n == 0xa0 || n == 0x1680 || (0x2000 <= n
        && n <= 0x200a) || n == 0x2028 || n == 0x2029 || n == 0x202f || n == 0x205f || n == 0x3000
}

/// The ASCII decimal digits.
pub open spec fn is_digit(c: char) -> bool {
    '0' as u32 <= c as u32 <= '9' as u32
}

/// Tells whether `c` is an ASCII decimal digit.
pub fn digit(c: char) -> (b: bool)
    ensures
        b == is_digit(c),
{
    let n: u32 = c as u32;
    48 <= n && n <= 57
}

/// The decimal digit with value `d`.
pub open spec fn digit_char(d: nat) -> char {
    (48 + d) as char
}

// ── trimming ────────────────────────────────────────────────────────────────

/// `s` without its leading white space.
pub open spec fn trim_start_of(s: Seq<char>) -> Seq<char>
    decreases s.len(),
{
    if s.len() > 0 && is_white(s[0]) {
        trim_start_of(s.drop_first())
    } else {
        s
    }
}

/// `s` without its trailing white space.
pub open spec fn trim_end_of(s: Seq<char>) -> Seq<char>
    decreases s.len(),
{
    if s.len() > 0 && is_white(s.last()) {
        trim_end_of(s.drop_last())
    } else {
        s
    }
}

/// `s` without leading and trailing white space.
pub open spec fn trimmed(s: Seq<char>) -> Seq<char> {
    trim_end_of(trim_start_of(s))
}

/// `s` without the run of `c` at its end.
pub open spec fn trim_end_char_of(s: Seq<char>, c: char) -> Seq<char>
    decreases s.len(),
{
    if s.len() > 0 && s.last() == c {
        trim_end_char_of(s.drop_last(), c)
    } else {
        s
    }
}

/// `s` without the run of `c` at its start.
pub open spec fn trim_start_char_of(s: Seq<char>, c: char) -> Seq<char>
    decreases s.len(),
{
    if s.len() > 0 && s[0] == c {
        trim_start_char_of(s.drop_first(), c)
    } else {
        s
    }
}

/// The characters of `s`, in order.
pub fn chars_of(s: &str) -> (v: Vec<char>)
    ensures
        v@ == s@,
{
    let mut v: Vec<char> = Vec::new();
    for c in it: s.chars()
        invariant
            it.seq() == s@,
            v@ == s@.take(it.index()),
    {
        v.push(c);
        assert(s@.take(it.index() + 1) == s@.take(it.index()).push(c));
    }
    assert(s@.take(s@.len() as int) == s@);
    v
}

/// The string whose characters are those of `v`.
pub fn text_of(v: &Vec<char>) -> (s: String)
    ensures
        s@ == v@,
{
    let mut s = String::new();
    let mut i: usize = 0;
    while i < v.len()
        invariant
            i <= v.len(),
            s@ == v@.take(i as int),
        decreases v.len() - i,
    {
        s.push(v[i]);
        assert(v@.take(i + 1) == v@.take(i as int).push(v@[i as int]));
        i += 1;
    }
    assert(v@.take(v@.len() as int) == v@);
    s
}

/// `s` without leading and trailing white space.
pub fn trim(s: &str) -> (r: String)
    ensures
        r@ == trimmed(s@),
{
    let v = chars_of(s);
    let mut from: usize = 0;
    assert(v@.skip(0) == v@);
    while from < v.len() && white(v[from])
        invariant
            from <= v.len(),
            trim_start_of(v@.skip(from as int)) == trim_start_of(v@),
        decreases v.len() - from,
    {
        assert(v@.skip(from as int).drop_first() == v@.skip(from + 1));
        from += 1;
    }
    let mut to: usize = v.len();
    assert(trim_start_of(v@) == v@.skip(from as int));
    assert(v@.subrange(from as int, to as int) == v@.skip(from as int));
    while from < to && white(v[to - 1])
        invariant
            from <= to <= v.len(),
            trim_end_of(v@.subrange(from as int, to as int)) == trim_end_of(v@.skip(from as int)),
        decreases to,
    {
        assert(v@.subrange(from as int, to as int).drop_last() == v@.subrange(
            from as int,
            to - 1,
        ));
        assert(v@.subrange(from as int, to as int).last() == v@[to - 1]);
        to -= 1;
    }
    assert(to > from ==> v@.subrange(from as int, to as int).last() == v@[to - 1]);
    piece(&v, from, to)
}

/// The string of the characters of `v` from `from` to `to`.
pub fn piece(v: &Vec<char>, from: usize, to: usize) -> (s: String)
    requires
        from <= to <= v.len(),
    ensures
        s@ == v@.subrange(from as int, to as int),
{
    let mut s = String::new();
    let mut i: usize = from;
    while i < to
        invariant
            from <= i <= to <= v.len(),
            s@ == v@.subrange(from as int, i as int),
        decreases to - i,
    {
        s.push(v[i]);
        assert(v@.subrange(from as int, i + 1) == v@.subrange(from as int, i as int).push(
            v@[i as int],
        ));
        i += 1;
    }
    s
}

/// Tells whether white space is all there is in `s`.
pub fn is_blank(s: &str) -> (b: bool)
    ensures
        b == (trimmed(s@).len() == 0),
{
    let t = trim(s);
    t.as_str().is_empty()
}

/// `s` without the run of `c` at its end.
pub fn trim_end_char(s: &str, c: char) -> (r: String)
    ensures
        r@ == trim_end_char_of(s@, c),
{
    let v = chars_of(s);
    let mut to: usize = v.len();
    assert(v@.subrange(0, to as int) == v@);
    while 0 < to && v[to - 1] == c
        invariant
            to <= v.len(),
            trim_end_char_of(v@.subrange(0, to as int), c) == trim_end_char_of(v@, c),
        decreases to,
    {
        assert(v@.subrange(0, to as int).drop_last() == v@.subrange(0, to - 1));
        assert(v@.subrange(0, to as int).last() == v@[to - 1]);
        to -= 1;
    }
    assert(to > 0 ==> v@.subrange(0, to as int).last() == v@[to - 1]);
    piece(&v, 0, to)
}

/// `s` without the run of `c` at its start.
pub fn trim_start_char(s: &str, c: char) -> (r: String)
    ensures
        r@ == trim_start_char_of(s@, c),
{
    let v = chars_of(s);
    let mut from: usize = 0;
    assert(v@.skip(0) == v@);
    while from < v.len() && v[from] == c
        invariant
            from <= v.len(),
            trim_start_char_of(v@.skip(from as int), c) == trim_start_char_of(v@, c),
        decreases v.len() - from,
    {
        assert(v@.skip(from as int).drop_first() == v@.skip(from + 1));
        from += 1;
    }
    assert(v@.subrange(from as int, v@.len() as int) == v@.skip(from as int));
    piece(&v, from, v.len())
}

// ── searching ───────────────────────────────────────────────────────────────

/// Tells whether `c` occurs in `s`.
pub fn has_char(s: &str, c: char) -> (b: bool)
    ensures
        b == s@.contains(c),
{
    let v = chars_of(s);
    let mut i: usize = 0;
    while i < v.len()
        invariant
            i <= v.len(),
            v@ == s@,
            forall|j: int| 0 <= j < i ==> v@[j] != c,
        decreases v.len() - i,
    {
        if v[i] == c {
            assert(s@[i as int] == c);
            return true;
        }
        i += 1;
    }
    false
}

/// `t` occurs in `s` at position `i`.
pub open spec fn occurs_at(s: Seq<char>, t: Seq<char>, i: int) -> bool {
    0 <= i && i + t.len() <= s.len() && s.subrange(i, i + t.len()) == t
}

/// `t` occurs somewhere in `s`.
pub open spec fn occurs_in(s: Seq<char>, t: Seq<char>) -> bool {
    exists|i: int| occurs_at(s, t, i)
}

/// Tells whether `t` occurs somewhere in `s`.
pub fn has_text(s: &str, t: &str) -> (b: bool)
    ensures
        b == occurs_in(s@, t@),
{
    let v = chars_of(s);
    let w = chars_of(t);
    if w.len() > v.len() {
        return false;
    }
    let mut i: usize = 0;
    while i <= v.len() - w.len()
        invariant
            w.len() <= v.len(),
            v@ == s@,
            w@ == t@,
            i <= v.len() - w.len() + 1,
            forall|k: int| 0 <= k < i ==> !occurs_at(s@, t@, k),
        decreases v.len() - w.len() + 1 - i,
    {
        let mut j: usize = 0;
        while j < w.len() && v[i + j] == w[j]
            invariant
                w.len() <= v.len(),
                i <= v.len() - w.len(),
                j <= w.len(),
                forall|k: int| 0 <= k < j ==> v@[i + k] == w@[k],
            decreases w.len() - j,
        {
            j += 1;
        }
        if j == w.len() {
            assert(s@.subrange(i as int, i + t@.len()) =~= t@);
            assert(occurs_at(s@, t@, i as int));
            return true;
        }
        assert(!occurs_at(s@, t@, i as int)) by {
            if occurs_at(s@, t@, i as int) {
                assert(s@.subrange(i as int, i + t@.len())[j as int] == t@[j as int]);
            }
        }
        i += 1;
    }
    false
}

/// Tells whether two strings hold the same characters.
pub fn same_text(a: &str, b: &str) -> (r: bool)
    ensures
        r == (a@ == b@),
{
    let v = chars_of(a);
    let w = chars_of(b);
    if v.len() != w.len() {
        return false;
    }
    let mut i: usize = 0;
    while i < v.len()
        invariant
            i <= v.len() == w.len(),
            v@ == a@,
            w@ == b@,
            forall|j: int| 0 <= j < i ==> v@[j] == w@[j],
        decreases v.len() - i,
    {
        if v[i] != w[i] {
            assert(a@[i as int] != b@[i as int]);
            return false;
        }
        i += 1;
    }
    assert(a@ =~= b@);
    true
}

// ── case ────────────────────────────────────────────────────────────────────

/// An ASCII letter in lower case; any other character as it is.
pub open spec fn ascii_lower(c: char) -> char {
    if 'A' as u32 <= c as u32 <= 'Z' as u32 {
        (c as u32 + 32) as char
    } else {
        c
    }
}

/// An ASCII letter in lower case; any other character as it is.
pub fn lower(c: char) -> (r: char)
    ensures
        r == ascii_lower(c),
{
    let n: u32 = c as u32;
    if 65 <= n && n <= 90 {
        (n as u8 + 32) as char
    } else {
        c
    }
}

/// A text with its ASCII letters in lower case.
pub open spec fn lowered(s: Seq<char>) -> Seq<char> {
    s.map_values(|c: char| ascii_lower(c))
}

/// Writes a text with its ASCII letters in lower case.
pub fn lower_text(s: &str) -> (r: String)
    ensures
        r@ == lowered(s@),
{
    let v = chars_of(s);
    let mut out = String::new();
    let mut i: usize = 0;
    while i < v.len()
        invariant
            i <= v.len(),
            v@ == s@,
            out@.len() == i,
            forall|j: int| 0 <= j < i ==> out@[j] == ascii_lower(#[trigger] v@[j]),
        decreases v.len() - i,
    {
        out.push(lower(v[i]));
        i += 1;
    }
    assert(out@ =~= lowered(s@));
    out
}

// ── order ───────────────────────────────────────────────────────────────────

/// Whether one text comes before another, character by character; a text comes
/// before every longer one that begins with it.
pub open spec fn comes_before(a: Seq<char>, b: Seq<char>) -> bool
    decreases a.len(),
{
    if b.len() == 0 {
        false
    } else if a.len() == 0 {
        true
    } else if a[0] == b[0] {
        comes_before(a.drop_first(), b.drop_first())
    } else {
        a[0] < b[0]
    }
}

/// Of two texts at most one comes before the other.
pub proof fn lemma_before_one_way(a: Seq<char>, b: Seq<char>)
    ensures
        comes_before(a, b) ==> !comes_before(b, a),
        !comes_before(a, b) && !comes_before(b, a) ==> a == b,
    decreases a.len(),
{
    if a.len() > 0 && b.len() > 0 {
        if a[0] == b[0] {
            lemma_before_one_way(a.drop_first(), b.drop_first());
            if !comes_before(a, b) && !comes_before(b, a) {
                assert(a =~= seq![a[0]] + a.drop_first());
                assert(b =~= seq![b[0]] + b.drop_first());
            }
        }
    } else {
        assert(a.len() == 0 && b.len() == 0 ==> a =~= b);
    }
}

/// What comes before a third text comes before any second one, or the second
/// before the third.
pub proof fn lemma_before_comparable(a: Seq<char>, b: Seq<char>, c: Seq<char>)
    ensures
        comes_before(a, c) ==> comes_before(a, b) || comes_before(b, c),
    decreases a.len(),
{
    if a.len() > 0 && b.len() > 0 && c.len() > 0 {
        if a[0] == b[0] && b[0] == c[0] {
            lemma_before_comparable(a.drop_first(), b.drop_first(), c.drop_first());
        }
    }
}

/// Tells whether one text comes before another.
pub fn text_before(a: &str, b: &str) -> (r: bool)
    ensures
        r == comes_before(a@, b@),
{
    let v = chars_of(a);
    let w = chars_of(b);
    let mut i: usize = 0;
    assert(v@.skip(0) =~= v@ && w@.skip(0) =~= w@);
    while i < v.len() && i < w.len()
        invariant
            v@ == a@,
            w@ == b@,
            i <= v.len(),
            i <= w.len(),
            comes_before(a@, b@) == comes_before(v@.skip(i as int), w@.skip(i as int)),
        decreases v.len() - i,
    {
        if v[i] != w[i] {
            return v[i] < w[i];
        }
        assert(v@.skip(i as int).drop_first() =~= v@.skip(i + 1));
        assert(w@.skip(i as int).drop_first() =~= w@.skip(i + 1));
        i += 1;
    }
    i < w.len()
}

// ── joining ─────────────────────────────────────────────────────────────────

/// `a` followed by `b`.
pub fn join2(a: &str, b: &str) -> (r: String)
    ensures
        r@ == a@ + b@,
{
    let mut s = a.to_owned();
    s.append(b);
    s
}

/// `a`, `b` and `c`, one behind the other.
pub fn join3(a: &str, b: &str, c: &str) -> (r: String)
    ensures
        r@ == a@ + b@ + c@,
{
    let mut s = a.to_owned();
    s.append(b);
    s.append(c);
    s
}

/// `a`, `b`, `c` and `d`, one behind the other.
pub fn join4(a: &str, b: &str, c: &str, d: &str) -> (r: String)
    ensures
        r@ == a@ + b@ + c@ + d@,
{
    let mut s = a.to_owned();
    s.append(b);
    s.append(c);
    s.append(d);
    s
}

/// `a`, `b`, `c`, `d` and `e`, one behind the other.
pub fn join5(a: &str, b: &str, c: &str, d: &str, e: &str) -> (r: String)
    ensures
        r@ == a@ + b@ + c@ + d@ + e@,
{
    let mut s = a.to_owned();
    s.append(b);
    s.append(c);
    s.append(d);
    s.append(e);
    s
}

// ── words ───────────────────────────────────────────────────────────────────

/// The words of `s`: its longest runs of characters that are not white space.
pub open spec fn words_of(s: Seq<char>) -> Seq<Seq<char>>
    decreases s.len(),
{
    if s.len() == 0 {
        Seq::empty()
    } else {
        let before = s.drop_last();
        let words = words_of(before);
        if is_white(s.last()) {
            words
        } else if before.len() > 0 && !is_white(before.last()) {
            words.drop_last().push(words.last().push(s.last()))
        } else {
            words.push(seq![s.last()])
        }
    }
}

/// The texts that a list of strings holds.
pub open spec fn texts(v: Seq<String>) -> Seq<Seq<char>> {
    v.map_values(|s: String| s@)
}

/// A word is being read when the last character was not white space.
proof fn lemma_open_word(s: Seq<char>)
    ensures
        s.len() > 0 && !is_white(s.last()) ==> words_of(s).len() > 0,
    decreases s.len(),
{
}

/// The words of `s`.
pub fn words(s: &str) -> (r: Vec<String>)
    ensures
        texts(r@) == words_of(s@),
{
    let v = chars_of(s);
    let mut out: Vec<String> = Vec::new();
    let mut open = false;
    let mut i: usize = 0;
    assert(texts(out@) =~= Seq::<Seq<char>>::empty());
    while i < v.len()
        invariant
            i <= v.len(),
            texts(out@) == words_of(v@.take(i as int)),
            open == (i > 0 && !is_white(v@[i - 1])),
        decreases v.len() - i,
    {
        let c = v[i];
        let ghost before = v@.take(i as int);
        let ghost was = out@;
        proof {
            assert(v@.take(i + 1).drop_last() =~= before);
            lemma_open_word(before);
            if open {
                assert(before.last() == v@[i - 1]);
            }
            assert(texts(was).len() == was.len());
        }
        if white(c) {
            open = false;
        } else if open {
            let mut w = match out.pop() {
                Some(w) => w,
                None => String::new(),
            };
            w.push(c);
            out.push(w);
            open = true;
            assert(texts(out@) =~= texts(was).drop_last().push(texts(was).last().push(c)));
        } else {
            let mut w = String::new();
            w.push(c);
            assert(w@ =~= seq![c]);
            out.push(w);
            open = true;
            assert(texts(out@) =~= texts(was).push(seq![c]));
        }
        i += 1;
    }
    assert(v@.take(v@.len() as int) =~= v@);
    out
}

/// `parts` one behind the other, with `sep` between each two.
pub open spec fn joined(parts: Seq<Seq<char>>, sep: Seq<char>) -> Seq<char>
    decreases parts.len(),
{
    if parts.len() == 0 {
        Seq::empty()
    } else if parts.len() == 1 {
        parts[0]
    } else {
        joined(parts.drop_last(), sep) + sep + parts.last()
    }
}

/// `parts` one behind the other, with `sep` between each two.
pub fn join(parts: &Vec<String>, sep: &str) -> (r: String)
    ensures
        r@ == joined(texts(parts@), sep@),
{
    let mut out = String::new();
    let mut i: usize = 0;
    while i < parts.len()
        invariant
            i <= parts.len(),
            out@ == joined(texts(parts@).take(i as int), sep@),
        decreases parts.len() - i,
    {
        proof {
            let now = texts(parts@).take(i + 1);
            assert(now.drop_last() =~= texts(parts@).take(i as int));
            assert(now.last() == parts@[i as int]@);
        }
        if i > 0 {
            out.append(sep);
            out.append(parts[i].as_str());
        } else {
            out = parts[i].clone();
        }
        i += 1;
    }
    assert(texts(parts@).take(parts@.len() as int) =~= texts(parts@));
    out
}

// ── leaving the middle out ──────────────────────────────────────────────────

/// The text `s` can be cut behind its first `front` bytes and before its last
/// `back` bytes without cutting through a character, where it is longer than
/// `limit` bytes.
pub open spec fn can_cut(s: Seq<char>, limit: int, front: int, back: int) -> bool {
    let b = encode_utf8(s);
    b.len() > limit ==> is_char_boundary(b, front) && is_char_boundary(b, b.len() - back)
}

/// A text longer than `limit` bytes with its middle left out: its first `front`
/// bytes, an ellipsis and its last `back` bytes. A shorter one stays as it is.
pub open spec fn middle_cut(s: Seq<char>, limit: int, front: int, back: int) -> Seq<char> {
    let b = encode_utf8(s);
    if b.len() > limit {
        decode_utf8(b.subrange(0, front)) + seq!['…'] + decode_utf8(
            b.subrange(b.len() - back, b.len() as int),
        )
    } else {
        s
    }
}

/// Leaves the middle of a long text out.
pub fn cut_middle(s: &str, limit: usize, front: usize, back: usize) -> (r: String)
    requires
        front <= limit,
        back <= limit,
        can_cut(s@, limit as int, front as int, back as int),
    ensures
        r@ == middle_cut(s@, limit as int, front as int, back as int),
{
    let n: usize = s.as_bytes().len();
    if n > limit {
        let (head, _) = s.split_at(front);
        let (_, tail) = s.split_at(n - back);
        proof {
            encode_utf8_decode_utf8(head@);
            encode_utf8_decode_utf8(tail@);
        }
        let mut out = head.to_owned();
        out.push('…');
        out.append(tail);
        assert(out@ =~= middle_cut(s@, limit as int, front as int, back as int));
        out
    } else {
        s.to_owned()
    }
}

/// In an ASCII text every byte is a character: it can be cut anywhere, and what
/// is kept are its first and its last characters.
pub proof fn law_ascii_texts_can_be_cut(s: Seq<char>, limit: int, front: int, back: int)
    requires
        is_ascii_chars(s),
        0 <= front <= limit,
        0 <= back <= limit,
    ensures
        can_cut(s, limit, front, back),
        s.len() > limit ==> middle_cut(s, limit, front, back) == s.subrange(0, front) + seq!['…']
            + s.subrange(s.len() - back, s.len() as int),
        s.len() <= limit ==> middle_cut(s, limit, front, back) == s,
{
    let b = encode_utf8(s);
    is_ascii_chars_encode_utf8(s);
    encode_utf8_valid_utf8(s);
    if s.len() > limit {
        let x = s.subrange(0, front);
        let y = s.subrange(s.len() - back, s.len() as int);
        is_ascii_chars_encode_utf8(x);
        is_ascii_chars_encode_utf8(y);
        assert(encode_utf8(x) =~= b.subrange(0, front));
        assert(encode_utf8(y) =~= b.subrange(b.len() - back, b.len() as int));
        encode_utf8_decode_utf8(x);
        encode_utf8_decode_utf8(y);
        lemma_ascii_boundary(s, front);
        lemma_ascii_boundary(s, s.len() - back);
    }
}

/// Every position of an ASCII text is a character boundary.
proof fn lemma_ascii_boundary(s: Seq<char>, i: int)
    requires
        is_ascii_chars(s),
        0 <= i <= s.len(),
    ensures
        is_char_boundary(encode_utf8(s), i),
{
    let b = encode_utf8(s);
    is_ascii_chars_encode_utf8(s);
    encode_utf8_valid_utf8(s);
    is_char_boundary_start_end_of_seq(b);
    if i < s.len() {
        assert(s[i] as u32 <= 0x7f);
        assert(b[i] == s[i] as u8);
        assert(b[i] <= 0x7f);
        is_char_boundary_iff_not_is_continuation_byte(b, i);
    }
}

// ── numerals ────────────────────────────────────────────────────────────────

/// The decimal numeral of `n`, without leading zeros.
pub open spec fn dec(n: nat) -> Seq<char>
    decreases n,
{
    if n < 10 {
        seq![digit_char(n)]
    } else {
        dec(n / 10).push(digit_char(n % 10))
    }
}

/// The decimal numeral of `n`.
pub fn decimal(n: u64) -> (s: String)
    ensures
        s@ == dec(n as nat),
    decreases n,
{
    let mut s = if n < 10 {
        String::new()
    } else {
        decimal(n / 10)
    };
    let d: u8 = (n % 10) as u8;
    s.push((48 + d) as char);
    assert(n < 10 ==> s@ =~= seq![digit_char(n as nat)]);
    s
}

/// The number that the decimal digits `s` write, read from the left.
pub open spec fn dec_value(s: Seq<char>) -> nat
    decreases s.len(),
{
    if s.len() == 0 {
        0
    } else {
        (dec_value(s.drop_last()) * 10 + (s.last() as u32 - 48)) as nat
    }
}

/// Every character of `s` is a decimal digit.
pub open spec fn all_digits(s: Seq<char>) -> bool {
    forall|i: int| 0 <= i < s.len() ==> is_digit(#[trigger] s[i])
}

/// Tells whether every character of `v` from `from` to `to` is a decimal digit.
pub fn digits_between(v: &Vec<char>, from: usize, to: usize) -> (b: bool)
    requires
        from <= to <= v.len(),
    ensures
        b == all_digits(v@.subrange(from as int, to as int)),
{
    let mut i: usize = from;
    while i < to
        invariant
            from <= i <= to <= v.len(),
            forall|j: int| from <= j < i ==> is_digit(#[trigger] v@[j]),
        decreases to - i,
    {
        if !digit(v[i]) {
            assert(!is_digit(v@.subrange(from as int, to as int)[i - from]));
            return false;
        }
        i += 1;
    }
    true
}

/// `s` padded with zeros on the left to at least `width` characters.
pub open spec fn zero_padded(s: Seq<char>, width: nat) -> Seq<char> {
    if s.len() >= width {
        s
    } else {
        Seq::new((width - s.len()) as nat, |i: int| '0') + s
    }
}

} // verus!
