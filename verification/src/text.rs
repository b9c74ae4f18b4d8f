//! Cleaning selected text: the trims that every read of a selection goes through.
use vstd::prelude::*;
use vstd::std_specs::iter::IteratorSpec;
use vstd::string::StrSliceExecFns;
use vstd::utf8::{decode_utf8, valid_utf8};

verus! {

broadcast use vstd::string::group_string_axioms;

/// Unicode's `White_Space` property, which is what `char::is_whitespace`
/// and `str::trim` go by: U+0009..=U+000D, U+0020, U+0085, U+00A0, U+1680,
/// U+2000..=U+200A, U+2028, U+2029, U+202F, U+205F and U+3000.
pub open spec fn is_white_space(c: char) -> bool {
    let u = c as u32;
    ||| 0x09 <= u <= 0x0d
    ||| u == 0x20
    ||| u == 0x85
    ||| u == 0xa0
    ||| u == 0x1680
    ||| 0x2000 <= u <= 0x200a
    ||| u == 0x2028
    ||| u == 0x2029
    ||| u == 0x202f
    ||| u == 0x205f
    ||| u == 0x3000
}

/// The predicate "is white space", as a value.
pub open spec fn white_space() -> spec_fn(char) -> bool {
    |c: char| is_white_space(c)
}

/// The predicate "is the NUL character U+0000", as a value.
pub open spec fn nul() -> spec_fn(char) -> bool {
    |c: char| c == '\0'
}

/// `s` without the run of characters satisfying `p` at its start.
pub open spec fn drop_leading(s: Seq<char>, p: spec_fn(char) -> bool) -> Seq<char>
    decreases s.len(),
{
    if s.len() > 0 && p(s[0]) {
        drop_leading(s.drop_first(), p)
    } else {
        s
    }
}

/// `s` without the run of characters satisfying `p` at its end.
pub open spec fn drop_trailing(s: Seq<char>, p: spec_fn(char) -> bool) -> Seq<char>
    decreases s.len(),
{
    if s.len() > 0 && p(s.last()) {
        drop_trailing(s.drop_last(), p)
    } else {
        s
    }
}

/// `s` without the characters satisfying `p` at either end
/// (what `str::trim_matches` does with a predicate).
pub open spec fn strip(s: Seq<char>, p: spec_fn(char) -> bool) -> Seq<char> {
    drop_trailing(drop_leading(s, p), p)
}

/// What `str::trim` gives: `s` without leading and trailing white space.
pub open spec fn trim(s: Seq<char>) -> Seq<char> {
    strip(s, white_space())
}

/// What `str::trim_matches('\0')` gives: `s` without leading and trailing NULs.
pub open spec fn trim_nul(s: Seq<char>) -> Seq<char> {
    strip(s, nul())
}

/// A selection as it is handed out: NULs stripped from both ends
/// (X11 and Wayland owners may pad with them), then white space.
pub open spec fn clean(s: Seq<char>) -> Seq<char> {
    trim(trim_nul(s))
}

/// The characters of `s`, in order.
fn chars_of(s: &str) -> (out: Vec<char>)
    ensures
        out@ == s@,
{
    let mut out: Vec<char> = Vec::new();
    for c in it: s.chars()
        invariant
            it.seq() == s@,
            out@ == it.seq().take(it.index() as int),
    {
        out.push(c);
    }
    out
}

/// Whether `c` is one of the characters stripped: NUL when `nul_only`,
/// white space otherwise.
fn strippable(c: char, nul_only: bool) -> (b: bool)
    ensures
        b == (if nul_only { nul() } else { white_space() })(c),
{
    if nul_only {
        c == '\0'
    } else {
        let u: u32 = c as u32;
        (0x09 <= u && u <= 0x0d) || u == 0x20 || u == 0x85 || u == 0xa0 || u == 0x1680 || (0x2000
            <= u && u <= 0x200a) || u == 0x2028 || u == 0x2029 || u == 0x202f || u == 0x205f || u
            == 0x3000
    }
}

/// The bounds, inside `lo..hi`, of what is left of `chars[lo..hi]` once the
/// strippable characters at both of its ends are gone.
fn strip_bounds(chars: &Vec<char>, lo: usize, hi: usize, nul_only: bool) -> (r: (usize, usize))
    requires
        lo <= hi <= chars.len(),
    ensures
        lo <= r.0 <= r.1 <= hi,
        chars@.subrange(r.0 as int, r.1 as int) == strip(
            chars@.subrange(lo as int, hi as int),
            if nul_only { nul() } else { white_space() },
        ),
{
    let ghost p = if nul_only { nul() } else { white_space() };
    let ghost s = chars@.subrange(lo as int, hi as int);
    let mut i: usize = lo;
    while i < hi && strippable(chars[i], nul_only)
        invariant
            lo <= i <= hi <= chars.len(),
            p == (if nul_only { nul() } else { white_space() }),
            s == chars@.subrange(lo as int, hi as int),
            drop_leading(s, p) == drop_leading(chars@.subrange(i as int, hi as int), p),
        decreases hi - i,
    {
        assert(chars@.subrange(i as int, hi as int).drop_first() =~= chars@.subrange(
            i + 1,
            hi as int,
        ));
        i = i + 1;
    }
    assert(drop_leading(s, p) == chars@.subrange(i as int, hi as int));
    let mut j: usize = hi;
    while j > i && strippable(chars[j - 1], nul_only)
        invariant
            lo <= i <= j <= hi <= chars.len(),
            p == (if nul_only { nul() } else { white_space() }),
            drop_trailing(chars@.subrange(i as int, hi as int), p) == drop_trailing(
                chars@.subrange(i as int, j as int),
                p,
            ),
        decreases j - i,
    {
        assert(chars@.subrange(i as int, j as int).drop_last() =~= chars@.subrange(
            i as int,
            j - 1,
        ));
        j = j - 1;
    }
    (i, j)
}

/// `s` with leading and trailing white space removed, as `str::trim` does it.
pub fn trim_str(s: &str) -> (t: String)
    ensures
        t@ == trim(s@),
        s@.len() > 0 && 0x21 <= (s@[0] as u32) <= 0x7e && 0x21 <= (s@.last() as u32) <= 0x7e ==> t@
            == s@,
{
    let cs = chars_of(s);
    let (a, b) = strip_bounds(&cs, 0, cs.len(), false);
    assert(cs@.subrange(0, cs@.len() as int) =~= s@);
    proof {
        if s@.len() > 0 && 0x21 <= (s@[0] as u32) <= 0x7e && 0x21 <= (s@.last() as u32) <= 0x7e {
            white_space_is_unicode_white_space(s@[0]);
            white_space_is_unicode_white_space(s@.last());
            trim_keeps_text_without_outer_white_space(s@);
        }
    }
    s.substring_char(a, b).to_owned()
}

/// A decoded selection made ready to hand out: NULs stripped from both ends,
/// then white space.
pub fn clean_selection(decoded: &str) -> (t: String)
    ensures
        t@ == clean(decoded@),
{
    let cs = chars_of(decoded);
    let (a, b) = strip_bounds(&cs, 0, cs.len(), true);
    assert(cs@.subrange(0, cs@.len() as int) =~= decoded@);
    let (c, d) = strip_bounds(&cs, a, b, false);
    decoded.substring_char(c, d).to_owned()
}

/// What `String::from_utf8_lossy` makes of `bytes`: their UTF-8 decoding,
/// with each invalid sequence replaced by U+FFFD.
pub uninterp spec fn utf8_lossy(bytes: Seq<u8>) -> Seq<char>;

/// Calls `String::from_utf8_lossy` and takes ownership of what it returns.
/// Claimed, not proved: the result is `utf8_lossy` of the bytes and, as std
/// documents, bytes that are valid UTF-8 come back as exactly what they encode.
/// Which characters stand for an invalid sequence is left unstated here.
#[verifier::external_body]
fn from_utf8_lossy(bytes: &[u8]) -> (s: String)
    ensures
        s@ == utf8_lossy(bytes@),
        valid_utf8(bytes@) ==> s@ == decode_utf8(bytes@),
{
    String::from_utf8_lossy(bytes).into_owned()
}

/// The text of a selection as a display server hands it over, in bytes:
/// decoded as UTF-8 (invalid sequences replaced), then cleaned.
pub fn decode_selection(bytes: &[u8]) -> (t: String)
    ensures
        t@ == clean(utf8_lossy(bytes@)),
        valid_utf8(bytes@) ==> t@ == clean(decode_utf8(bytes@)),
{
    let decoded = from_utf8_lossy(bytes);
    clean_selection(decoded.as_str())
}

/// Where the run dropped from the start of `s` ends.
proof fn lemma_drop_leading(s: Seq<char>, p: spec_fn(char) -> bool) -> (i: int)
    ensures
        0 <= i <= s.len(),
        drop_leading(s, p) == s.subrange(i, s.len() as int),
        forall|k: int| 0 <= k < i ==> p(#[trigger] s[k]),
        i < s.len() ==> !p(s[i]),
    decreases s.len(),
{
    if s.len() > 0 && p(s[0]) {
        let i = lemma_drop_leading(s.drop_first(), p);
        assert(s.drop_first().subrange(i, s.len() - 1) =~= s.subrange(i + 1, s.len() as int));
        assert forall|k: int| 0 <= k < i + 1 implies p(#[trigger] s[k]) by {
            if k > 0 {
                assert(s[k] == s.drop_first()[k - 1]);
            }
        }
        i + 1
    } else {
        assert(s.subrange(0, s.len() as int) =~= s);
        0
    }
}

/// Where the run dropped from the end of `s` begins.
proof fn lemma_drop_trailing(s: Seq<char>, p: spec_fn(char) -> bool) -> (j: int)
    ensures
        0 <= j <= s.len(),
        drop_trailing(s, p) == s.subrange(0, j),
        forall|k: int| j <= k < s.len() ==> p(#[trigger] s[k]),
        0 < j ==> !p(s[j - 1]),
    decreases s.len(),
{
    if s.len() > 0 && p(s.last()) {
        let j = lemma_drop_trailing(s.drop_last(), p);
        assert(s.drop_last().subrange(0, j) =~= s.subrange(0, j));
        assert forall|k: int| j <= k < s.len() implies p(#[trigger] s[k]) by {
            if k < s.len() - 1 {
                assert(s[k] == s.drop_last()[k]);
            }
        }
        j
    } else {
        assert(s.subrange(0, s.len() as int) =~= s);
        s.len() as int
    }
}

/// What stripping leaves of `s`: one stretch `s[a..b]` of it, with only
/// characters satisfying `p` outside it, and, if it is not empty, neither of
/// its end characters satisfying `p`.
pub proof fn strip_is_inner_stretch(s: Seq<char>, p: spec_fn(char) -> bool) -> (r: (int, int))
    ensures
        0 <= r.0 <= r.1 <= s.len(),
        strip(s, p) == s.subrange(r.0, r.1),
        forall|k: int| 0 <= k < r.0 ==> p(#[trigger] s[k]),
        forall|k: int| r.1 <= k < s.len() ==> p(#[trigger] s[k]),
        r.0 < r.1 ==> !p(s[r.0]) && !p(s[r.1 - 1]),
{
    let i = lemma_drop_leading(s, p);
    let t = s.subrange(i, s.len() as int);
    let j = lemma_drop_trailing(t, p);
    assert(t.subrange(0, j) =~= s.subrange(i, i + j));
    assert forall|k: int| i + j <= k < s.len() implies p(#[trigger] s[k]) by {
        assert(s[k] == t[k - i]);
    }
    if 0 < j {
        assert(s[i + j - 1] == t[j - 1]);
        assert(s[i] == t[0]);
    }
    (i, i + j)
}

/// Trimming a trimmed text changes nothing.
pub proof fn trim_is_idempotent(s: Seq<char>)
    ensures
        trim(trim(s)) == trim(s),
{
    let t = trim(s);
    let r = strip_is_inner_stretch(s, white_space());
    let q = strip_is_inner_stretch(t, white_space());
    if t.len() > 0 {
        assert(!is_white_space(t[0]) && !is_white_space(t.last()));
        assert(q.0 == 0) by {
            if q.0 > 0 {
                assert(white_space()(t[0]));
            }
        }
        assert(q.1 == t.len()) by {
            if q.1 < t.len() {
                assert(white_space()(t[t.len() - 1]));
            }
        }
    }
    assert(t.subrange(q.0, q.1) =~= t);
}

/// A trimmed text starts and ends with something other than white space,
/// and is empty exactly when the text was nothing but white space.
pub proof fn trimmed_has_no_outer_white_space(s: Seq<char>)
    ensures
        trim(s).len() > 0 ==> !is_white_space(trim(s)[0]) && !is_white_space(trim(s).last()),
        trim(s).len() == 0 <==> forall|k: int| 0 <= k < s.len() ==> is_white_space(#[trigger] s[k]),
{
    let r = strip_is_inner_stretch(s, white_space());
    if trim(s).len() > 0 {
        assert(trim(s)[0] == s[r.0]);
        assert(trim(s).last() == s[r.1 - 1]);
        assert(!is_white_space(s[r.0]));
    } else {
        assert forall|k: int| 0 <= k < s.len() implies is_white_space(#[trigger] s[k]) by {
            assert(white_space()(s[k]));
        }
    }
    if forall|k: int| 0 <= k < s.len() ==> is_white_space(#[trigger] s[k]) {
        if r.0 < r.1 {
            assert(is_white_space(s[r.0]));
        }
    }
}

/// Only Unicode's `White_Space` characters count as white space: tab to
/// carriage return, the space, NEL, NBSP, U+1680, U+2000..=U+200A, the line
/// and paragraph separators, U+202F, U+205F and U+3000. No letter, digit or
/// punctuation mark of ASCII is one, no other control character of C0, and
/// nothing above U+3000.
pub proof fn white_space_is_unicode_white_space(c: char)
    ensures
        0x21 <= (c as u32) <= 0x7e ==> !is_white_space(c),
        (c as u32) < 0x09 || 0x0e <= (c as u32) <= 0x1f ==> !is_white_space(c),
        (c as u32) > 0x3000 ==> !is_white_space(c),
        c == ' ' || c == '\t' || c == '\n' || c == '\r' || c == '\u{b}' || c == '\u{c}' ==> is_white_space(c),
        c == '\u{85}' || c == '\u{a0}' || c == '\u{2028}' || c == '\u{2029}' || c == '\u{3000}' ==> is_white_space(c),
{
}

/// Stripping leaves a text alone when neither of its end characters is one
/// that is stripped.
proof fn strip_keeps_unpadded(s: Seq<char>, p: spec_fn(char) -> bool)
    requires
        s.len() > 0,
        !p(s[0]),
        !p(s.last()),
    ensures
        strip(s, p) == s,
{
    let r = strip_is_inner_stretch(s, p);
    if r.0 > 0 {
        assert(p(s[0]));
    }
    if r.1 < s.len() {
        assert(p(s[s.len() - 1]));
    }
    assert(s.subrange(r.0, r.1) =~= s);
}

/// Trimming keeps a text whole when it starts and ends with something other
/// than white space: a full stop, a letter or any other character outside
/// `White_Space` at either end stays there.
pub proof fn trim_keeps_text_without_outer_white_space(s: Seq<char>)
    requires
        s.len() > 0,
        !is_white_space(s[0]),
        !is_white_space(s.last()),
    ensures
        trim(s) == s,
{
    strip_keeps_unpadded(s, white_space());
}

/// Cleaning keeps a text whole when it starts and ends with something that
/// is neither white space nor NUL: nothing inside it, and none of its ends,
/// is lost.
pub proof fn clean_keeps_unpadded_text(s: Seq<char>)
    requires
        s.len() > 0,
        !is_white_space(s[0]) && s[0] != '\0',
        !is_white_space(s.last()) && s.last() != '\0',
    ensures
        clean(s) == s,
{
    strip_keeps_unpadded(s, nul());
    strip_keeps_unpadded(s, white_space());
}

} // verus!
