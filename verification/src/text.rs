//! Text normalisation used when reading option and exercise kinds from
//! user-supplied strings: surrounding whitespace is ignored and ASCII letters
//! are compared without regard to case.

use vstd::prelude::*;

verus! {

/// The characters with the Unicode property `White_Space`, which is what
/// `char::is_whitespace` (and so `str::trim`) tests for.
pub open spec fn is_white_space(c: char) -> bool {
    ||| ('\u{9}' <= c && c <= '\u{d}')
    ||| c == ' '
    ||| c == '\u{85}'
    ||| c == '\u{a0}'
    ||| c == '\u{1680}'
    ||| ('\u{2000}' <= c && c <= '\u{200a}')
    ||| c == '\u{2028}'
    ||| c == '\u{2029}'
    ||| c == '\u{202f}'
    ||| c == '\u{205f}'
    ||| c == '\u{3000}'
}

/// `s` without its leading whitespace.
pub open spec fn trim_start(s: Seq<char>) -> Seq<char>
    decreases s.len(),
{
    if s.len() > 0 && is_white_space(s[0]) {
        trim_start(s.drop_first())
    } else {
        s
    }
}

/// `s` without its trailing whitespace.
pub open spec fn trim_end(s: Seq<char>) -> Seq<char>
    decreases s.len(),
{
    if s.len() > 0 && is_white_space(s.last()) {
        trim_end(s.drop_last())
    } else {
        s
    }
}

/// `s` without leading and trailing whitespace.
pub open spec fn trim(s: Seq<char>) -> Seq<char> {
    trim_end(trim_start(s))
}

/// ASCII `A`..`Z` mapped to `a`..`z`; every other character unchanged.
pub open spec fn ascii_lower_char(c: char) -> char {
    if 'A' <= c && c <= 'Z' {
        ((c as u32) + 32) as char
    } else {
        c
    }
}

/// Every character of `s` mapped by `ascii_lower_char`.
pub open spec fn ascii_lowercase(s: Seq<char>) -> Seq<char> {
    s.map_values(|c: char| ascii_lower_char(c))
}

/// The form in which a kind name is looked up: trimmed, then ASCII-lowercased.
pub open spec fn normalize(s: Seq<char>) -> Seq<char> {
    ascii_lowercase(trim(s))
}

/// Every character of `s` is white space.
pub open spec fn all_white_space(s: Seq<char>) -> bool {
    forall|i: int| 0 <= i < s.len() ==> is_white_space(#[trigger] s[i])
}

/// Leading whitespace before `x` is removed by `trim_start`.
proof fn lemma_trim_start_skips_prefix(p: Seq<char>, x: Seq<char>)
    requires
        all_white_space(p),
    ensures
        trim_start(p + x) == trim_start(x),
    decreases p.len(),
{
    if p.len() == 0 {
        assert(p + x =~= x);
    } else {
        assert(is_white_space(p[0]));
        assert((p + x)[0] == p[0]);
        assert((p + x).drop_first() =~= p.drop_first() + x);
        lemma_trim_start_skips_prefix(p.drop_first(), x);
    }
}

/// Trailing whitespace after `x` is removed by `trim_end`.
proof fn lemma_trim_end_skips_suffix(x: Seq<char>, q: Seq<char>)
    requires
        all_white_space(q),
    ensures
        trim_end(x + q) == trim_end(x),
    decreases q.len(),
{
    if q.len() == 0 {
        assert(x + q =~= x);
    } else {
        assert(is_white_space(q[q.len() - 1]));
        assert((x + q).last() == q[q.len() - 1]);
        assert((x + q).drop_last() =~= x + q.drop_last());
        lemma_trim_end_skips_suffix(x, q.drop_last());
    }
}

/// A string made of whitespace only trims to nothing.
proof fn lemma_trim_start_all_white_space(q: Seq<char>)
    requires
        all_white_space(q),
    ensures
        trim_start(q) == Seq::<char>::empty(),
    decreases q.len(),
{
    if q.len() > 0 {
        assert(is_white_space(q[0]));
        lemma_trim_start_all_white_space(q.drop_first());
    } else {
        assert(q =~= Seq::<char>::empty());
    }
}

/// Trailing whitespace after `s` does not change its trimmed form.
proof fn lemma_trim_ignores_suffix(s: Seq<char>, q: Seq<char>)
    requires
        all_white_space(q),
    ensures
        trim(s + q) == trim(s),
    decreases s.len(),
{
    if s.len() == 0 {
        assert(s + q =~= q);
        lemma_trim_start_all_white_space(q);
        assert(trim_start(s) == s);
        assert(trim_end(Seq::<char>::empty()) == Seq::<char>::empty());
        assert(s =~= Seq::<char>::empty());
    } else if is_white_space(s[0]) {
        assert((s + q)[0] == s[0]);
        assert((s + q).drop_first() =~= s.drop_first() + q);
        lemma_trim_ignores_suffix(s.drop_first(), q);
    } else {
        assert((s + q)[0] == s[0]);
        lemma_trim_end_skips_suffix(s, q);
    }
}

/// Lowering ASCII letters neither creates nor removes whitespace.
proof fn lemma_lower_keeps_white_space(c: char)
    ensures
        is_white_space(ascii_lower_char(c)) == is_white_space(c),
{
}

/// Trimming and ASCII-lowercasing commute at the start.
proof fn lemma_trim_start_lower(s: Seq<char>)
    ensures
        trim_start(ascii_lowercase(s)) == ascii_lowercase(trim_start(s)),
    decreases s.len(),
{
    if s.len() > 0 {
        lemma_lower_keeps_white_space(s[0]);
        assert(ascii_lowercase(s)[0] == ascii_lower_char(s[0]));
        assert(ascii_lowercase(s).drop_first() =~= ascii_lowercase(s.drop_first()));
        lemma_trim_start_lower(s.drop_first());
    } else {
        assert(ascii_lowercase(s) =~= s);
    }
}

/// Trimming and ASCII-lowercasing commute at the end.
proof fn lemma_trim_end_lower(s: Seq<char>)
    ensures
        trim_end(ascii_lowercase(s)) == ascii_lowercase(trim_end(s)),
    decreases s.len(),
{
    if s.len() > 0 {
        lemma_lower_keeps_white_space(s.last());
        assert(ascii_lowercase(s).last() == ascii_lower_char(s.last()));
        assert(ascii_lowercase(s).drop_last() =~= ascii_lowercase(s.drop_last()));
        lemma_trim_end_lower(s.drop_last());
    } else {
        assert(ascii_lowercase(s) =~= s);
    }
}

/// The normalised form of a kind name does not depend on whitespace around
/// it, nor on the case of its ASCII letters: padding `u` with whitespace `p`
/// and `q`, where `u` equals `s` up to ASCII case, normalises to what `s`
/// normalises to.
pub proof fn lemma_normalize_ignores_padding_and_case(
    p: Seq<char>,
    u: Seq<char>,
    q: Seq<char>,
    s: Seq<char>,
)
    requires
        all_white_space(p),
        all_white_space(q),
        ascii_lowercase(u) == ascii_lowercase(s),
    ensures
        normalize(p + u + q) == normalize(s),
{
    assert(p + u + q =~= p + (u + q));
    lemma_trim_start_skips_prefix(p, u + q);
    lemma_trim_ignores_suffix(u, q);
    assert(trim(p + u + q) == trim(u));
    lemma_trim_start_lower(u);
    lemma_trim_end_lower(trim_start(u));
    lemma_trim_start_lower(s);
    lemma_trim_end_lower(trim_start(s));
}

/// A code point that Unicode lists with the `White_Space` property:
/// U+0009..U+000D, U+0020, U+0085, U+00A0, U+1680, U+2000..U+200A, U+2028,
/// U+2029, U+202F, U+205F and U+3000.
pub open spec fn white_space_code_point(v: u32) -> bool {
    ||| (9 <= v && v <= 13)
    ||| v == 32
    ||| v == 0x85
    ||| v == 0xa0
    ||| v == 0x1680
    ||| (0x2000 <= v && v <= 0x200a)
    ||| v == 0x2028
    ||| v == 0x2029
    ||| v == 0x202f
    ||| v == 0x205f
    ||| v == 0x3000
}

/// Every character of `p` has a `White_Space` code point.
pub open spec fn padding(p: Seq<char>) -> bool {
    forall|i: int| 0 <= i < p.len() ==> white_space_code_point(#[trigger] p[i] as u32)
}

/// `name` is made of ASCII lower-case letters only.
pub open spec fn lower_ascii_word(name: Seq<char>) -> bool {
    forall|i: int| 0 <= i < name.len() ==> 97 <= #[trigger] name[i] as u32 && name[i] as u32 <= 122
}

/// `u` spells `name` with any of its letters possibly in upper case: each
/// character of `u` is the one of `name` or lies 32 code points below it.
pub open spec fn ascii_case_variant(u: Seq<char>, name: Seq<char>) -> bool {
    &&& u.len() == name.len()
    &&& forall|i: int|
        0 <= i < u.len() ==> #[trigger] u[i] == name[i] || (u[i] as u32) + 32 == name[i] as u32
}

/// Whitespace is exactly the Unicode `White_Space` set (the characters for
/// which `char::is_whitespace` holds), carriage return and tab included.
pub proof fn lemma_white_space_is_unicode_white_space(c: char)
    ensures
        is_white_space(c) <==> white_space_code_point(c as u32),
{
}

/// ASCII lowercasing moves each of `A`..`Z` (code points 65..90) down to its
/// lower-case letter, 32 code points on, and keeps every other character.
pub proof fn lemma_ascii_lower_char_moves_only_upper_case(c: char)
    ensures
        65 <= c as u32 && c as u32 <= 90 ==> ascii_lower_char(c) as u32 == (c as u32) + 32,
        !(65 <= c as u32 && c as u32 <= 90) ==> ascii_lower_char(c) == c,
{
}

/// Lowercasing a string keeps its length and lowercases it character by
/// character: an upper-case ASCII letter becomes the letter 32 code points
/// on, and every other character is kept.
pub proof fn lemma_ascii_lowercase_characters(s: Seq<char>)
    ensures
        ascii_lowercase(s).len() == s.len(),
        forall|i: int|
            0 <= i < s.len() && 65 <= #[trigger] s[i] as u32 && s[i] as u32 <= 90 ==> ascii_lowercase(
                s,
            )[i] as u32 == (s[i] as u32) + 32,
        forall|i: int|
            0 <= i < s.len() && !(65 <= #[trigger] s[i] as u32 && s[i] as u32 <= 90) ==> ascii_lowercase(
                s,
            )[i] == s[i],
{
}

/// A word of ASCII lower-case letters, written in any mix of cases and
/// surrounded by any Unicode whitespace, reads as that word.
pub proof fn lemma_padded_case_variant_reads_as(p: Seq<char>, u: Seq<char>, q: Seq<char>, name: Seq<char>)
    requires
        padding(p),
        padding(q),
        lower_ascii_word(name),
        ascii_case_variant(u, name),
    ensures
        normalize(p + u + q) == name,
{
    assert(all_white_space(p)) by {
        assert forall|i: int| 0 <= i < p.len() implies is_white_space(#[trigger] p[i]) by {
            lemma_white_space_is_unicode_white_space(p[i]);
        }
    }
    assert(all_white_space(q)) by {
        assert forall|i: int| 0 <= i < q.len() implies is_white_space(#[trigger] q[i]) by {
            lemma_white_space_is_unicode_white_space(q[i]);
        }
    }
    assert(ascii_lowercase(u) =~= ascii_lowercase(name)) by {
        assert forall|i: int| 0 <= i < u.len() implies ascii_lowercase(u)[i] == ascii_lowercase(
            name,
        )[i] by {
            assert(97 <= name[i] as u32 <= 122);
            if u[i] != name[i] {
                assert((u[i] as u32) + 32 == name[i] as u32);
            }
        }
    }
    lemma_normalize_ignores_padding_and_case(p, u, q, name);
    if name.len() > 0 {
        assert(97 <= name[0] as u32 <= 122);
        assert(97 <= name.last() as u32 <= 122);
    }
    assert(trim_start(name) == name);
    assert(trim_end(name) == name);
    assert(ascii_lowercase(name) =~= name) by {
        assert forall|i: int| 0 <= i < name.len() implies ascii_lowercase(name)[i] == name[i] by {
            assert(97 <= name[i] as u32 <= 122);
        }
    }
}

/// Calls `str::trim`, which returns the sub-slice of `s` without leading and
/// trailing whitespace, whitespace being the Unicode `White_Space` property.
#[verifier::external_body]
pub(crate) fn trim_whitespace(s: &str) -> (res: &str)
    ensures
        res@ == trim(s@),
{
    s.trim()
}

/// Calls `str::to_ascii_lowercase`, which returns a copy of `s` in which ASCII
/// upper-case letters are replaced by their lower-case forms and every other
/// character is kept.
#[verifier::external_body]
pub(crate) fn to_ascii_lowercase(s: &str) -> (res: String)
    ensures
        res@ == ascii_lowercase(s@),
{
    s.to_ascii_lowercase()
}

/// Whether two strings hold the same characters.
pub(crate) fn same_text(a: &str, b: &str) -> (res: bool)
    ensures
        res == (a@ == b@),
{
    let n = a.unicode_len();
    if n != b.unicode_len() {
        return false;
    }
    let mut i: usize = 0;
    while i < n
        invariant
            n == a@.len(),
            n == b@.len(),
            i <= n,
            forall|j: int| 0 <= j < i ==> a@[j] == b@[j],
        decreases n - i,
    {
        if a.get_char(i) != b.get_char(i) {
            return false;
        }
        i = i + 1;
    }
    assert(a@ =~= b@);
    true
}

} // verus!
