//! Verified character and string helpers: ASCII case folding, case-insensitive
//! prefix tests, and whitespace trimming.

use vstd::prelude::*;

verus! {

/// ASCII lowercase folding of one character: 'A'..'Z' map to 'a'..'z',
/// every other character is unchanged.
pub open spec fn lower_char(c: char) -> char {
    if 'A' <= c && c <= 'Z' {
        (((c as u32) + 32) as u8) as char
    } else {
        c
    }
}

/// Pointwise ASCII lowercase folding of a character sequence.
pub open spec fn lower(s: Seq<char>) -> Seq<char> {
    s.map_values(|c: char| lower_char(c))
}

/// Executable ASCII lowercase folding of one character.
pub fn lower_char_exec(c: char) -> (r: char)
    ensures
        r == lower_char(c),
{
    if 'A' <= c && c <= 'Z' {
        (((c as u32) + 32) as u8) as char
    } else {
        c
    }
}

/// Whether `s` begins with `prefix` once `s` is ASCII-lowercase folded.
/// `prefix` is expected to be written in lowercase already.
pub fn starts_with_lower(s: &str, prefix: &str) -> (r: bool)
    ensures
        r == prefix@.is_prefix_of(lower(s@)),
{
    let n = prefix.unicode_len();
    let s_len = s.unicode_len();
    if s_len < n {
        assert(!prefix@.is_prefix_of(lower(s@))) by {
            assert(lower(s@).len() == s@.len());
        }
        return false;
    }
    let mut i: usize = 0;
    while i < n
        invariant
            i <= n,
            n == prefix@.len(),
            n <= s@.len(),
            forall|j: int| 0 <= j < i ==> prefix@[j] == lower(s@)[j],
        decreases n - i,
    {
        let c = lower_char_exec(s.get_char(i));
        let p = prefix.get_char(i);
        if c != p {
            assert(!prefix@.is_prefix_of(lower(s@))) by {
                assert(lower(s@)[i as int] != prefix@[i as int]);
            }
            return false;
        }
        i += 1;
    }
    assert(prefix@.is_prefix_of(lower(s@))) by {
        assert(prefix@ =~= lower(s@).subrange(0, prefix@.len() as int));
    }
    true
}

/// The Unicode `White_Space` characters, the set that `str::trim` removes.
pub open spec fn is_space(c: char) -> bool {
    c == ' ' || c == '\t' || c == '\n' || c == '\r' || c == '\u{0B}' || c == '\u{0C}'
        || c == '\u{85}' || c == '\u{A0}' || c == '\u{1680}'
        || ('\u{2000}' <= c && c <= '\u{200A}')
        || c == '\u{2028}' || c == '\u{2029}' || c == '\u{202F}' || c == '\u{205F}'
        || c == '\u{3000}'
}

/// Index of the first character that is not whitespace; the length if all are.
pub open spec fn first_non_space(s: Seq<char>) -> nat
    decreases s.len(),
{
    if s.len() == 0 {
        0
    } else if !is_space(s[0]) {
        0
    } else {
        1 + first_non_space(s.drop_first())
    }
}

/// One past the index of the last character that is not whitespace; 0 if all are.
pub open spec fn end_non_space(s: Seq<char>) -> nat
    decreases s.len(),
{
    if s.len() == 0 {
        0
    } else if !is_space(s.last()) {
        s.len()
    } else {
        end_non_space(s.drop_last())
    }
}

/// `s` with leading and trailing whitespace removed.
pub open spec fn trim_spec(s: Seq<char>) -> Seq<char> {
    let a = first_non_space(s) as int;
    let b = end_non_space(s) as int;
    if a < b {
        s.subrange(a, b)
    } else {
        Seq::empty()
    }
}

/// Executable whitespace test for one character.
pub fn is_space_exec(c: char) -> (r: bool)
    ensures
        r == is_space(c),
{
    c == ' ' || c == '\t' || c == '\n' || c == '\r' || c == '\u{0B}' || c == '\u{0C}'
        || c == '\u{85}' || c == '\u{A0}' || c == '\u{1680}'
        || ('\u{2000}' <= c && c <= '\u{200A}')
        || c == '\u{2028}' || c == '\u{2029}' || c == '\u{202F}' || c == '\u{205F}'
        || c == '\u{3000}'
}

proof fn lemma_first_non_space_at(s: Seq<char>, k: nat)
    requires
        k <= s.len(),
        forall|i: int| 0 <= i < k ==> is_space(s[i]),
        k == s.len() || !is_space(s[k as int]),
    ensures
        first_non_space(s) == k,
    decreases k,
{
    if k == 0 {
    } else {
        assert(is_space(s[0]));
        let t = s.drop_first();
        assert(forall|i: int| 0 <= i < k - 1 ==> s[i + 1] == #[trigger] t[i]);
        lemma_first_non_space_at(t, (k - 1) as nat);
    }
}

proof fn lemma_end_non_space_at(s: Seq<char>, k: nat)
    requires
        k <= s.len(),
        forall|i: int| k <= i < s.len() ==> is_space(s[i]),
        k == 0 || !is_space(s[k - 1]),
    ensures
        end_non_space(s) == k,
    decreases s.len(),
{
    if k == s.len() {
        if s.len() > 0 {
            assert(!is_space(s.last()));
        }
    } else {
        assert(is_space(s.last()));
        let t = s.drop_last();
        lemma_end_non_space_at(t, k);
    }
}

/// All-whitespace strings trim to the empty string.
proof fn lemma_all_space_end(s: Seq<char>)
    requires
        forall|i: int| 0 <= i < s.len() ==> is_space(s[i]),
    ensures
        end_non_space(s) == 0,
    decreases s.len(),
{
    if s.len() > 0 {
        lemma_all_space_end(s.drop_last());
    }
}

/// `text` with leading and trailing whitespace removed, as `str::trim` does.
pub fn trim(text: &str) -> (r: String)
    ensures
        r@ == trim_spec(text@),
{
    let len = text.unicode_len();
    let mut start: usize = 0;
    while start < len && is_space_exec(text.get_char(start))
        invariant
            start <= len,
            len == text@.len(),
            forall|i: int| 0 <= i < start ==> is_space(text@[i]),
        decreases len - start,
    {
        start += 1;
    }
    if start == len {
        proof {
            lemma_first_non_space_at(text@, len as nat);
            lemma_all_space_end(text@);
        }
        return String::new();
    }
    proof {
        lemma_first_non_space_at(text@, start as nat);
    }
    let mut end: usize = len;
    while end > start && is_space_exec(text.get_char(end - 1))
        invariant
            start <= end <= len,
            len == text@.len(),
            !is_space(text@[start as int]),
            forall|i: int| end <= i < len ==> is_space(text@[i]),
        decreases end,
    {
        end -= 1;
    }
    assert(end > start);
    proof {
        lemma_end_non_space_at(text@, end as nat);
    }
    let out = text.substring_char(start, end);
    out.to_owned()
}

} // verus!
