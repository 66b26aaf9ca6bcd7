//! Unicode white space, recognised in UTF-8 encoded bytes.

use vstd::prelude::*;

verus! {

/// Length in bytes of the white-space code point that is encoded at `i`, or
/// 0 where none is. The code points are those with the Unicode property
/// White_Space: U+0009 to U+000D, U+0020, U+0085, U+00A0, U+1680, U+2000 to
/// U+200A, U+2028, U+2029, U+202F, U+205F and U+3000.
pub open spec fn white_space_len(s: Seq<u8>, i: int) -> int {
    if i < 0 || i >= s.len() {
        0
    } else if s[i] == 0x20 || (0x09 <= s[i] && s[i] <= 0x0d) {
        1
    } else if i + 1 < s.len() && s[i] == 0xc2 && (s[i + 1] == 0x85 || s[i + 1] == 0xa0) {
        2
    } else if i + 2 < s.len() && s[i] == 0xe1 && s[i + 1] == 0x9a && s[i + 2] == 0x80 {
        3
    } else if i + 2 < s.len() && s[i] == 0xe2 && s[i + 1] == 0x80 && ((0x80 <= s[i + 2] && s[i + 2]
        <= 0x8a) || s[i + 2] == 0xa8 || s[i + 2] == 0xa9 || s[i + 2] == 0xaf) {
        3
    } else if i + 2 < s.len() && s[i] == 0xe2 && s[i + 1] == 0x81 && s[i + 2] == 0x9f {
        3
    } else if i + 2 < s.len() && s[i] == 0xe3 && s[i + 1] == 0x80 && s[i + 2] == 0x80 {
        3
    } else {
        0
    }
}

/// Measures the white-space code point at `i`, if one is encoded there.
pub fn white_space_at(s: &[u8], i: usize) -> (n: usize)
    ensures
        n == white_space_len(s@, i as int),
{
    let len: usize = s.len();
    if i >= len {
        return 0;
    }
    let b0: u8 = s[i];
    if b0 == 0x20 || (0x09 <= b0 && b0 <= 0x0d) {
        return 1;
    }
    if len - i >= 2 {
        let b1: u8 = s[i + 1];
        if b0 == 0xc2 && (b1 == 0x85 || b1 == 0xa0) {
            return 2;
        }
        if len - i >= 3 {
            let b2: u8 = s[i + 2];
            if b0 == 0xe1 && b1 == 0x9a && b2 == 0x80 {
                return 3;
            }
            if b0 == 0xe2 && b1 == 0x80 && ((0x80 <= b2 && b2 <= 0x8a) || b2 == 0xa8 || b2 == 0xa9
                || b2 == 0xaf) {
                return 3;
            }
            if b0 == 0xe2 && b1 == 0x81 && b2 == 0x9f {
                return 3;
            }
            if b0 == 0xe3 && b1 == 0x80 && b2 == 0x80 {
                return 3;
            }
        }
    }
    0
}

/// First index at or after `i` at which no white space is encoded: every
/// white-space code point from `i` on is passed over whole.
pub open spec fn skip_white_space(s: Seq<u8>, i: int) -> int
    decreases s.len() - i,
{
    if white_space_len(s, i) > 0 {
        skip_white_space(s, i + white_space_len(s, i))
    } else {
        i
    }
}

/// First index at or after `i` at which white space is encoded, or the end
/// of `s`: where a word that starts at `i` ends.
pub open spec fn word_end(s: Seq<u8>, i: int) -> int
    decreases s.len() - i,
{
    if 0 <= i < s.len() && white_space_len(s, i) == 0 {
        word_end(s, i + 1)
    } else {
        i
    }
}

/// Whether `s` from `i` on holds white space only.
pub open spec fn blank_from(s: Seq<u8>, i: int) -> bool {
    skip_white_space(s, i) == s.len()
}

/// Where the first word at or after `i` starts: at the end of `s` if there is
/// none.
pub open spec fn word_start(s: Seq<u8>, i: int) -> int {
    skip_white_space(s, i)
}

/// The first word at or after `i`: the bytes between the white space before
/// it and the white space behind it. Empty if only white space is left.
pub open spec fn word_at(s: Seq<u8>, i: int) -> Seq<u8> {
    s.subrange(word_start(s, i), word_end(s, word_start(s, i)))
}

/// Index behind the first word at or after `i`.
pub open spec fn behind_word(s: Seq<u8>, i: int) -> int {
    word_end(s, word_start(s, i))
}

/// `skip_white_space` stays within `s` and never goes back.
pub proof fn lemma_skip_white_space_bounds(s: Seq<u8>, i: int)
    requires
        0 <= i <= s.len(),
    ensures
        i <= skip_white_space(s, i) <= s.len(),
        white_space_len(s, skip_white_space(s, i)) == 0,
    decreases s.len() - i,
{
    if white_space_len(s, i) > 0 {
        lemma_skip_white_space_bounds(s, i + white_space_len(s, i));
    }
}

/// `word_end` stays within `s`, never goes back, and no white space is
/// encoded at any index that it passes.
pub proof fn lemma_word_end_bounds(s: Seq<u8>, i: int)
    requires
        0 <= i <= s.len(),
    ensures
        i <= word_end(s, i) <= s.len(),
        forall|j: int| i <= j < word_end(s, i) ==> white_space_len(s, j) == 0,
        word_end(s, i) < s.len() ==> white_space_len(s, word_end(s, i)) > 0,
    decreases s.len() - i,
{
    if i < s.len() && white_space_len(s, i) == 0 {
        lemma_word_end_bounds(s, i + 1);
    }
}

/// Whether no white space is encoded anywhere in `s`.
pub open spec fn holds_no_white_space(s: Seq<u8>) -> bool {
    forall|j: int| 0 <= j < s.len() ==> white_space_len(s, j) == 0
}

/// The first word at or after `i` lies within `s`, the index behind it too,
/// and the word holds no white space.
pub proof fn lemma_word_bounds(s: Seq<u8>, i: int)
    requires
        0 <= i <= s.len(),
    ensures
        i <= word_start(s, i) <= behind_word(s, i) <= s.len(),
        holds_no_white_space(word_at(s, i)),
{
    lemma_skip_white_space_bounds(s, i);
    let start = word_start(s, i);
    lemma_word_end_bounds(s, start);
    let end = word_end(s, start);
    let word = word_at(s, i);
    assert forall|j: int| 0 <= j < word.len() implies white_space_len(word, j) == 0 by {
        assert(white_space_len(s, start + j) == 0);
        assert(word[j] == s[start + j]);
        if j + 1 < word.len() {
            assert(word[j + 1] == s[start + j + 1]);
        }
        if j + 2 < word.len() {
            assert(word[j + 2] == s[start + j + 2]);
        }
    }
}

/// Passes over the white space that starts at `i`.
pub fn skip_white(s: &[u8], i: usize) -> (k: usize)
    requires
        i <= s.len(),
    ensures
        k == skip_white_space(s@, i as int),
        i <= k <= s.len(),
        white_space_len(s@, k as int) == 0,
{
    proof {
        lemma_skip_white_space_bounds(s@, i as int);
    }
    let mut k: usize = i;
    loop
        invariant
            i <= k <= s.len(),
            skip_white_space(s@, k as int) == skip_white_space(s@, i as int),
        ensures
            k == skip_white_space(s@, i as int),
        decreases s.len() - k,
    {
        let n: usize = white_space_at(s, k);
        if n == 0 {
            break;
        }
        k = k + n;
    }
    k
}

/// Passes over the word that starts at `i`.
pub fn skip_word(s: &[u8], i: usize) -> (k: usize)
    requires
        i <= s.len(),
    ensures
        k == word_end(s@, i as int),
        i <= k <= s.len(),
        forall|j: int| i <= j < k ==> white_space_len(s@, j) == 0,
        k < s.len() ==> white_space_len(s@, k as int) > 0,
{
    proof {
        lemma_word_end_bounds(s@, i as int);
    }
    let mut k: usize = i;
    while k < s.len() && white_space_at(s, k) == 0
        invariant
            i <= k <= s.len(),
            word_end(s@, k as int) == word_end(s@, i as int),
        decreases s.len() - k,
    {
        k = k + 1;
    }
    k
}

} // verus!
