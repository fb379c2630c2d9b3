//! Character-level text helpers: emoji filtering, word counting and previews.

use vstd::prelude::*;
use vstd::std_specs::iter::IteratorSpec;
use vstd::string::*;

verus! {

/// Whether a character code lies in one of the emoji blocks that are
/// removed from log output: Miscellaneous Symbols and Dingbats
/// (U+2600..=U+27BF) and the pictograph blocks U+1F300..=U+1FAFF.
pub open spec fn is_emoji_spec(c: char) -> bool {
    ||| (0x2600 <= c as u32 && c as u32 <= 0x27BF)
    ||| (0x1F300 <= c as u32 && c as u32 <= 0x1FAFF)
}

/// The characters of `s` that are not emoji, in their original order.
pub open spec fn without_emoji(s: Seq<char>) -> Seq<char> {
    s.filter(|c: char| !is_emoji_spec(c))
}

/// Appends one character to a string, with `String::push`.
#[verifier::external_body]
pub(crate) fn push_char(s: &mut String, c: char)
    ensures
        final(s)@ == old(s)@.push(c),
{
    s.push(c);
}

/// Joins two texts.
pub(crate) fn joined(prefix: &str, rest: &str) -> (r: String)
    ensures
        r@ == prefix@ + rest@,
{
    let mut s = String::from_str(prefix);
    s.append(rest);
    s
}

/// Decides whether `ch` is an emoji character that the log filter drops.
pub fn is_emoji(ch: char) -> (r: bool)
    ensures
        r == is_emoji_spec(ch),
        r == ((0x2600 <= ch as u32 && ch as u32 <= 0x27BF) || (0x1F300 <= ch as u32 && ch as u32
            <= 0x1FAFF)),
{
    let code = ch as u32;
    (0x2600 <= code && code <= 0x27BF) || (0x1F300 <= code && code <= 0x1FAFF)
}

/// Removes every emoji character from `line`, keeping all other characters
/// (line breaks included) in order.
pub fn strip_emoji(line: &str) -> (r: String)
    ensures
        r@ == without_emoji(line@),
{
    let mut out = String::new();
    for c in it: line.chars()
        invariant
            it.seq() == line@,
            out@ == without_emoji(line@.take(it.index())),
    {
        proof {
            let i = it.index();
            assert(line@.take(i + 1).drop_last() =~= line@.take(i));
            reveal_with_fuel(Seq::filter, 1);
        }
        if !is_emoji(c) {
            push_char(&mut out, c);
        }
    }
    proof {
        assert(line@.take(line@.len() as int) =~= line@);
    }
    out
}

/// Whether `c` has the Unicode `White_Space` property, which is what
/// `char::is_whitespace` decides: U+0009..=U+000D, U+0020, U+0085, U+00A0,
/// U+1680, U+2000..=U+200A, U+2028, U+2029, U+202F, U+205F and U+3000.
pub open spec fn is_whitespace_spec(c: char) -> bool {
    let u = c as u32;
    ||| (0x09 <= u && u <= 0x0D)
    ||| u == 0x20
    ||| u == 0x85
    ||| u == 0xA0
    ||| u == 0x1680
    ||| (0x2000 <= u && u <= 0x200A)
    ||| u == 0x2028
    ||| u == 0x2029
    ||| u == 0x202F
    ||| u == 0x205F
    ||| u == 0x3000
}

/// Whether position `i` of `s` begins a word: a non-whitespace character
/// that is first in the text or follows a whitespace character.
pub open spec fn starts_word(s: Seq<char>, i: int) -> bool {
    &&& 0 <= i < s.len()
    &&& !is_whitespace_spec(s[i])
    &&& (i == 0 || is_whitespace_spec(s[i - 1]))
}

/// The number of maximal runs of non-whitespace characters in `s`, which is
/// the number of items that `str::split_whitespace` yields.
pub open spec fn word_count_spec(s: Seq<char>) -> nat
    decreases s.len(),
{
    if s.len() == 0 {
        0
    } else {
        word_count_spec(s.drop_last()) + if starts_word(s, s.len() - 1) {
            1nat
        } else {
            0nat
        }
    }
}

/// The preview of `s` limited to `max_chars` characters: the first
/// `max_chars` characters followed by "..." when `s` is longer, else `s`.
pub open spec fn preview_spec(s: Seq<char>, max_chars: nat) -> Seq<char> {
    if s.len() > max_chars {
        s.take(max_chars as int) + "..."@
    } else {
        s
    }
}

/// Decides `char::is_whitespace`: whether `c` has the Unicode `White_Space`
/// property.
pub fn is_whitespace(c: char) -> (r: bool)
    ensures
        r == is_whitespace_spec(c),
{
    let u = c as u32;
    (0x09 <= u && u <= 0x0D) || u == 0x20 || u == 0x85 || u == 0xA0 || u == 0x1680 || (0x2000
        <= u && u <= 0x200A) || u == 0x2028 || u == 0x2029 || u == 0x202F || u == 0x205F || u
        == 0x3000
}

proof fn lemma_starts_word_prefix(s: Seq<char>, n: int, i: int)
    requires
        0 <= i < n <= s.len(),
    ensures
        starts_word(s.take(n), i) == starts_word(s, i),
{
}

/// Counts the whitespace-separated words of `text`.
pub fn count_words(text: &str) -> (r: usize)
    ensures
        r == word_count_spec(text@),
{
    let total = text.unicode_len();
    let mut count: usize = 0;
    let mut prev_ws = true;
    for c in it: text.chars()
        invariant
            it.seq() == text@,
            total == text@.len(),
            count == word_count_spec(text@.take(it.index())),
            it.index() > 0 ==> prev_ws == is_whitespace_spec(text@[it.index() - 1]),
            it.index() == 0 ==> prev_ws,
    {
        let ghost i = it.index();
        proof {
            let t = text@.take(i + 1);
            assert(t.drop_last() =~= text@.take(i));
            lemma_starts_word_prefix(text@, i + 1, i);
            crate::laws::lemma_word_count_at_most_length(text@.take(i));
        }
        let ws = is_whitespace(c);
        if !ws && prev_ws {
            count = count + 1;
        }
        prev_ws = ws;
    }
    proof {
        assert(text@.take(text@.len() as int) =~= text@);
    }
    count
}

/// Builds the preview of `content` shown in the article list: the first
/// `max_chars` characters, followed by "..." when the content is longer.
pub fn preview(content: &str, max_chars: usize) -> (r: String)
    ensures
        r@ == preview_spec(content@, max_chars as nat),
{
    let total = content.unicode_len();
    let mut out = String::new();
    let mut taken: usize = 0;
    for c in it: content.chars()
        invariant
            it.seq() == content@,
            total == content@.len(),
            taken <= max_chars,
            taken <= it.index(),
            taken == if it.index() < max_chars { it.index() } else { max_chars as int },
            out@ == content@.take(taken as int),
    {
        if taken < max_chars {
            proof {
                assert(content@.take(taken + 1) =~= content@.take(taken as int).push(c));
            }
            push_char(&mut out, c);
            taken = taken + 1;
        }
    }
    if total > max_chars {
        out.append("...");
    } else {
        proof {
            assert(content@.take(taken as int) =~= content@);
        }
    }
    out
}

} // verus!
