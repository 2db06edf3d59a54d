//! The clean-up of a raw command-line argument: one layer of quotes goes
//! from its ends, then the white space around what is left.

use vstd::prelude::*;

verus! {

/// The single and the double quote character.
pub open spec fn is_quote_char(c: char) -> bool {
    c == '"' || c == '\''
}

/// The code points that carry the Unicode property `White_Space`.
pub open spec fn is_white_space(c: char) -> bool {
    ||| '\u{9}' <= c <= '\u{d}'
    ||| c == ' '
    ||| c == '\u{85}'
    ||| c == '\u{a0}'
    ||| c == '\u{1680}'
    ||| '\u{2000}' <= c <= '\u{200a}'
    ||| c == '\u{2028}'
    ||| c == '\u{2029}'
    ||| c == '\u{202f}'
    ||| c == '\u{205f}'
    ||| c == '\u{3000}'
}

/// `s` without one layer of quotes: a quote character that begins `s` is
/// dropped, and then a quote character that ends what is left. Each end
/// loses one character at most, whichever of the two quote characters it
/// is, and whether or not the other end has one.
pub open spec fn unquoted(s: Seq<char>) -> Seq<char> {
    let rest = if s.len() > 0 && is_quote_char(s.first()) {
        s.drop_first()
    } else {
        s
    };
    if rest.len() > 0 && is_quote_char(rest.last()) {
        rest.drop_last()
    } else {
        rest
    }
}

/// `s` without its longest prefix made of white space.
pub open spec fn trim_start(s: Seq<char>) -> Seq<char>
    decreases s.len(),
{
    if s.len() > 0 && is_white_space(s.first()) {
        trim_start(s.drop_first())
    } else {
        s
    }
}

/// `s` without its longest suffix made of white space.
pub open spec fn trim_end(s: Seq<char>) -> Seq<char>
    decreases s.len(),
{
    if s.len() > 0 && is_white_space(s.last()) {
        trim_end(s.drop_last())
    } else {
        s
    }
}

/// `s` without the white space at either end.
pub open spec fn trimmed(s: Seq<char>) -> Seq<char> {
    trim_end(trim_start(s))
}

/// A raw argument with one layer of quotes removed from its ends, then
/// the white space at the ends of what is left.
pub open spec fn cleaned(raw: Seq<char>) -> Seq<char> {
    trimmed(unquoted(raw))
}

/// Tells whether `c` is a single or a double quote.
pub fn is_quote(c: char) -> (r: bool)
    ensures
        r == is_quote_char(c),
{
    c == '"' || c == '\''
}

/// Tells whether `c` is a white-space character.
pub fn is_whitespace(c: char) -> (r: bool)
    ensures
        r == is_white_space(c),
{
    ('\u{9}' <= c && c <= '\u{d}') || c == ' ' || c == '\u{85}' || c == '\u{a0}' || c == '\u{1680}'
        || ('\u{2000}' <= c && c <= '\u{200a}') || c == '\u{2028}' || c == '\u{2029}' || c
        == '\u{202f}' || c == '\u{205f}' || c == '\u{3000}'
}

/// The characters of `s`, in order.
pub(crate) fn chars_of(s: &str) -> (v: Vec<char>)
    ensures
        v@ == s@,
{
    let mut v: Vec<char> = Vec::new();
    for c in it: s.chars()
        invariant
            it.seq() == s@,
            v@ == s@.subrange(0, it.index()),
    {
        v.push(c);
    }
    assert(s@.subrange(0, s@.len() as int) == s@);
    v
}

/// Removes one layer of quotes from the ends of `s`: the quote character
/// that begins it, if there is one, and then the quote character that ends
/// what is left, if there is one.
pub fn unquote<'a>(s: &'a str) -> (r: &'a str)
    ensures
        r@ == unquoted(s@),
{
    let chars = chars_of(s);
    let n: usize = chars.len();
    let start: usize = if n > 0 && is_quote(chars[0]) {
        1
    } else {
        0
    };
    let end: usize = if n > start && is_quote(chars[n - 1]) {
        n - 1
    } else {
        n
    };
    proof {
        let rest = s@.subrange(start as int, n as int);
        assert(start == 0 ==> rest == s@);
        assert(start == 1 ==> rest == s@.drop_first());
        assert(n > start ==> rest.last() == s@[n - 1]);
        assert(s@.subrange(start as int, end as int) == if end == n {
            rest
        } else {
            rest.drop_last()
        });
    }
    s.substring_char(start, end)
}

/// Removes the white space from both ends of `s`.
pub fn trim<'a>(s: &'a str) -> (r: &'a str)
    ensures
        r@ == trimmed(s@),
{
    let chars = chars_of(s);
    let n: usize = chars.len();
    let mut start: usize = 0;
    assert(s@.subrange(0, n as int) == s@);
    while start < n && is_whitespace(chars[start])
        invariant
            chars@ == s@,
            n == s@.len(),
            start <= n,
            trim_start(s@) == trim_start(s@.subrange(start as int, n as int)),
        decreases n - start,
    {
        assert(s@.subrange(start as int, n as int).drop_first() == s@.subrange(
            start as int + 1,
            n as int,
        ));
        start += 1;
    }
    let ghost head = s@.subrange(start as int, n as int);
    assert(trim_start(s@) == head);
    let mut end: usize = n;
    while end > start && is_whitespace(chars[end - 1])
        invariant
            chars@ == s@,
            n == s@.len(),
            start <= end <= n,
            head == s@.subrange(start as int, n as int),
            trim_end(head) == trim_end(s@.subrange(start as int, end as int)),
        decreases end - start,
    {
        assert(s@.subrange(start as int, end as int).drop_last() == s@.subrange(
            start as int,
            end as int - 1,
        ));
        end -= 1;
    }
    s.substring_char(start, end)
}

/// Cleans a raw command-line argument: one layer of quotes goes from its
/// ends, a single or double quote character at the start and one at the
/// end, and then the white space at the ends of what is left. Quotes that
/// white space shields from the ends stay, and so does a second layer.
pub fn clean_file_path(path: &str) -> (r: String)
    ensures
        r@ == cleaned(path@),
{
    trim(unquote(path)).to_owned()
}

/// `trim_start` drops a prefix of `s` that is all white space, and stops
/// at the first character that is not. The result is the length of the
/// prefix.
proof fn lemma_trim_start_drops_a_prefix(s: Seq<char>) -> (i: int)
    ensures
        0 <= i <= s.len(),
        trim_start(s) == s.subrange(i, s.len() as int),
        forall|k: int| 0 <= k < i ==> is_white_space(s[k]),
        i < s.len() ==> !is_white_space(s[i]),
    decreases s.len(),
{
    if s.len() > 0 && is_white_space(s.first()) {
        let rest = s.drop_first();
        let i = lemma_trim_start_drops_a_prefix(rest);
        assert(rest.subrange(i, rest.len() as int) == s.subrange(i + 1, s.len() as int));
        assert forall|k: int| 0 <= k < i + 1 implies is_white_space(s[k]) by {
            if k > 0 {
                assert(s[k] == rest[k - 1]);
            }
        }
        i + 1
    } else {
        assert(s.subrange(0, s.len() as int) == s);
        0
    }
}

/// `trim_end` drops a suffix of `s` that is all white space, and stops at
/// the last character that is not. The result is the length of what is
/// left.
proof fn lemma_trim_end_drops_a_suffix(s: Seq<char>) -> (j: int)
    ensures
        0 <= j <= s.len(),
        trim_end(s) == s.subrange(0, j),
        forall|k: int| j <= k < s.len() ==> is_white_space(s[k]),
        0 < j ==> !is_white_space(s[j - 1]),
    decreases s.len(),
{
    if s.len() > 0 && is_white_space(s.last()) {
        let rest = s.drop_last();
        let j = lemma_trim_end_drops_a_suffix(rest);
        assert(rest.subrange(0, j) == s.subrange(0, j));
        assert forall|k: int| j <= k < s.len() implies is_white_space(s[k]) by {
            if k < rest.len() {
                assert(s[k] == rest[k]);
            }
        }
        j
    } else {
        assert(s.subrange(0, s.len() as int) == s);
        s.len() as int
    }
}

/// What a trim leaves of `s` is one stretch of it: all that comes before
/// the stretch and all that comes after it is white space, and unless the
/// stretch is empty, its first and its last character are not.
pub proof fn lemma_trimmed_is_the_core(s: Seq<char>)
    ensures
        exists|i: int, j: int|
            {
                &&& 0 <= i <= j <= s.len()
                &&& trimmed(s) == #[trigger] s.subrange(i, j)
                &&& forall|k: int| 0 <= k < i || j <= k < s.len() ==> is_white_space(s[k])
                &&& i < j ==> !is_white_space(s[i]) && !is_white_space(s[j - 1])
            },
{
    let i = lemma_trim_start_drops_a_prefix(s);
    let tail = s.subrange(i, s.len() as int);
    let kept = lemma_trim_end_drops_a_suffix(tail);
    let j = i + kept;
    assert(tail.subrange(0, kept) == s.subrange(i, j));
    assert forall|k: int| 0 <= k < i || j <= k < s.len() implies is_white_space(s[k]) by {
        if j <= k {
            assert(s[k] == tail[k - i]);
        }
    }
    if i < j {
        assert(tail[kept - 1] == s[j - 1]);
    }
}

/// Removing a layer of quotes takes one character at most from each end
/// of `s`, and only a quote character: the first character goes if and
/// only if it is a quote, and the last one goes if and only if it is a
/// quote and is not that same first character.
pub proof fn lemma_unquoted_drops_one_layer(s: Seq<char>)
    ensures
        ({
            let i: int = if s.len() > 0 && is_quote_char(s[0]) {
                1
            } else {
                0
            };
            let j: int = if s.len() > i && is_quote_char(s[s.len() - 1]) {
                s.len() - 1
            } else {
                s.len() as int
            };
            unquoted(s) == s.subrange(i, j)
        }),
{
    let i: int = if s.len() > 0 && is_quote_char(s[0]) {
        1
    } else {
        0
    };
    let rest = s.subrange(i, s.len() as int);
    assert(i == 0 ==> rest == s);
    if s.len() > i {
        assert(rest.last() == s[s.len() - 1]);
        assert(rest.drop_last() == s.subrange(i, s.len() - 1));
    }
}

/// A cleaned argument neither begins nor ends with white space.
pub proof fn lemma_cleaned_has_no_outer_white_space(raw: Seq<char>)
    ensures
        cleaned(raw).len() > 0 ==> !is_white_space(cleaned(raw).first()) && !is_white_space(
            cleaned(raw).last(),
        ),
{
    lemma_trimmed_is_the_core(unquoted(raw));
}

} // verus!
