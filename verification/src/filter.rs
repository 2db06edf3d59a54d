//! Recognition of the file types that the viewer opens, and the choice of
//! the argument to open among those of a command line.

use crate::text::{chars_of, clean_file_path, cleaned};
use vstd::prelude::*;

verus! {

/// The lower-case form of a text, as `str::to_lowercase` of the standard
/// library gives it.
pub uninterp spec fn lowercase(s: Seq<char>) -> Seq<char>;

/// Calls `str::to_lowercase`, which maps each character to its Unicode
/// lower-case equivalent, of one or more characters. The mapping is named,
/// not spelled out: the result is `lowercase` of the argument.
#[verifier::external_body]
fn to_lowercase(s: &str) -> (lower: String)
    ensures
        lower@ == lowercase(s@),
{
    s.to_lowercase()
}

/// A lower-case text ends in one of the supported extensions.
pub open spec fn has_supported_suffix(lower: Seq<char>) -> bool {
    ||| ".md"@.is_suffix_of(lower)
    ||| ".markdown"@.is_suffix_of(lower)
    ||| ".txt"@.is_suffix_of(lower)
}

/// A path names a file that the viewer opens: its lower-case form ends in
/// a supported extension.
pub open spec fn supported(path: Seq<char>) -> bool {
    has_supported_suffix(lowercase(path))
}

/// Tells whether `s` ends with `suffix`.
pub fn ends_with(s: &str, suffix: &str) -> (r: bool)
    ensures
        r == suffix@.is_suffix_of(s@),
{
    let text = chars_of(s);
    let tail = chars_of(suffix);
    let n: usize = text.len();
    let m: usize = tail.len();
    if m > n {
        return false;
    }
    let skip: usize = n - m;
    let mut i: usize = 0;
    while i < m
        invariant
            text@ == s@,
            tail@ == suffix@,
            n == text.len(),
            m == tail.len(),
            skip == n - m,
            i <= m,
            forall|k: int| 0 <= k < i ==> tail@[k] == text@[skip + k],
        decreases m - i,
    {
        if tail[i] != text[skip + i] {
            assert(s@.subrange(skip as int, n as int)[i as int] != suffix@[i as int]);
            return false;
        }
        i += 1;
    }
    assert(suffix@ =~= s@.subrange(skip as int, n as int));
    true
}

/// Tells whether a text that is already in lower case ends in a supported
/// extension.
pub fn is_supported_lowercase(lower: &str) -> (r: bool)
    ensures
        r == has_supported_suffix(lower@),
{
    ends_with(lower, ".md") || ends_with(lower, ".markdown") || ends_with(lower, ".txt")
}

/// Tells whether `path` names a file that the viewer opens. The match is
/// made on the lower-case form of the path, so the letter case of the
/// extension does not matter.
pub fn is_supported_file(path: &str) -> (r: bool)
    ensures
        r == supported(path@),
{
    let lower = to_lowercase(path);
    is_supported_lowercase(lower.as_str())
}

/// The first of `args` that, once cleaned, names a supported file, in its
/// cleaned form.
pub open spec fn first_supported(args: Seq<Seq<char>>) -> Option<Seq<char>>
    decreases args.len(),
{
    if args.len() == 0 {
        None
    } else if supported(cleaned(args.first())) {
        Some(cleaned(args.first()))
    } else {
        first_supported(args.drop_first())
    }
}

/// Picks the file to open among the arguments of a command line: the first
/// one that, once cleaned, names a supported file. The result is in its
/// cleaned form.
pub fn select_file_arg(args: &Vec<String>) -> (r: Option<String>)
    ensures
        match r {
            Some(path) => first_supported(args.deep_view()) == Some(path@),
            None => first_supported(args.deep_view()) is None,
        },
{
    let ghost texts = args.deep_view();
    let mut i: usize = 0;
    assert(texts.subrange(0, args.len() as int) == texts);
    while i < args.len()
        invariant
            i <= args.len(),
            texts == args.deep_view(),
            first_supported(texts) == first_supported(texts.subrange(i as int, args.len() as int)),
        decreases args.len() - i,
    {
        let candidate = clean_file_path(args[i].as_str());
        let ghost rest = texts.subrange(i as int, args.len() as int);
        assert(rest.first() == args@[i as int]@);
        if is_supported_file(candidate.as_str()) {
            return Some(candidate);
        }
        assert(rest.drop_first() == texts.subrange(i as int + 1, args.len() as int));
        i += 1;
    }
    None
}

/// `first_supported` picks the argument at the least index whose cleaned
/// form is supported, and nothing when there is none.
pub proof fn lemma_first_supported_is_least(args: Seq<Seq<char>>)
    ensures
        match first_supported(args) {
            Some(path) => exists|i: int|
                0 <= i < args.len() && path == cleaned(#[trigger] args[i]) && supported(path)
                    && forall|j: int| 0 <= j < i ==> !supported(cleaned(#[trigger] args[j])),
            None => forall|i: int| 0 <= i < args.len() ==> !supported(cleaned(#[trigger] args[i])),
        },
    decreases args.len(),
{
    if args.len() == 0 {
    } else if supported(cleaned(args.first())) {
        assert(cleaned(args[0]) == cleaned(args.first()));
    } else {
        let rest = args.drop_first();
        lemma_first_supported_is_least(rest);
        assert(forall|k: int| 0 <= k < rest.len() ==> rest[k] == args[k + 1]);
        match first_supported(rest) {
            Some(path) => {
                let i = choose|i: int|
                    0 <= i < rest.len() && path == cleaned(#[trigger] rest[i]) && supported(path)
                        && forall|j: int| 0 <= j < i ==> !supported(cleaned(#[trigger] rest[j]));
                assert(path == cleaned(args[i + 1]));
                assert forall|j: int| 0 <= j < i + 1 implies !supported(
                    cleaned(#[trigger] args[j]),
                ) by {
                    if j > 0 {
                        assert(args[j] == rest[j - 1]);
                    }
                }
            },
            None => {
                assert forall|i: int| 0 <= i < args.len() implies !supported(
                    cleaned(#[trigger] args[i]),
                ) by {
                    if i > 0 {
                        assert(args[i] == rest[i - 1]);
                    }
                }
            },
        }
    }
}

} // verus!
