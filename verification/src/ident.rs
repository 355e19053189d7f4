use crate::text::{is_whitespace, lowercased, replace_char, replaced, to_lowercase};
use unicode_segmentation::UnicodeSegmentation;
use vstd::prelude::*;

verus! {

/// `text` in upper case, by the Unicode rules for whole strings.
pub uninterp spec fn uppercased(text: Seq<char>) -> Seq<char>;

/// The number of characters of the first extended grapheme cluster of
/// `text`: of what a reader takes for its first letter.
pub uninterp spec fn first_grapheme_len(text: Seq<char>) -> nat;

/// Whether `c` parts two words of a name: whitespace, an underscore or a hyphen.
pub open spec fn is_separator(c: char) -> bool {
    is_whitespace(c) || c == '_' || c == '-'
}

/// The words of `text`: its longest runs of characters that are no separators.
pub open spec fn words(text: Seq<char>) -> Seq<Seq<char>>
    decreases text.len(),
{
    if text.len() == 0 {
        Seq::empty()
    } else {
        let before = text.drop_last();
        if is_separator(text.last()) {
            words(before)
        } else if before.len() > 0 && !is_separator(before.last()) {
            words(before).drop_last().push(words(before).last().push(text.last()))
        } else {
            words(before).push(seq![text.last()])
        }
    }
}

/// The number of characters of the first letter of `word`, as far as `word` goes.
pub open spec fn initial_len(word: Seq<char>) -> int {
    if first_grapheme_len(word) <= word.len() {
        first_grapheme_len(word) as int
    } else {
        word.len() as int
    }
}

/// `word` with its first letter in upper case and the rest in lower case.
pub open spec fn capitalised(word: Seq<char>) -> Seq<char> {
    uppercased(word.take(initial_len(word))) + lowercased(word.skip(initial_len(word)))
}

/// The words in one, each capitalised.
pub open spec fn camel_case(words: Seq<Seq<char>>) -> Seq<char>
    decreases words.len(),
{
    if words.len() == 0 {
        Seq::empty()
    } else {
        camel_case(words.drop_last()) + capitalised(words.last())
    }
}

/// The identifier made of `name`: its words capitalised and put together,
/// with `And` for each ampersand.
pub open spec fn spec_sanitise_ident(name: Seq<char>) -> Seq<char> {
    replaced(camel_case(words(name)), '&', "And"@)
}

/// `char::is_whitespace` of std: whether the character has the Unicode
/// property `White_Space`, whose characters `is_whitespace` lists.
#[verifier::external_body]
fn char_is_whitespace(c: char) -> (whitespace: bool)
    ensures
        whitespace == is_whitespace(c),
{
    c.is_whitespace()
}

/// `str::to_uppercase` of std; its result is named by `uppercased`.
#[verifier::external_body]
fn to_uppercase(text: &str) -> (upper: String)
    ensures
        upper@ == uppercased(text@),
{
    text.to_uppercase()
}

/// `unicode_segmentation::UnicodeSegmentation::graphemes` for extended
/// grapheme clusters, and the number of characters of the first cluster
/// it yields, or zero if it yields none. The number is named by
/// `first_grapheme_len`.
#[verifier::external_body]
fn grapheme_len(text: &str) -> (len: usize)
    ensures
        len == first_grapheme_len(text@),
{
    text.graphemes(true).next().map_or(0, |cluster| cluster.chars().count())
}

/// Whether `c` parts two words of a name.
fn separates(c: char) -> (separator: bool)
    ensures
        separator == is_separator(c),
{
    char_is_whitespace(c) || c == '_' || c == '-'
}

/// `word` with its first letter in upper case and the rest in lower case.
fn capitalise(word: &str) -> (out: String)
    ensures
        out@ == capitalised(word@),
{
    let len = word.unicode_len();
    let first = grapheme_len(word);
    let initial = if first <= len {
        first
    } else {
        len
    };
    let mut out = to_uppercase(word.substring_char(0, initial));
    let rest = to_lowercase(word.substring_char(initial, len));
    out.append(rest.as_str());
    assert(word@.take(initial as int) =~= word@.subrange(0, initial as int));
    assert(word@.skip(initial as int) =~= word@.subrange(initial as int, len as int));
    out
}

/// The words of a text that ends within a word are those before the
/// word, and the word as far as the text goes.
proof fn lemma_words_within_word(text: Seq<char>, start: int, end: int)
    requires
        0 <= start < end <= text.len(),
        start == 0 || is_separator(text[start - 1]),
        forall|k: int| start <= k < end ==> !is_separator(#[trigger] text[k]),
    ensures
        words(text.take(end)) == words(text.take(start)).push(text.subrange(start, end)),
    decreases end - start,
{
    let whole = text.take(end);
    let before = whole.drop_last();
    assert(before =~= text.take(end - 1));
    assert(whole.last() == text[end - 1]);
    if end == start + 1 {
        assert(seq![text[start]] =~= text.subrange(start, end));
        if start > 0 {
            assert(before.last() == text[start - 1]);
        }
    } else {
        lemma_words_within_word(text, start, end - 1);
        assert(before.last() == text[end - 2]);
        let earlier = words(text.take(start));
        let open = text.subrange(start, end - 1);
        assert(earlier.push(open).drop_last() =~= earlier);
        assert(open.push(text[end - 1]) =~= text.subrange(start, end));
    }
}

/// The identifier made of `name`: its words, which whitespace,
/// underscores and hyphens part, each with its first letter in upper case
/// and the rest in lower case, put together, with `And` for each ampersand.
pub fn sanitise_ident(name: String) -> (ident: String)
    ensures
        ident@ == spec_sanitise_ident(name@),
{
    let text = name.as_str();
    let len = text.unicode_len();
    let mut out = String::new();
    let mut start: usize = 0;
    let mut in_word = false;
    let mut i: usize = 0;
    assert(text@.take(0) =~= Seq::<char>::empty());
    while i < len
        invariant
            i <= len,
            len == text@.len(),
            in_word ==> start < i && (start == 0 || is_separator(text@[start - 1])) && (forall|k: int|
                start <= k < i ==> !is_separator(#[trigger] text@[k])),
            in_word ==> out@ == camel_case(words(text@.take(start as int))),
            !in_word ==> out@ == camel_case(words(text@.take(i as int))),
            !in_word ==> i == 0 || is_separator(text@[i - 1]),
        decreases len - i,
    {
        let separator = separates(text.get_char(i));
        proof {
            let next = text@.take(i + 1);
            assert(next.drop_last() =~= text@.take(i as int));
            assert(next.last() == text@[i as int]);
            if i > 0 {
                assert(text@.take(i as int).last() == text@[i - 1]);
            }
        }
        if separator {
            if in_word {
                let word = capitalise(text.substring_char(start, i));
                proof {
                    lemma_words_within_word(text@, start as int, i as int);
                    let earlier = words(text@.take(start as int));
                    assert(earlier.push(text@.subrange(start as int, i as int)).drop_last()
                        =~= earlier);
                }
                out.append(word.as_str());
                in_word = false;
            }
        } else if !in_word {
            start = i;
            in_word = true;
        }
        i += 1;
    }
    assert(text@.take(len as int) =~= text@);
    if in_word {
        let word = capitalise(text.substring_char(start, len));
        proof {
            lemma_words_within_word(text@, start as int, len as int);
            let earlier = words(text@.take(start as int));
            assert(earlier.push(text@.subrange(start as int, len as int)).drop_last() =~= earlier);
        }
        out.append(word.as_str());
    }
    replace_char(out.as_str(), '&', "And")
}

} // verus!
