//! Removal of tagged elements from a text.

use vstd::prelude::*;
use crate::text::{chars_of, find_from, first_occurrence, lemma_first_occurrence, string_of};

verus! {

/// The text that opens an element: `<` and the tag's name. What follows the name (attributes,
/// or more letters) is not looked at.
pub open spec fn opening_tag(tag: Seq<char>) -> Seq<char> {
    seq!['<'] + tag
}

/// The text that closes an element: `</`, the tag's name and `>`.
pub open spec fn closing_tag(tag: Seq<char>) -> Seq<char> {
    seq!['<', '/'] + tag + seq!['>']
}

/// The first element of `text` that can be removed, as the range `(start, end)` of its
/// characters: `start` is where the first opening tag stands, the opening tag ends with the
/// first `>` from there on, and `end` is just behind the first closing tag after that `>`.
/// There is none where one of the three is missing.
pub open spec fn first_element(text: Seq<char>, tag: Seq<char>) -> Option<(int, int)> {
    match first_occurrence(text, opening_tag(tag), 0) {
        None => None,
        Some(start) => match first_occurrence(text, seq!['>'], start) {
            None => None,
            Some(gt) => match first_occurrence(text, closing_tag(tag), gt + 1) {
                None => None,
                Some(close) => Some((start, close + closing_tag(tag).len())),
            },
        },
    }
}

/// The range of the first element lies within the text and is not empty.
pub proof fn lemma_first_element_bounds(text: Seq<char>, tag: Seq<char>)
    ensures
        first_element(text, tag) matches Some((start, end)) ==> 0 <= start < end <= text.len(),
{
    lemma_first_occurrence(text, opening_tag(tag), 0);
    if let Some(start) = first_occurrence(text, opening_tag(tag), 0) {
        lemma_first_occurrence(text, seq!['>'], start);
        if let Some(gt) = first_occurrence(text, seq!['>'], start) {
            lemma_first_occurrence(text, closing_tag(tag), gt + 1);
        }
    }
}

/// `text` without the characters of the range `start..end`.
pub open spec fn without_range(text: Seq<char>, start: int, end: int) -> Seq<char> {
    text.subrange(0, start) + text.subrange(end, text.len() as int)
}

/// `text` after its first element has been removed, again and again, until none is left.
pub open spec fn strip_elements(text: Seq<char>, tag: Seq<char>) -> Seq<char>
    decreases text.len(),
{
    match first_element(text, tag) {
        None => text,
        Some((start, end)) => {
            proof {
                lemma_first_element_bounds(text, tag);
            }
            strip_elements(without_range(text, start, end), tag)
        },
    }
}

/// A utility struct for XML operations.
pub struct XmlUtil;

impl XmlUtil {
    /// Removes every element with the given tag name, its content included.
    ///
    /// Returns the text that is left, or `None` where the input holds no such element and
    /// nothing was removed.
    pub fn remove_tag(input: &str, tag_name: &str) -> (result: Option<String>)
        ensures
            match result {
                Some(s) => first_element(input@, tag_name@) is Some && s@ == strip_elements(
                    input@,
                    tag_name@,
                ),
                None => first_element(input@, tag_name@) is None,
            },
    {
        let tag = chars_of(tag_name);
        let mut opening: Vec<char> = Vec::new();
        opening.push('<');
        let mut closing: Vec<char> = Vec::new();
        closing.push('<');
        closing.push('/');
        let mut k: usize = 0;
        while k < tag.len()
            invariant
                k <= tag.len(),
                opening@ == seq!['<'] + tag@.take(k as int),
                closing@ == seq!['<', '/'] + tag@.take(k as int),
            decreases tag.len() - k,
        {
            opening.push(tag[k]);
            closing.push(tag[k]);
            k += 1;
            assert(tag@.take(k as int) == tag@.take(k - 1).push(tag@[k - 1]));
        }
        closing.push('>');
        assert(tag@.take(tag.len() as int) == tag@);
        assert(opening@ == opening_tag(tag_name@));
        assert(closing@ == closing_tag(tag_name@));
        let mut gt: Vec<char> = Vec::new();
        gt.push('>');
        assert(gt@ == seq!['>']);

        let mut text = chars_of(input);
        let mut removed_any = false;
        loop
            invariant
                opening@ == opening_tag(tag_name@),
                closing@ == closing_tag(tag_name@),
                gt@ == seq!['>'],
                strip_elements(text@, tag_name@) == strip_elements(input@, tag_name@),
                removed_any ==> first_element(input@, tag_name@) is Some,
                !removed_any ==> text@ == input@,
            ensures
                first_element(text@, tag_name@) is None,
                strip_elements(text@, tag_name@) == strip_elements(input@, tag_name@),
                removed_any <==> first_element(input@, tag_name@) is Some,
            decreases text.len(),
        {
            let start = match find_from(&text, &opening, 0) {
                Some(pos) => pos,
                None => { break ; },
            };
            proof {
                lemma_first_occurrence(text@, gt@, start as int);
            }
            let after_open = match find_from(&text, &gt, start) {
                Some(pos) => pos + 1,
                None => { break ; },
            };
            proof {
                lemma_first_occurrence(text@, closing@, after_open as int);
            }
            let end = match find_from(&text, &closing, after_open) {
                Some(pos) => pos + closing.len(),
                None => { break ; },
            };
            proof {
                lemma_first_element_bounds(text@, tag_name@);
            }
            let mut rest: Vec<char> = Vec::new();
            let mut i: usize = 0;
            while i < start
                invariant
                    i <= start <= text.len(),
                    rest@ == text@.subrange(0, i as int),
                decreases start - i,
            {
                rest.push(text[i]);
                i += 1;
            }
            let mut j: usize = end;
            while j < text.len()
                invariant
                    start < end <= j <= text.len(),
                    rest@ == text@.subrange(0, start as int) + text@.subrange(end as int, j as int),
                decreases text.len() - j,
            {
                rest.push(text[j]);
                j += 1;
            }
            assert(rest@ == without_range(text@, start as int, end as int));
            text = rest;
            removed_any = true;
        }
        if removed_any {
            let n = text.len();
            assert(text@.subrange(0, n as int) == text@);
            Some(string_of(&text, 0, n))
        } else {
            None
        }
    }
}

} // verus!
