//! Character sequences: the mathematical operations the contracts are stated
//! over, and executable counterparts on `str` and `String`.

use vstd::prelude::*;
use vstd::std_specs::iter::IteratorSpec;

verus! {

/// The words of `words` written one after another with `separator` between
/// each two neighbours.
pub open spec fn joined(words: Seq<Seq<char>>, separator: Seq<char>) -> Seq<char>
    decreases words.len(),
{
    if words.len() == 0 {
        Seq::empty()
    } else if words.len() == 1 {
        words[0]
    } else {
        joined(words.drop_last(), separator) + separator + words.last()
    }
}

/// The pieces into which the occurrences of `separator` cut `text`. There is
/// always one piece more than there are separators, so the empty text has the
/// single piece "".
pub open spec fn cut_at(text: Seq<char>, separator: char) -> Seq<Seq<char>>
    decreases text.len(),
{
    if text.len() == 0 {
        seq![Seq::empty()]
    } else {
        let before = cut_at(text.drop_last(), separator);
        if text.last() == separator {
            before.push(Seq::empty())
        } else {
            before.drop_last().push(before.last().push(text.last()))
        }
    }
}

/// `cut_at` never yields an empty list of pieces.
pub proof fn lemma_cut_nonempty(text: Seq<char>, separator: char)
    ensures
        cut_at(text, separator).len() >= 1,
    decreases text.len(),
{
    if text.len() > 0 {
        lemma_cut_nonempty(text.drop_last(), separator);
    }
}

/// Joining the pieces of a text with the separator gives the text back, and no
/// piece contains the separator: `cut_at` is the one cut of the text at its
/// separators.
pub proof fn lemma_cut_joined(text: Seq<char>, separator: char)
    ensures
        joined(cut_at(text, separator), seq![separator]) == text,
        forall|i: int|
            0 <= i < cut_at(text, separator).len() ==> !(#[trigger] cut_at(text, separator)[i])
                .contains(separator),
    decreases text.len(),
{
    if text.len() > 0 {
        let pieces = cut_at(text, separator);
        let shorter = text.drop_last();
        let before = cut_at(shorter, separator);
        lemma_cut_nonempty(shorter, separator);
        lemma_cut_joined(shorter, separator);
        if text.last() == separator {
            assert(pieces.drop_last() == before);
        } else {
            assert(pieces.drop_last() == before.drop_last());
            assert(shorter.push(text.last()) == text);
            assert forall|i: int| 0 <= i < pieces.len() implies !(#[trigger] pieces[i]).contains(
                separator,
            ) by {
                if i == pieces.len() - 1 && pieces[i].contains(separator) {
                    let j = choose|j: int| 0 <= j < pieces[i].len() && pieces[i][j] == separator;
                    assert(before[i][j] == separator);
                }
            }
        }
    }
}

/// A word without the separator, written after a text and one separator, is
/// a piece of its own behind the pieces of that text.
pub proof fn lemma_cut_after_separator(text: Seq<char>, separator: char, word: Seq<char>)
    requires
        !word.contains(separator),
    ensures
        cut_at(text + seq![separator] + word, separator) == cut_at(text, separator).push(word),
    decreases word.len(),
{
    let whole = text + seq![separator] + word;
    if word.len() == 0 {
        assert(whole.drop_last() == text);
        assert(word == Seq::<char>::empty());
    } else {
        let shorter = word.drop_last();
        assert(!shorter.contains(separator)) by {
            assert forall|i: int| 0 <= i < shorter.len() implies shorter[i] != separator by {
                assert(shorter[i] == word[i]);
            }
        }
        lemma_cut_after_separator(text, separator, shorter);
        assert(whole.drop_last() == text + seq![separator] + shorter);
        assert(shorter.push(word.last()) == word);
    }
}

/// A text without the separator is its own single piece.
pub proof fn lemma_cut_without_separator(text: Seq<char>, separator: char)
    requires
        !text.contains(separator),
    ensures
        cut_at(text, separator) == seq![text],
    decreases text.len(),
{
    if text.len() == 0 {
        assert(text == Seq::<char>::empty());
    } else {
        let shorter = text.drop_last();
        assert(!shorter.contains(separator)) by {
            assert forall|i: int| 0 <= i < shorter.len() implies shorter[i] != separator by {
                assert(shorter[i] == text[i]);
            }
        }
        lemma_cut_without_separator(shorter, separator);
        assert(shorter.push(text.last()) == text);
    }
}

/// Cutting undoes joining: words of which none contains the separator, joined
/// by it, are the pieces of the joined text.
pub proof fn lemma_cut_of_joined(words: Seq<Seq<char>>, separator: char)
    requires
        words.len() >= 1,
        forall|i: int| 0 <= i < words.len() ==> !(#[trigger] words[i]).contains(separator),
    ensures
        cut_at(joined(words, seq![separator]), separator) == words,
    decreases words.len(),
{
    if words.len() == 1 {
        lemma_cut_without_separator(words[0], separator);
    } else {
        let earlier = words.drop_last();
        assert forall|i: int| 0 <= i < earlier.len() implies !(#[trigger] earlier[i]).contains(
            separator,
        ) by {
            assert(earlier[i] == words[i]);
        }
        lemma_cut_of_joined(earlier, separator);
        lemma_cut_after_separator(joined(earlier, seq![separator]), separator, words.last());
        assert(earlier.push(words.last()) == words);
    }
}

/// Whether two strings hold the same characters.
pub fn same_text(a: &str, b: &str) -> (same: bool)
    ensures
        same == (a@ == b@),
{
    let mut others = b.chars();
    let ghost mut seen: int = 0;
    for c in ours: a.chars()
        invariant
            ours.seq() == a@,
            seen == ours.index(),
            seen <= b@.len(),
            others.obeys_prophetic_iter_laws(),
            others.remaining() == b@.skip(seen),
            a@.take(seen) == b@.take(seen),
    {
        match others.next() {
            None => {
                return false;
            },
            Some(d) => {
                if c != d {
                    return false;
                }
            },
        }
        proof {
            seen = seen + 1;
        }
    }
    let rest = others.next();
    proof {
        assert(a@.take(seen) == a@);
        if rest is None {
            assert(b@.take(seen) == b@);
        }
    }
    rest.is_none()
}

/// Whether `wanted` occurs in `text`.
pub fn has_char(text: &str, wanted: char) -> (found: bool)
    ensures
        found == text@.contains(wanted),
{
    for c in it: text.chars()
        invariant
            it.seq() == text@,
            !text@.take(it.index() as int).contains(wanted),
    {
        if c == wanted {
            return true;
        }
        proof {
            let seen = it.index() as int;
            assert(text@.take(seen + 1) == text@.take(seen).push(c));
        }
    }
    proof {
        assert(text@.take(text@.len() as int) == text@);
    }
    false
}

/// Cuts `text` at every occurrence of `separator`.
pub fn split_on(text: &str, separator: char) -> (pieces: Vec<String>)
    ensures
        pieces.deep_view() == cut_at(text@, separator),
{
    let length: usize = text.unicode_len();
    let mut pieces: Vec<String> = Vec::new();
    let mut start: usize = 0;
    let mut position: usize = 0;
    proof {
        assert(text@.subrange(0, 0) == Seq::<char>::empty());
        assert(pieces.deep_view().push(Seq::<char>::empty()) == seq![Seq::<char>::empty()]);
    }
    for c in it: text.chars()
        invariant
            it.seq() == text@,
            length == text@.len(),
            position == it.index(),
            start <= position <= length,
            pieces.deep_view().push(text@.subrange(start as int, position as int)) == cut_at(
                text@.take(position as int),
                separator,
            ),
    {
        let ghost current = text@.subrange(start as int, position as int);
        let ghost earlier = pieces.deep_view();
        proof {
            assert(text@.take(position + 1).drop_last() == text@.take(position as int));
            assert(earlier.push(current).drop_last() == earlier);
        }
        if c == separator {
            pieces.push(text.substring_char(start, position).to_owned());
            start = position + 1;
            proof {
                assert(pieces.deep_view() == earlier.push(current));
                assert(text@.subrange(start as int, position + 1) == Seq::<char>::empty());
            }
        } else {
            proof {
                assert(text@.subrange(start as int, position + 1) == current.push(c));
            }
        }
        position = position + 1;
    }
    proof {
        assert(text@.take(length as int) == text@);
    }
    let ghost earlier = pieces.deep_view();
    pieces.push(text.substring_char(start, length).to_owned());
    proof {
        assert(pieces.deep_view() == earlier.push(text@.subrange(start as int, length as int)));
    }
    pieces
}

/// Writes the strings of `words` one after another with `separator` between
/// each two neighbours.
pub fn join_words(words: &Vec<String>, separator: &str) -> (line: String)
    ensures
        line@ == joined(words.deep_view(), separator@),
{
    let mut line = String::new();
    let mut done: usize = 0;
    while done < words.len()
        invariant
            done <= words.len(),
            line@ == joined(words.deep_view().take(done as int), separator@),
        decreases words.len() - done,
    {
        proof {
            let next = words.deep_view().take(done + 1);
            assert(next.drop_last() == words.deep_view().take(done as int));
            assert(next.last() == words[done as int]@);
        }
        if done > 0 {
            line.append(separator);
        }
        line.append(words[done].as_str());
        done = done + 1;
    }
    proof {
        assert(words.deep_view().take(words.len() as int) == words.deep_view());
    }
    line
}

} // verus!
