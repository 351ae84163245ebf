//! What holds of every text, every word and every state of the transcoder.
use crate::letter::{classify, is_viet_letter, lemma_classify_wf, Letter, Tone};
use crate::state::State;
use crate::to_telex::{
    lemma_read_letter, lemma_word_len, lemma_word_len_is, letter, spelled, state_after, telex,
    word_len, word_telex,
};
use vstd::prelude::*;

verus! {

/// An ASCII small letter.
pub open spec fn is_small(c: char) -> bool {
    'a' <= c <= 'z'
}

/// An ASCII capital letter.
pub open spec fn is_capital(c: char) -> bool {
    'A' <= c <= 'Z'
}

/// One of the five keys that Telex writes for a tone.
pub open spec fn is_tone_key(c: char) -> bool {
    c == 'f' || c == 's' || c == 'r' || c == 'x' || c == 'j'
}

/// The place of a key in the order in which the keys end a word: `d`, `o`,
/// `e`, `a`, the key of a tone, `w`.
pub open spec fn marker_rank(c: char) -> int {
    if c == 'd' {
        0
    } else if c == 'o' {
        1
    } else if c == 'e' {
        2
    } else if c == 'a' {
        3
    } else if is_tone_key(c) {
        4
    } else {
        5
    }
}

/// Whether every character of a text is a letter.
pub open spec fn is_word(text: Seq<char>) -> bool {
    forall|i: int| 0 <= i < text.len() ==> is_viet_letter(#[trigger] text[i])
}

/// Whether no character of a text is a letter.
pub open spec fn has_no_letter(text: Seq<char>) -> bool {
    forall|i: int| 0 <= i < text.len() ==> !is_viet_letter(#[trigger] text[i])
}

/// The test for a character that is no letter.
pub open spec fn is_other() -> spec_fn(char) -> bool {
    |c: char| !is_viet_letter(c)
}

/// The characters of a text that are no letters, in their order.
pub open spec fn others(text: Seq<char>) -> Seq<char> {
    text.filter(is_other())
}

/// Every ASCII letter is a letter of the alphabet.
pub proof fn lemma_ascii_letters(c: char)
    requires
        is_small(c) || is_capital(c),
    ensures
        is_viet_letter(c),
{
    reveal(classify);
}

/// A text without letters is spelled as it is.
pub proof fn lemma_no_letters_unchanged(text: Seq<char>)
    requires
        has_no_letter(text),
    ensures
        telex(text) == text,
    decreases text.len(),
{
    if text.len() > 0 {
        let tail = text.drop_first();
        assert forall|i: int| 0 <= i < tail.len() implies !is_viet_letter(#[trigger] tail[i]) by {
            assert(tail[i] == text[i + 1]);
        }
        lemma_no_letters_unchanged(tail);
        assert(seq![text[0]] + tail =~= text);
    } else {
        assert(text =~= Seq::<char>::empty());
    }
}

/// A word is spelled in ASCII letters: at least one for each of its
/// letters.
pub proof fn lemma_spelled_in_letters(word: Seq<char>)
    requires
        is_word(word),
    ensures
        is_word(spelled(word)),
        spelled(word).len() >= word.len(),
    decreases word.len(),
{
    if word.len() > 0 {
        let front = word.drop_last();
        let last = letter(word.last());
        assert(is_viet_letter(word[word.len() - 1]));
        assert forall|i: int| 0 <= i < front.len() implies is_viet_letter(#[trigger] front[i]) by {
            assert(front[i] == word[i]);
        }
        lemma_spelled_in_letters(front);
        lemma_classify_wf(word.last());
        lemma_case_kept(state_after(front), last);
        let written = state_after(front).emitted(last);
        assert forall|i: int| 0 <= i < spelled(word).len() implies is_viet_letter(
            #[trigger] spelled(word)[i],
        ) by {
            if i >= spelled(front).len() {
                let k = i - spelled(front).len();
                assert(spelled(word)[i] == written[k]);
                lemma_ascii_letters(written[k]);
            } else {
                assert(spelled(word)[i] == spelled(front)[i]);
            }
        }
    }
}

/// The Telex spelling of a word consists of ASCII letters.
pub proof fn lemma_word_telex_in_letters(word: Seq<char>)
    requires
        is_word(word),
    ensures
        is_word(word_telex(word)),
        word_telex(word).len() >= word.len(),
{
    lemma_spelled_in_letters(word);
    let keys = state_after(word).markers();
    lemma_markers_in_order(state_after(word));
    assert forall|i: int| 0 <= i < word_telex(word).len() implies is_viet_letter(
        #[trigger] word_telex(word)[i],
    ) by {
        if i >= spelled(word).len() {
            let k = i - spelled(word).len();
            assert(word_telex(word)[i] == keys[k]);
            lemma_ascii_letters(keys[k]);
        } else {
            assert(word_telex(word)[i] == spelled(word)[i]);
        }
    }
}

/// A text of letters alone holds no other character.
proof fn lemma_others_of_word(text: Seq<char>)
    requires
        is_word(text),
    ensures
        others(text) == Seq::<char>::empty(),
    decreases text.len(),
{
    reveal(Seq::filter);
    if text.len() > 0 {
        let front = text.drop_last();
        assert forall|i: int| 0 <= i < front.len() implies is_viet_letter(#[trigger] front[i]) by {
            assert(front[i] == text[i]);
        }
        lemma_others_of_word(front);
        assert(is_viet_letter(text[text.len() - 1]));
    }
}

/// A character that is no letter is kept.
proof fn lemma_others_of_other(c: char)
    requires
        !is_viet_letter(c),
    ensures
        others(seq![c]) == seq![c],
{
    reveal(Seq::filter);
    let one = seq![c];
    assert(one.drop_last() =~= Seq::<char>::empty());
    assert(one.drop_last().filter(is_other()) =~= Seq::<char>::empty());
    assert(one.last() == c);
    assert(others(one) =~= one);
}

/// A text that begins with a letter falls into its first word and the
/// rest, and is spelled as the word and then the rest.
proof fn lemma_first_word(text: Seq<char>)
    requires
        text.len() > 0,
        is_viet_letter(text[0]),
    ensures
        1 <= word_len(text) <= text.len(),
        is_word(text.take(word_len(text) as int)),
        text.take(word_len(text) as int) + text.skip(word_len(text) as int) == text,
        telex(text) == word_telex(text.take(word_len(text) as int)) + telex(
            text.skip(word_len(text) as int),
        ),
{
    let n = word_len(text) as int;
    lemma_word_len(text);
    assert forall|i: int| 0 <= i < text.take(n).len() implies is_viet_letter(
        #[trigger] text.take(n)[i],
    ) by {
        assert(text.take(n)[i] == text[i]);
    }
    assert(text.take(n) + text.skip(n) =~= text);
}

/// What is kept of two texts in a row is what is kept of each.
proof fn lemma_others_of_both(a: Seq<char>, b: Seq<char>)
    ensures
        others(a + b) == others(a) + others(b),
{
    Seq::filter_distributes_over_add(a, b, is_other());
}

/// The characters that are no letters pass through: the Telex spelling of
/// a text holds the same ones in the same order. Only words change, and
/// none gets shorter.
pub proof fn lemma_other_characters_kept(text: Seq<char>)
    ensures
        others(telex(text)) == others(text),
        telex(text).len() >= text.len(),
    decreases text.len(),
{
    if text.len() == 0 {
        assert(text =~= Seq::<char>::empty());
    } else if is_viet_letter(text[0]) {
        lemma_first_word(text);
        let n = word_len(text) as int;
        let word = text.take(n);
        let tail = text.skip(n);
        lemma_other_characters_kept(tail);
        lemma_word_telex_in_letters(word);
        lemma_others_of_word(word);
        lemma_others_of_word(word_telex(word));
        lemma_others_of_both(word_telex(word), telex(tail));
        lemma_others_of_both(word, tail);
    } else {
        let first = seq![text[0]];
        let tail = text.drop_first();
        lemma_other_characters_kept(tail);
        lemma_others_of_other(text[0]);
        assert(first + tail =~= text);
        lemma_others_of_both(first, telex(tail));
        lemma_others_of_both(first, tail);
    }
}

/// A character that is no letter parts the text: what stands before it
/// and what stands behind it are spelled each by itself.
pub proof fn lemma_telex_splits(before: Seq<char>, c: char, after: Seq<char>)
    requires
        !is_viet_letter(c),
    ensures
        telex(before + seq![c] + after) == telex(before) + seq![c] + telex(after),
    decreases before.len(),
{
    let text = before + seq![c] + after;
    if before.len() == 0 {
        assert(text.drop_first() =~= after);
        assert(telex(before) =~= Seq::<char>::empty());
        assert(telex(text) =~= telex(before) + seq![c] + telex(after));
    } else if is_viet_letter(before[0]) {
        let n = word_len(before) as int;
        lemma_word_len(before);
        assert forall|i: int| 0 <= i < n implies is_viet_letter(#[trigger] text[i]) by {
            assert(text[i] == before[i]);
        }
        assert(!is_viet_letter(text[n])) by {
            if n < before.len() {
                assert(text[n] == before[n]);
            } else {
                assert(text[n] == c);
            }
        }
        lemma_word_len_is(text, n);
        assert(text.take(n) =~= before.take(n));
        assert(text.skip(n) =~= before.skip(n) + seq![c] + after);
        lemma_telex_splits(before.skip(n), c, after);
        assert(telex(text) =~= telex(before) + seq![c] + telex(after));
    } else {
        assert(text.drop_first() =~= before.drop_first() + seq![c] + after);
        lemma_telex_splits(before.drop_first(), c, after);
        assert(telex(text) =~= telex(before) + seq![c] + telex(after));
    }
}

/// The keys that end a word stand in one fixed order, whatever the order
/// in which the letters of the word brought them: each key ranks above the
/// keys before it. So no key stands twice, and every key is one of `d`,
/// `o`, `e`, `a`, `f`, `s`, `r`, `x`, `j`, `w`.
pub proof fn lemma_markers_in_order(state: State)
    ensures
        forall|i: int, j: int|
            0 <= i < j < state.markers().len() ==> marker_rank(#[trigger] state.markers()[i])
                < marker_rank(#[trigger] state.markers()[j]),
        forall|i: int|
            0 <= i < state.markers().len() ==> is_small(#[trigger] state.markers()[i]) && (
            marker_rank(state.markers()[i]) == 5 ==> state.markers()[i] == 'w'),
{
}

/// A word carries at most one tone: among the keys that end it, at most
/// one is the key of a tone.
pub proof fn lemma_one_tone_key(state: State)
    ensures
        forall|i: int, j: int|
            0 <= i < j < state.markers().len() ==> !(is_tone_key(#[trigger] state.markers()[i])
                && is_tone_key(#[trigger] state.markers()[j])),
{
    lemma_markers_in_order(state);
}

/// The tone that a word ends with is that of its last letter with a tone.
pub proof fn lemma_last_tone_wins(word: Seq<char>, c: char)
    ensures
        letter(c).tone != Tone::Level ==> state_after(word.push(c)).tone == letter(c).tone,
        letter(c).tone == Tone::Level ==> state_after(word.push(c)).tone == state_after(word).tone,
{
    lemma_read_letter(word, c);
}

/// The case of a letter is that of the first character written for it, and
/// of no other: what follows is small, and so are the keys that end the word.
pub proof fn lemma_case_kept(state: State, letter: Letter)
    requires
        letter.wf(),
    ensures
        letter.upper ==> is_capital(state.emitted(letter)[0]),
        !letter.upper ==> is_small(state.emitted(letter)[0]),
        state.emitted(letter)[0] == state.head(letter),
        1 <= state.emitted(letter).len() <= 2,
        forall|i: int| 1 <= i < state.emitted(letter).len() ==> is_small(state.emitted(letter)[i]),
        forall|i: int| 0 <= i < state.markers().len() ==> is_small(#[trigger] state.markers()[i]),
{
    lemma_markers_in_order(state);
}

} // verus!
