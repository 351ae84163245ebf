//! The transcoder: Vietnamese text in, Telex out.
//!
//! A text is cut into words, the longest runs of Vietnamese letters, and the
//! characters between them. A word is spelled with the base letter of each of
//! its letters, followed by the keys of the marks and of the tone that the
//! letters carried; every other character is copied.
use crate::letter::{
    ascii_upper, classify, codes, is_viet_letter, lemma_alphabet, viet_letters, Letter, Mark, Tone,
    CAPITAL_LETTERS, SMALL_LETTERS,
};
use crate::state::State;
use std::collections::HashSet;
use std::str::Chars;
use vstd::prelude::*;
use vstd::std_specs::iter::IteratorSpec;
use vstd::string::StringExecFns;

verus! {

/// The letter that a character of a word stands for.
pub open spec fn letter(c: char) -> Letter {
    classify(c).unwrap()
}

/// The state of the transcoder after it has read the letters of `word`.
pub open spec fn state_after(word: Seq<char>) -> State
    decreases word.len(),
{
    if word.len() == 0 {
        State::start()
    } else {
        state_after(word.drop_last()).advance(letter(word.last()))
    }
}

/// What the transcoder has written once it has read the letters of `word`:
/// for each letter what it writes at once, in the state that the letters
/// before it have left.
pub open spec fn spelled(word: Seq<char>) -> Seq<char>
    decreases word.len(),
{
    if word.len() == 0 {
        Seq::empty()
    } else {
        spelled(word.drop_last()) + state_after(word.drop_last()).emitted(letter(word.last()))
    }
}

/// The Telex spelling of a word: its letters spelled out, then the keys of
/// the marks collected from them.
pub open spec fn word_telex(word: Seq<char>) -> Seq<char> {
    spelled(word) + state_after(word).markers()
}

/// The length of the word that `text` begins with: the number of letters
/// before its first character that is no letter.
pub open spec fn word_len(text: Seq<char>) -> nat
    decreases text.len(),
{
    if text.len() > 0 && is_viet_letter(text[0]) {
        1 + word_len(text.drop_first())
    } else {
        0
    }
}

/// How far the transcoder reads into `text` to finish the word that `text`
/// begins with: over the word and the one character that ends it, if any.
pub open spec fn word_end(text: Seq<char>) -> int {
    if word_len(text) < text.len() {
        word_len(text) as int + 1
    } else {
        text.len() as int
    }
}

/// The Telex spelling of a text: each word in its own spelling, each other
/// character as it is.
pub open spec fn telex(text: Seq<char>) -> Seq<char>
    decreases text.len(),
    via telex_decreases
{
    if text.len() == 0 {
        Seq::empty()
    } else if is_viet_letter(text[0]) {
        let n = word_len(text) as int;
        word_telex(text.take(n)) + telex(text.skip(n))
    } else {
        seq![text[0]] + telex(text.drop_first())
    }
}

/// After its first word a text is shorter: the word has at least one letter
/// and does not reach past the text.
#[via_fn]
proof fn telex_decreases(text: Seq<char>) {
    lemma_word_len(text);
}

/// A word is no longer than the text it begins, consists of letters, and
/// ends at the first character that is no letter.
pub proof fn lemma_word_len(text: Seq<char>)
    ensures
        word_len(text) <= text.len(),
        text.len() > 0 && is_viet_letter(text[0]) ==> word_len(text) >= 1,
        forall|i: int| 0 <= i < word_len(text) ==> is_viet_letter(#[trigger] text[i]),
        word_len(text) < text.len() ==> !is_viet_letter(text[word_len(text) as int]),
    decreases text.len(),
{
    if text.len() > 0 && is_viet_letter(text[0]) {
        let tail = text.drop_first();
        lemma_word_len(tail);
        assert forall|i: int| 0 <= i < word_len(text) implies is_viet_letter(#[trigger] text[i]) by {
            if i > 0 {
                assert(text[i] == tail[i - 1]);
            }
        }
        if word_len(text) < text.len() {
            assert(text[word_len(text) as int] == tail[word_len(tail) as int]);
        }
    }
}

/// The word that a text begins with is known by its length: letters up to
/// there, and no letter there.
pub proof fn lemma_word_len_is(text: Seq<char>, n: int)
    requires
        0 <= n <= text.len(),
        forall|i: int| 0 <= i < n ==> is_viet_letter(#[trigger] text[i]),
        n < text.len() ==> !is_viet_letter(text[n]),
    ensures
        word_len(text) == n,
    decreases n,
{
    if n > 0 {
        let tail = text.drop_first();
        assert forall|i: int| 0 <= i < n - 1 implies is_viet_letter(#[trigger] tail[i]) by {
            assert(tail[i] == text[i + 1]);
        }
        lemma_word_len_is(tail, n - 1);
    }
}

/// Reading one more letter: the state advances by it, and what it writes
/// at once is added to what has been written.
pub proof fn lemma_read_letter(word: Seq<char>, c: char)
    ensures
        state_after(word.push(c)) == state_after(word).advance(letter(c)),
        spelled(word.push(c)) == spelled(word) + state_after(word).emitted(letter(c)),
{
    assert(word.push(c).drop_last() =~= word);
}

/// What the transcoder writes from the first letter of a word up to and
/// with the character that ends the word: the spelling of the word that
/// begins with `first` and goes on in `rest`, and that character, if any.
pub open spec fn word_written(first: char, rest: Seq<char>) -> Seq<char> {
    let n = word_len(rest) as int;
    word_telex(seq![first] + rest.take(n)) + rest.subrange(n, word_end(rest))
}

/// The spelling of a text that begins with a letter: what is written for
/// its first word and the character that ends it, then the spelling of what
/// follows.
pub proof fn lemma_telex_word(text: Seq<char>)
    requires
        text.len() > 0,
        is_viet_letter(text[0]),
    ensures
        telex(text) == word_written(text[0], text.drop_first()) + telex(
            text.drop_first().skip(word_end(text.drop_first())),
        ),
{
    let rest = text.drop_first();
    let n = word_len(rest) as int;
    lemma_word_len(rest);
    assert(text.take(n + 1) =~= seq![text[0]] + rest.take(n));
    assert(text.skip(n + 1) =~= rest.skip(n));
    let tail = rest.skip(n);
    if n < rest.len() {
        assert(tail[0] == rest[n]);
        assert(tail.drop_first() =~= rest.skip(n + 1));
        assert(rest.subrange(n, n + 1) =~= seq![rest[n]]);
        assert(telex(tail) == seq![rest[n]] + telex(rest.skip(n + 1)));
    } else {
        assert(rest.subrange(n, n) =~= Seq::<char>::empty());
        assert(telex(tail) =~= Seq::<char>::empty());
    }
    assert(telex(text) == word_telex(text.take(n + 1)) + telex(tail));
    assert(telex(text) =~= word_written(text[0], rest) + telex(rest.skip(word_end(rest))));
}

/// Whether the first `read` characters of `rest` are letters, so that they
/// go on the word that began before `rest`.
spec fn in_word(rest: Seq<char>, read: int) -> bool {
    &&& 0 <= read <= rest.len()
    &&& forall|i: int| 0 <= i < read ==> is_viet_letter(#[trigger] rest[i])
}

/// One more letter goes on the word.
proof fn lemma_word_goes_on(first: char, rest: Seq<char>, read: int)
    requires
        in_word(rest, read),
        read < rest.len(),
        is_viet_letter(rest[read]),
    ensures
        in_word(rest, read + 1),
        (seq![first] + rest.take(read)).push(rest[read]) == seq![first] + rest.take(read + 1),
{
    assert((seq![first] + rest.take(read)).push(rest[read]) =~= seq![first] + rest.take(read + 1));
}

/// The word ends where the letters end: at a character that is no letter,
/// or with the text.
proof fn lemma_word_ends(first: char, rest: Seq<char>, read: int)
    requires
        in_word(rest, read),
        read < rest.len() ==> !is_viet_letter(rest[read]),
    ensures
        word_len(rest) == read,
        read < rest.len() ==> word_end(rest) == read + 1 && word_written(first, rest)
            == word_telex(seq![first] + rest.take(read)).push(rest[read]),
        read == rest.len() ==> word_end(rest) == read && word_written(first, rest) == word_telex(
            seq![first] + rest.take(read),
        ),
{
    lemma_word_len_is(rest, read);
    let word = word_telex(seq![first] + rest.take(read));
    if read < rest.len() {
        assert(rest.subrange(read, read + 1) =~= seq![rest[read]]);
        assert(word + seq![rest[read]] =~= word.push(rest[read]));
    } else {
        assert(rest.subrange(read, read) =~= Seq::<char>::empty());
        assert(word + Seq::<char>::empty() =~= word);
    }
}

/// Appends `c` to `s`, as a capital if `up` is set and `c` is an ASCII small
/// letter.
pub fn push_may_up(s: &mut String, c: char, up: bool)
    ensures
        final(s)@ == old(s)@.push(
            if up {
                ascii_upper(c)
            } else {
                c
            },
        ),
{
    if up && 'a' <= c && c <= 'z' {
        let small: u8 = c as u8;
        s.push((small - 32) as char);
    } else {
        s.push(c);
    }
}

/// Reads one letter of a word: writes what the letter spells at once, and
/// records its marks and its tone in the state.
fn convert_letter(s: &mut String, state: &mut State, letter: Letter)
    ensures
        final(s)@ == old(s)@ + old(state).emitted(letter),
        *final(state) == old(state).advance(letter),
{
    let base = letter.base;
    let bare = letter.mark == Mark::Plain && letter.tone == Tone::Level;
    let key = base == 'f' || base == 's' || base == 'r' || base == 'x' || base == 'j' || base
        == 'w';
    let vowel = base == 'a' || base == 'e' || base == 'i' || base == 'o' || base == 'u' || base
        == 'y';
    let seen = if base == 'a' {
        state.a
    } else if base == 'e' {
        state.e
    } else if base == 'o' {
        state.o
    } else if base == 'd' {
        state.d
    } else {
        key && state.vowels
    };
    let opens_with_w = base == 'u' && letter.mark == Mark::Horn && letter.tone == Tone::Level
        && !state.vowels;

    push_may_up(
        s,
        if opens_with_w {
            'w'
        } else {
            base
        },
        letter.upper,
    );
    if bare && seen {
        s.push(base);
    }
    assert(s@ =~= old(s)@ + old(state).emitted(letter));

    *state = State {
        d: state.d || base == 'd',
        o: state.o || base == 'o',
        e: state.e || base == 'e',
        a: state.a || base == 'a',
        double_d: state.double_d || letter.mark == Mark::Stroke,
        double_o: state.double_o || (base == 'o' && letter.mark == Mark::Circumflex),
        double_e: state.double_e || (base == 'e' && letter.mark == Mark::Circumflex),
        double_a: state.double_a || (base == 'a' && letter.mark == Mark::Circumflex),
        tone: if letter.tone == Tone::Level {
            state.tone
        } else {
            letter.tone
        },
        w: state.w || letter.mark == Mark::Breve || letter.mark == Mark::Horn,
        already_w: state.already_w || opens_with_w,
        vowels: state.vowels || vowel,
    };
}

/// Adds the code point of every character of `text` to `set`.
fn insert_chars(set: &mut HashSet<u32>, text: &str)
    ensures
        final(set)@ == old(set)@.union(codes(text@)),
{
    let mut content = text.chars();
    let ghost done: Seq<char> = Seq::empty();
    loop
        invariant
            content.decrease() is Some,
            done + content.remaining() == text@,
            set@ == old(set)@.union(codes(done)),
        ensures
            set@ == old(set)@.union(codes(text@)),
        decreases content.decrease()->0,
    {
        match content.next() {
            None => {
                assert(done == text@);
                break ;
            },
            Some(c) => {
                let code: u32 = c as u32;
                set.insert(code);
                proof {
                    let before = done;
                    done = done.push(c);
                    assert(done[done.len() - 1] == c);
                    assert forall|x: u32| codes(done).contains(x) <==> (codes(before).contains(x)
                        || x == code) by {
                        if codes(before).contains(x) {
                            let i = choose|i: int|
                                0 <= i < before.len() && #[trigger] before[i] as u32 == x;
                            assert(done[i] as u32 == x);
                        }
                        if codes(done).contains(x) {
                            let i = choose|i: int|
                                0 <= i < done.len() && #[trigger] done[i] as u32 == x;
                            if i < before.len() {
                                assert(before[i] as u32 == x);
                            }
                        }
                    }
                    assert(set@ =~= old(set)@.union(codes(done)));
                }
            },
        }
    }
}

/// The transcoder. It holds the alphabet as a set of code points, built once.
pub struct VietTelex {
    viet_letters: HashSet<u32>,
}

impl View for VietTelex {
    type V = Set<char>;

    /// The characters that the transcoder takes for letters.
    closed spec fn view(&self) -> Set<char> {
        Set::new(|c: char| self.viet_letters@.contains(c as u32))
    }
}

impl VietTelex {
    #[verifier::type_invariant]
    spec fn holds_the_alphabet(&self) -> bool {
        forall|c: char| #[trigger] is_viet_letter(c) <==> self.viet_letters@.contains(c as u32)
    }

    /// A transcoder whose letters are those of the Vietnamese alphabet.
    pub fn new() -> (decoder: VietTelex)
        ensures
            decoder@ == viet_letters(),
    {
        let mut letters: HashSet<u32> = HashSet::new();
        insert_chars(&mut letters, SMALL_LETTERS);
        insert_chars(&mut letters, CAPITAL_LETTERS);
        proof {
            assert forall|c: char| #[trigger] is_viet_letter(c) <==> letters@.contains(c as u32) by {
                lemma_alphabet(c);
            }
        }
        let decoder = VietTelex { viet_letters: letters };
        assert(decoder@ =~= viet_letters());
        decoder
    }

    /// Whether `c` is a letter of the alphabet.
    pub fn is_viet_letter(&self, c: char) -> (known: bool)
        ensures
            known == is_viet_letter(c),
    {
        proof {
            use_type_invariant(self);
        }
        let code: u32 = c as u32;
        self.viet_letters.contains(&code)
    }

    /// Spells a whole text in Telex.
    pub fn decode_viet(&self, source: &str) -> (res: String)
        ensures
            res@ == telex(source@),
    {
        let mut res = String::new();
        let mut content = source.chars();
        loop
            invariant
                content.decrease() is Some,
                res@ + telex(content.remaining()) == telex(source@),
            ensures
                res@ == telex(source@),
            decreases content.decrease()->0,
        {
            let ghost text = content.remaining();
            let ghost before = res@;
            match content.next() {
                None => {
                    assert(res@ + Seq::<char>::empty() =~= res@);
                    break ;
                },
                Some(c) => {
                    let ghost rest = content.remaining();
                    if !self.is_viet_letter(c) {
                        res.push(c);
                        assert(res@ + telex(rest) =~= before + telex(text));
                    } else {
                        let more = self.convert_word(&mut res, c, &mut content);
                        proof {
                            lemma_telex_word(text);
                            lemma_word_len(rest);
                            assert(res@ + telex(content.remaining()) =~= before + telex(text));
                        }
                        if !more {
                            assert(content.remaining() =~= Seq::<char>::empty());
                            assert(res@ + Seq::<char>::empty() =~= res@);
                            break ;
                        }
                    }
                },
            }
        }
        res
    }

    /// Spells one word: the word that begins with the letter `first` and goes
    /// on with the letters that `content` yields. Reads `content` up to the
    /// end of the word and over the character that ends it, and appends to
    /// `s` the spelling of the word and that character. Returns whether
    /// there was such a character; if not, the text has ended with the word.
    fn convert_word(&self, s: &mut String, first: char, content: &mut Chars<'_>) -> (more: bool)
        requires
            is_viet_letter(first),
            (*old(content)).decrease() is Some,
        ensures
            final(s)@ == old(s)@ + word_written(first, (*old(content)).remaining()),
            (*final(content)).remaining() == (*old(content)).remaining().skip(
                word_end((*old(content)).remaining()),
            ),
            more == (word_len((*old(content)).remaining()) < (*old(content)).remaining().len()),
            (*final(content)).decrease() is Some,
            more ==> (*final(content)).decrease()->0 <= (*old(content)).decrease()->0,
    {
        let mut state = State::new();
        let ghost rest = (*content).remaining();
        let ghost read: int = 0;
        let ghost word = seq![first];
        convert_letter(s, &mut state, Letter::of(first).unwrap());
        proof {
            lemma_read_letter(Seq::empty(), first);
            assert(word =~= Seq::<char>::empty().push(first));
            assert(word =~= seq![first] + rest.take(0));
            assert(rest.skip(0) =~= rest);
            assert(s@ =~= old(s)@ + spelled(word));
        }
        let mut more = true;
        loop
            invariant_except_break
                more,
                (*content).decrease()->0 <= (*old(content)).decrease()->0,
                in_word(rest, read),
                (*content).remaining() == rest.skip(read),
                word == seq![first] + rest.take(read),
                state == state_after(word),
                s@ == old(s)@ + spelled(word),
            invariant
                (*content).decrease() is Some,
                rest == (*old(content)).remaining(),
            ensures
                s@ == old(s)@ + word_written(first, rest),
                (*content).remaining() == rest.skip(word_end(rest)),
                more == (word_len(rest) < rest.len()),
                more ==> (*content).decrease()->0 <= (*old(content)).decrease()->0,
            decreases (*content).decrease()->0,
        {
            match content.next() {
                None => {
                    s.append(state.to_string().as_str());
                    more = false;
                    proof {
                        lemma_word_ends(first, rest, read);
                        assert(s@ =~= old(s)@ + word_telex(word));
                    }
                    break ;
                },
                Some(c) => {
                    assert((*content).remaining() =~= rest.skip(read + 1));
                    if !self.is_viet_letter(c) {
                        s.append(state.to_string().as_str());
                        s.push(c);
                        proof {
                            lemma_word_ends(first, rest, read);
                            assert(s@ =~= old(s)@ + word_telex(word).push(c));
                        }
                        break ;
                    }
                    convert_letter(s, &mut state, Letter::of(c).unwrap());
                    proof {
                        lemma_read_letter(word, c);
                        lemma_word_goes_on(first, rest, read);
                        assert(s@ =~= old(s)@ + spelled(word.push(c)));
                        word = word.push(c);
                        read = read + 1;
                    }
                },
            }
        }
        more
    }
}

/// Spells a Vietnamese text in Telex.
pub fn viet_telex(source: &str) -> (res: String)
    ensures
        res@ == telex(source@),
{
    let decoder = VietTelex::new();
    decoder.decode_viet(source)
}

} // verus!
