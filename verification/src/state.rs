//! What the transcoder remembers while it reads one word.
//!
//! Telex writes the base letter of every Vietnamese letter where the letter
//! stands, and collects the marks and the tone of the whole word behind the
//! word. [`State`] is what has been collected so far; [`State::emitted`] and
//! [`State::advance`] say what reading one more letter writes and records, and
//! [`State::markers`] what is written when the word ends.
use crate::letter::{ascii_upper, is_marker_key, is_vowel, Letter, Mark, Tone};
use vstd::prelude::*;

verus! {

/// `String::push` of the standard library, taken on trust: the string
/// afterwards is the string before with `ch` as one more character at its end.
pub assume_specification[ String::push ](s: &mut String, ch: char)
    ensures
        final(s)@ == old(s)@.push(ch),
;

/// The marks collected from the letters of a word that have been read.
#[derive(Clone, Copy, Debug, PartialEq, Eq, Structural)]
pub struct State {
    /// A `d` or a `đ` has been read.
    pub d: bool,
    /// An `o` has been read, with or without marks.
    pub o: bool,
    /// An `e` has been read, with or without marks.
    pub e: bool,
    /// An `a` has been read, with or without marks.
    pub a: bool,
    /// A `đ` has been read: the word ends in a second `d`.
    pub double_d: bool,
    /// An `ô` has been read: the word ends in a second `o`.
    pub double_o: bool,
    /// An `ê` has been read: the word ends in a second `e`.
    pub double_e: bool,
    /// An `â` has been read: the word ends in a second `a`.
    pub double_a: bool,
    /// The tone of the last letter read that carried one.
    pub tone: Tone,
    /// A breve or a horn has been read: the word ends in `w`.
    pub w: bool,
    /// The word began with `ư` written as `w`, which stands for the final `w`.
    pub already_w: bool,
    /// A vowel has been read.
    pub vowels: bool,
}

/// The text `keys`, with `c` behind it if `present`.
pub open spec fn push_if(keys: Seq<char>, present: bool, c: char) -> Seq<char> {
    if present {
        keys.push(c)
    } else {
        keys
    }
}

impl State {
    /// The state at the start of a word: nothing read, nothing collected.
    pub open spec fn start() -> State {
        State {
            d: false,
            o: false,
            e: false,
            a: false,
            double_d: false,
            double_o: false,
            double_e: false,
            double_a: false,
            tone: Tone::Level,
            w: false,
            already_w: false,
            vowels: false,
        }
    }

    /// Whether a bare base letter has been read before in a form that makes
    /// a second one ambiguous. For `a`, `e`, `o` and `d` that is the letter
    /// itself, with or without marks; for a letter that Telex uses as a key,
    /// any vowel.
    pub open spec fn seen(self, base: char) -> bool {
        if base == 'a' {
            self.a
        } else if base == 'e' {
            self.e
        } else if base == 'o' {
            self.o
        } else if base == 'd' {
            self.d
        } else {
            is_marker_key(base) && self.vowels
        }
    }

    /// An `ư` without a tone that is read before any vowel is written as `w`.
    pub open spec fn opens_with_w(self, letter: Letter) -> bool {
        letter.is_bare_horn_u() && !self.vowels
    }

    /// The first character written for a letter: its base letter, or `w`
    /// for an `ư` that opens the word, in the case of the letter read.
    pub open spec fn head(self, letter: Letter) -> char {
        let key = if self.opens_with_w(letter) {
            'w'
        } else {
            letter.base
        };
        if letter.upper {
            ascii_upper(key)
        } else {
            key
        }
    }

    /// Whether the base letter is written a second time, as a small letter:
    /// a letter without mark and tone whose like has been seen.
    pub open spec fn doubles(self, letter: Letter) -> bool {
        letter.is_bare() && self.seen(letter.base)
    }

    /// What reading a letter writes at once.
    pub open spec fn emitted(self, letter: Letter) -> Seq<char> {
        push_if(seq![self.head(letter)], self.doubles(letter), letter.base)
    }

    /// The state after reading a letter.
    pub open spec fn advance(self, letter: Letter) -> State {
        State {
            d: self.d || letter.base == 'd',
            o: self.o || letter.base == 'o',
            e: self.e || letter.base == 'e',
            a: self.a || letter.base == 'a',
            double_d: self.double_d || letter.mark == Mark::Stroke,
            double_o: self.double_o || (letter.base == 'o' && letter.mark == Mark::Circumflex),
            double_e: self.double_e || (letter.base == 'e' && letter.mark == Mark::Circumflex),
            double_a: self.double_a || (letter.base == 'a' && letter.mark == Mark::Circumflex),
            tone: if letter.tone == Tone::Level {
                self.tone
            } else {
                letter.tone
            },
            w: self.w || letter.mark == Mark::Breve || letter.mark == Mark::Horn,
            already_w: self.already_w || self.opens_with_w(letter),
            vowels: self.vowels || is_vowel(letter.base),
        }
    }

    /// What is written behind the word: one key for each mark collected, in
    /// the order `d`, `o`, `e`, `a`, tone, `w`.
    pub open spec fn markers(self) -> Seq<char> {
        let keys = Seq::empty();
        let keys = push_if(keys, self.double_d, 'd');
        let keys = push_if(keys, self.double_o, 'o');
        let keys = push_if(keys, self.double_e, 'e');
        let keys = push_if(keys, self.double_a, 'a');
        let keys = match self.tone.key() {
            Some(key) => keys.push(key),
            None => keys,
        };
        push_if(keys, self.w && !self.already_w, 'w')
    }

    /// A fresh state for a new word.
    pub fn new() -> (state: State)
        ensures
            state == State::start(),
    {
        State {
            d: false,
            o: false,
            e: false,
            a: false,
            double_d: false,
            double_o: false,
            double_e: false,
            double_a: false,
            tone: Tone::Level,
            w: false,
            already_w: false,
            vowels: false,
        }
    }

    /// The keys that end the word, as a string.
    pub fn to_string(&self) -> (keys: String)
        ensures
            keys@ == self.markers(),
    {
        let mut keys = String::new();
        if self.double_d {
            keys.push('d');
        }
        if self.double_o {
            keys.push('o');
        }
        if self.double_e {
            keys.push('e');
        }
        if self.double_a {
            keys.push('a');
        }
        match self.tone {
            Tone::Level => {},
            Tone::Grave => keys.push('f'),
            Tone::Acute => keys.push('s'),
            Tone::Hook => keys.push('r'),
            Tone::Tilde => keys.push('x'),
            Tone::Dot => keys.push('j'),
        }
        if self.w && !self.already_w {
            keys.push('w');
        }
        keys
    }
}

impl Default for State {
    fn default() -> (state: State)
        ensures
            state == State::start(),
    {
        State::new()
    }
}

} // verus!
