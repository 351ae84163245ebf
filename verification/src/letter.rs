//! The Vietnamese alphabet: which characters count as letters, and what each
//! letter is made of.
//!
//! A precomposed letter such as `ệ` is a base letter (`e`), at most one mark
//! that changes the letter itself (here the circumflex) and at most one tone
//! (here the dot below). Telex spells each of the three with ASCII letters.
use vstd::prelude::*;

verus! {

/// The tone that a vowel carries.
#[derive(Clone, Copy, Debug, PartialEq, Eq, Structural)]
pub enum Tone {
    /// No tone mark.
    Level,
    /// Grave accent, as in `à`.
    Grave,
    /// Acute accent, as in `á`.
    Acute,
    /// Hook above, as in `ả`.
    Hook,
    /// Tilde, as in `ã`.
    Tilde,
    /// Dot below, as in `ạ`.
    Dot,
}

/// The mark that turns a base letter into another letter of the alphabet.
#[derive(Clone, Copy, Debug, PartialEq, Eq, Structural)]
pub enum Mark {
    /// The bare base letter.
    Plain,
    /// Circumflex: `â`, `ê`, `ô`.
    Circumflex,
    /// Breve: `ă`.
    Breve,
    /// Horn: `ơ`, `ư`.
    Horn,
    /// Stroke: `đ`.
    Stroke,
}

/// What a Vietnamese letter is made of.
#[derive(Clone, Copy, Debug, PartialEq, Eq, Structural)]
pub struct Letter {
    /// The ASCII small letter under the marks.
    pub base: char,
    /// The mark on the base letter.
    pub mark: Mark,
    /// The tone on the letter.
    pub tone: Tone,
    /// Whether the letter was written as a capital.
    pub upper: bool,
}

/// The six base letters that are vowels.
pub open spec fn is_vowel(base: char) -> bool {
    base == 'a' || base == 'e' || base == 'i' || base == 'o' || base == 'u' || base == 'y'
}

/// The ASCII letters that Telex also uses as keys for tones and marks.
pub open spec fn is_marker_key(base: char) -> bool {
    base == 'f' || base == 's' || base == 'r' || base == 'x' || base == 'j' || base == 'w'
}

/// The capital of an ASCII small letter; any other character is left as it is.
pub open spec fn ascii_upper(c: char) -> char {
    if 'a' <= c <= 'z' {
        ((c as u8) - 32) as u8 as char
    } else {
        c
    }
}

impl Tone {
    /// The Telex key of the tone; the level tone has none.
    pub open spec fn key(self) -> Option<char> {
        match self {
            Tone::Level => None,
            Tone::Grave => Some('f'),
            Tone::Acute => Some('s'),
            Tone::Hook => Some('r'),
            Tone::Tilde => Some('x'),
            Tone::Dot => Some('j'),
        }
    }
}

impl Letter {
    /// The marks and the tone are ones that the base letter can carry.
    pub open spec fn wf(self) -> bool {
        &&& 'a' <= self.base <= 'z'
        &&& match self.mark {
            Mark::Plain => true,
            Mark::Circumflex => self.base == 'a' || self.base == 'e' || self.base == 'o',
            Mark::Breve => self.base == 'a',
            Mark::Horn => self.base == 'o' || self.base == 'u',
            Mark::Stroke => self.base == 'd',
        }
        &&& self.tone != Tone::Level ==> is_vowel(self.base)
    }

    /// The letter `ư` without a tone, which Telex can spell with a single `w`.
    pub open spec fn is_bare_horn_u(self) -> bool {
        self.base == 'u' && self.mark == Mark::Horn && self.tone == Tone::Level
    }

    /// A base letter with neither mark nor tone.
    pub open spec fn is_bare(self) -> bool {
        self.mark == Mark::Plain && self.tone == Tone::Level
    }

    /// Looks a character up in the alphabet.
    pub fn of(c: char) -> (found: Option<Letter>)
        ensures
            found == classify(c),
    {
        reveal(classify);
        if 'a' <= c && c <= 'z' {
            return Some(Letter { base: c, mark: Mark::Plain, tone: Tone::Level, upper: false });
        }
        if 'A' <= c && c <= 'Z' {
            let small = ((c as u8) + 32) as char;
            return Some(Letter { base: small, mark: Mark::Plain, tone: Tone::Level, upper: true });
        }
        match c {
            'à' => Some(Letter { base: 'a', mark: Mark::Plain, tone: Tone::Grave, upper: false }),
            'á' => Some(Letter { base: 'a', mark: Mark::Plain, tone: Tone::Acute, upper: false }),
            'ả' => Some(Letter { base: 'a', mark: Mark::Plain, tone: Tone::Hook, upper: false }),
            'ã' => Some(Letter { base: 'a', mark: Mark::Plain, tone: Tone::Tilde, upper: false }),
            'ạ' => Some(Letter { base: 'a', mark: Mark::Plain, tone: Tone::Dot, upper: false }),
            'À' => Some(Letter { base: 'a', mark: Mark::Plain, tone: Tone::Grave, upper: true }),
            'Á' => Some(Letter { base: 'a', mark: Mark::Plain, tone: Tone::Acute, upper: true }),
            'Ả' => Some(Letter { base: 'a', mark: Mark::Plain, tone: Tone::Hook, upper: true }),
            'Ã' => Some(Letter { base: 'a', mark: Mark::Plain, tone: Tone::Tilde, upper: true }),
            'Ạ' => Some(Letter { base: 'a', mark: Mark::Plain, tone: Tone::Dot, upper: true }),
            'â' => Some(Letter { base: 'a', mark: Mark::Circumflex, tone: Tone::Level, upper: false }),
            'ầ' => Some(Letter { base: 'a', mark: Mark::Circumflex, tone: Tone::Grave, upper: false }),
            'ấ' => Some(Letter { base: 'a', mark: Mark::Circumflex, tone: Tone::Acute, upper: false }),
            'ẩ' => Some(Letter { base: 'a', mark: Mark::Circumflex, tone: Tone::Hook, upper: false }),
            'ẫ' => Some(Letter { base: 'a', mark: Mark::Circumflex, tone: Tone::Tilde, upper: false }),
            'ậ' => Some(Letter { base: 'a', mark: Mark::Circumflex, tone: Tone::Dot, upper: false }),
            'Â' => Some(Letter { base: 'a', mark: Mark::Circumflex, tone: Tone::Level, upper: true }),
            'Ầ' => Some(Letter { base: 'a', mark: Mark::Circumflex, tone: Tone::Grave, upper: true }),
            'Ấ' => Some(Letter { base: 'a', mark: Mark::Circumflex, tone: Tone::Acute, upper: true }),
            'Ẩ' => Some(Letter { base: 'a', mark: Mark::Circumflex, tone: Tone::Hook, upper: true }),
            'Ẫ' => Some(Letter { base: 'a', mark: Mark::Circumflex, tone: Tone::Tilde, upper: true }),
            'Ậ' => Some(Letter { base: 'a', mark: Mark::Circumflex, tone: Tone::Dot, upper: true }),
            'ă' => Some(Letter { base: 'a', mark: Mark::Breve, tone: Tone::Level, upper: false }),
            'ằ' => Some(Letter { base: 'a', mark: Mark::Breve, tone: Tone::Grave, upper: false }),
            'ắ' => Some(Letter { base: 'a', mark: Mark::Breve, tone: Tone::Acute, upper: false }),
            'ẳ' => Some(Letter { base: 'a', mark: Mark::Breve, tone: Tone::Hook, upper: false }),
            'ẵ' => Some(Letter { base: 'a', mark: Mark::Breve, tone: Tone::Tilde, upper: false }),
            'ặ' => Some(Letter { base: 'a', mark: Mark::Breve, tone: Tone::Dot, upper: false }),
            'Ă' => Some(Letter { base: 'a', mark: Mark::Breve, tone: Tone::Level, upper: true }),
            'Ằ' => Some(Letter { base: 'a', mark: Mark::Breve, tone: Tone::Grave, upper: true }),
            'Ắ' => Some(Letter { base: 'a', mark: Mark::Breve, tone: Tone::Acute, upper: true }),
            'Ẳ' => Some(Letter { base: 'a', mark: Mark::Breve, tone: Tone::Hook, upper: true }),
            'Ẵ' => Some(Letter { base: 'a', mark: Mark::Breve, tone: Tone::Tilde, upper: true }),
            'Ặ' => Some(Letter { base: 'a', mark: Mark::Breve, tone: Tone::Dot, upper: true }),
            'đ' => Some(Letter { base: 'd', mark: Mark::Stroke, tone: Tone::Level, upper: false }),
            'Đ' => Some(Letter { base: 'd', mark: Mark::Stroke, tone: Tone::Level, upper: true }),
            'è' => Some(Letter { base: 'e', mark: Mark::Plain, tone: Tone::Grave, upper: false }),
            'é' => Some(Letter { base: 'e', mark: Mark::Plain, tone: Tone::Acute, upper: false }),
            'ẻ' => Some(Letter { base: 'e', mark: Mark::Plain, tone: Tone::Hook, upper: false }),
            'ẽ' => Some(Letter { base: 'e', mark: Mark::Plain, tone: Tone::Tilde, upper: false }),
            'ẹ' => Some(Letter { base: 'e', mark: Mark::Plain, tone: Tone::Dot, upper: false }),
            'È' => Some(Letter { base: 'e', mark: Mark::Plain, tone: Tone::Grave, upper: true }),
            'É' => Some(Letter { base: 'e', mark: Mark::Plain, tone: Tone::Acute, upper: true }),
            'Ẻ' => Some(Letter { base: 'e', mark: Mark::Plain, tone: Tone::Hook, upper: true }),
            'Ẽ' => Some(Letter { base: 'e', mark: Mark::Plain, tone: Tone::Tilde, upper: true }),
            'Ẹ' => Some(Letter { base: 'e', mark: Mark::Plain, tone: Tone::Dot, upper: true }),
            'ê' => Some(Letter { base: 'e', mark: Mark::Circumflex, tone: Tone::Level, upper: false }),
            'ề' => Some(Letter { base: 'e', mark: Mark::Circumflex, tone: Tone::Grave, upper: false }),
            'ế' => Some(Letter { base: 'e', mark: Mark::Circumflex, tone: Tone::Acute, upper: false }),
            'ể' => Some(Letter { base: 'e', mark: Mark::Circumflex, tone: Tone::Hook, upper: false }),
            'ễ' => Some(Letter { base: 'e', mark: Mark::Circumflex, tone: Tone::Tilde, upper: false }),
            'ệ' => Some(Letter { base: 'e', mark: Mark::Circumflex, tone: Tone::Dot, upper: false }),
            'Ê' => Some(Letter { base: 'e', mark: Mark::Circumflex, tone: Tone::Level, upper: true }),
            'Ề' => Some(Letter { base: 'e', mark: Mark::Circumflex, tone: Tone::Grave, upper: true }),
            'Ế' => Some(Letter { base: 'e', mark: Mark::Circumflex, tone: Tone::Acute, upper: true }),
            'Ể' => Some(Letter { base: 'e', mark: Mark::Circumflex, tone: Tone::Hook, upper: true }),
            'Ễ' => Some(Letter { base: 'e', mark: Mark::Circumflex, tone: Tone::Tilde, upper: true }),
            'Ệ' => Some(Letter { base: 'e', mark: Mark::Circumflex, tone: Tone::Dot, upper: true }),
            'ì' => Some(Letter { base: 'i', mark: Mark::Plain, tone: Tone::Grave, upper: false }),
            'í' => Some(Letter { base: 'i', mark: Mark::Plain, tone: Tone::Acute, upper: false }),
            'ỉ' => Some(Letter { base: 'i', mark: Mark::Plain, tone: Tone::Hook, upper: false }),
            'ĩ' => Some(Letter { base: 'i', mark: Mark::Plain, tone: Tone::Tilde, upper: false }),
            'ị' => Some(Letter { base: 'i', mark: Mark::Plain, tone: Tone::Dot, upper: false }),
            'Ì' => Some(Letter { base: 'i', mark: Mark::Plain, tone: Tone::Grave, upper: true }),
            'Í' => Some(Letter { base: 'i', mark: Mark::Plain, tone: Tone::Acute, upper: true }),
            'Ỉ' => Some(Letter { base: 'i', mark: Mark::Plain, tone: Tone::Hook, upper: true }),
            'Ĩ' => Some(Letter { base: 'i', mark: Mark::Plain, tone: Tone::Tilde, upper: true }),
            'Ị' => Some(Letter { base: 'i', mark: Mark::Plain, tone: Tone::Dot, upper: true }),
            'ò' => Some(Letter { base: 'o', mark: Mark::Plain, tone: Tone::Grave, upper: false }),
            'ó' => Some(Letter { base: 'o', mark: Mark::Plain, tone: Tone::Acute, upper: false }),
            'ỏ' => Some(Letter { base: 'o', mark: Mark::Plain, tone: Tone::Hook, upper: false }),
            'õ' => Some(Letter { base: 'o', mark: Mark::Plain, tone: Tone::Tilde, upper: false }),
            'ọ' => Some(Letter { base: 'o', mark: Mark::Plain, tone: Tone::Dot, upper: false }),
            'Ò' => Some(Letter { base: 'o', mark: Mark::Plain, tone: Tone::Grave, upper: true }),
            'Ó' => Some(Letter { base: 'o', mark: Mark::Plain, tone: Tone::Acute, upper: true }),
            'Ỏ' => Some(Letter { base: 'o', mark: Mark::Plain, tone: Tone::Hook, upper: true }),
            'Õ' => Some(Letter { base: 'o', mark: Mark::Plain, tone: Tone::Tilde, upper: true }),
            'Ọ' => Some(Letter { base: 'o', mark: Mark::Plain, tone: Tone::Dot, upper: true }),
            'ô' => Some(Letter { base: 'o', mark: Mark::Circumflex, tone: Tone::Level, upper: false }),
            'ồ' => Some(Letter { base: 'o', mark: Mark::Circumflex, tone: Tone::Grave, upper: false }),
            'ố' => Some(Letter { base: 'o', mark: Mark::Circumflex, tone: Tone::Acute, upper: false }),
            'ổ' => Some(Letter { base: 'o', mark: Mark::Circumflex, tone: Tone::Hook, upper: false }),
            'ỗ' => Some(Letter { base: 'o', mark: Mark::Circumflex, tone: Tone::Tilde, upper: false }),
            'ộ' => Some(Letter { base: 'o', mark: Mark::Circumflex, tone: Tone::Dot, upper: false }),
            'Ô' => Some(Letter { base: 'o', mark: Mark::Circumflex, tone: Tone::Level, upper: true }),
            'Ồ' => Some(Letter { base: 'o', mark: Mark::Circumflex, tone: Tone::Grave, upper: true }),
            'Ố' => Some(Letter { base: 'o', mark: Mark::Circumflex, tone: Tone::Acute, upper: true }),
            'Ổ' => Some(Letter { base: 'o', mark: Mark::Circumflex, tone: Tone::Hook, upper: true }),
            'Ỗ' => Some(Letter { base: 'o', mark: Mark::Circumflex, tone: Tone::Tilde, upper: true }),
            'Ộ' => Some(Letter { base: 'o', mark: Mark::Circumflex, tone: Tone::Dot, upper: true }),
            'ơ' => Some(Letter { base: 'o', mark: Mark::Horn, tone: Tone::Level, upper: false }),
            'ờ' => Some(Letter { base: 'o', mark: Mark::Horn, tone: Tone::Grave, upper: false }),
            'ớ' => Some(Letter { base: 'o', mark: Mark::Horn, tone: Tone::Acute, upper: false }),
            'ở' => Some(Letter { base: 'o', mark: Mark::Horn, tone: Tone::Hook, upper: false }),
            'ỡ' => Some(Letter { base: 'o', mark: Mark::Horn, tone: Tone::Tilde, upper: false }),
            'ợ' => Some(Letter { base: 'o', mark: Mark::Horn, tone: Tone::Dot, upper: false }),
            'Ơ' => Some(Letter { base: 'o', mark: Mark::Horn, tone: Tone::Level, upper: true }),
            'Ờ' => Some(Letter { base: 'o', mark: Mark::Horn, tone: Tone::Grave, upper: true }),
            'Ớ' => Some(Letter { base: 'o', mark: Mark::Horn, tone: Tone::Acute, upper: true }),
            'Ở' => Some(Letter { base: 'o', mark: Mark::Horn, tone: Tone::Hook, upper: true }),
            'Ỡ' => Some(Letter { base: 'o', mark: Mark::Horn, tone: Tone::Tilde, upper: true }),
            'Ợ' => Some(Letter { base: 'o', mark: Mark::Horn, tone: Tone::Dot, upper: true }),
            'ù' => Some(Letter { base: 'u', mark: Mark::Plain, tone: Tone::Grave, upper: false }),
            'ú' => Some(Letter { base: 'u', mark: Mark::Plain, tone: Tone::Acute, upper: false }),
            'ủ' => Some(Letter { base: 'u', mark: Mark::Plain, tone: Tone::Hook, upper: false }),
            'ũ' => Some(Letter { base: 'u', mark: Mark::Plain, tone: Tone::Tilde, upper: false }),
            'ụ' => Some(Letter { base: 'u', mark: Mark::Plain, tone: Tone::Dot, upper: false }),
            'Ù' => Some(Letter { base: 'u', mark: Mark::Plain, tone: Tone::Grave, upper: true }),
            'Ú' => Some(Letter { base: 'u', mark: Mark::Plain, tone: Tone::Acute, upper: true }),
            'Ủ' => Some(Letter { base: 'u', mark: Mark::Plain, tone: Tone::Hook, upper: true }),
            'Ũ' => Some(Letter { base: 'u', mark: Mark::Plain, tone: Tone::Tilde, upper: true }),
            'Ụ' => Some(Letter { base: 'u', mark: Mark::Plain, tone: Tone::Dot, upper: true }),
            'ư' => Some(Letter { base: 'u', mark: Mark::Horn, tone: Tone::Level, upper: false }),
            'ừ' => Some(Letter { base: 'u', mark: Mark::Horn, tone: Tone::Grave, upper: false }),
            'ứ' => Some(Letter { base: 'u', mark: Mark::Horn, tone: Tone::Acute, upper: false }),
            'ử' => Some(Letter { base: 'u', mark: Mark::Horn, tone: Tone::Hook, upper: false }),
            'ữ' => Some(Letter { base: 'u', mark: Mark::Horn, tone: Tone::Tilde, upper: false }),
            'ự' => Some(Letter { base: 'u', mark: Mark::Horn, tone: Tone::Dot, upper: false }),
            'Ư' => Some(Letter { base: 'u', mark: Mark::Horn, tone: Tone::Level, upper: true }),
            'Ừ' => Some(Letter { base: 'u', mark: Mark::Horn, tone: Tone::Grave, upper: true }),
            'Ứ' => Some(Letter { base: 'u', mark: Mark::Horn, tone: Tone::Acute, upper: true }),
            'Ử' => Some(Letter { base: 'u', mark: Mark::Horn, tone: Tone::Hook, upper: true }),
            'Ữ' => Some(Letter { base: 'u', mark: Mark::Horn, tone: Tone::Tilde, upper: true }),
            'Ự' => Some(Letter { base: 'u', mark: Mark::Horn, tone: Tone::Dot, upper: true }),
            'ỳ' => Some(Letter { base: 'y', mark: Mark::Plain, tone: Tone::Grave, upper: false }),
            'ý' => Some(Letter { base: 'y', mark: Mark::Plain, tone: Tone::Acute, upper: false }),
            'ỷ' => Some(Letter { base: 'y', mark: Mark::Plain, tone: Tone::Hook, upper: false }),
            'ỹ' => Some(Letter { base: 'y', mark: Mark::Plain, tone: Tone::Tilde, upper: false }),
            'ỵ' => Some(Letter { base: 'y', mark: Mark::Plain, tone: Tone::Dot, upper: false }),
            'Ỳ' => Some(Letter { base: 'y', mark: Mark::Plain, tone: Tone::Grave, upper: true }),
            'Ý' => Some(Letter { base: 'y', mark: Mark::Plain, tone: Tone::Acute, upper: true }),
            'Ỷ' => Some(Letter { base: 'y', mark: Mark::Plain, tone: Tone::Hook, upper: true }),
            'Ỹ' => Some(Letter { base: 'y', mark: Mark::Plain, tone: Tone::Tilde, upper: true }),
            'Ỵ' => Some(Letter { base: 'y', mark: Mark::Plain, tone: Tone::Dot, upper: true }),
            _ => None,
        }
    }
}

/// The alphabet: the letter that a character stands for, or `None` for a
/// character that is no Vietnamese letter. All 26 ASCII letters belong to it,
/// in both cases, and so do the 67 precomposed letters with marks and tones.
///
/// The table is long, so a proof sees it only where it asks for it, with
/// `reveal(classify)`.
#[verifier::opaque]
pub open spec fn classify(c: char) -> Option<Letter> {
    if 'a' <= c <= 'z' {
        Some(Letter { base: c, mark: Mark::Plain, tone: Tone::Level, upper: false })
    } else if 'A' <= c <= 'Z' {
        Some(
            Letter {
                base: ((c as u8) + 32) as u8 as char,
                mark: Mark::Plain,
                tone: Tone::Level,
                upper: true,
            },
        )
    } else {
        match c {
            'à' => Some(Letter { base: 'a', mark: Mark::Plain, tone: Tone::Grave, upper: false }),
            'á' => Some(Letter { base: 'a', mark: Mark::Plain, tone: Tone::Acute, upper: false }),
            'ả' => Some(Letter { base: 'a', mark: Mark::Plain, tone: Tone::Hook, upper: false }),
            'ã' => Some(Letter { base: 'a', mark: Mark::Plain, tone: Tone::Tilde, upper: false }),
            'ạ' => Some(Letter { base: 'a', mark: Mark::Plain, tone: Tone::Dot, upper: false }),
            'À' => Some(Letter { base: 'a', mark: Mark::Plain, tone: Tone::Grave, upper: true }),
            'Á' => Some(Letter { base: 'a', mark: Mark::Plain, tone: Tone::Acute, upper: true }),
            'Ả' => Some(Letter { base: 'a', mark: Mark::Plain, tone: Tone::Hook, upper: true }),
            'Ã' => Some(Letter { base: 'a', mark: Mark::Plain, tone: Tone::Tilde, upper: true }),
            'Ạ' => Some(Letter { base: 'a', mark: Mark::Plain, tone: Tone::Dot, upper: true }),
            'â' => Some(Letter { base: 'a', mark: Mark::Circumflex, tone: Tone::Level, upper: false }),
            'ầ' => Some(Letter { base: 'a', mark: Mark::Circumflex, tone: Tone::Grave, upper: false }),
            'ấ' => Some(Letter { base: 'a', mark: Mark::Circumflex, tone: Tone::Acute, upper: false }),
            'ẩ' => Some(Letter { base: 'a', mark: Mark::Circumflex, tone: Tone::Hook, upper: false }),
            'ẫ' => Some(Letter { base: 'a', mark: Mark::Circumflex, tone: Tone::Tilde, upper: false }),
            'ậ' => Some(Letter { base: 'a', mark: Mark::Circumflex, tone: Tone::Dot, upper: false }),
            'Â' => Some(Letter { base: 'a', mark: Mark::Circumflex, tone: Tone::Level, upper: true }),
            'Ầ' => Some(Letter { base: 'a', mark: Mark::Circumflex, tone: Tone::Grave, upper: true }),
            'Ấ' => Some(Letter { base: 'a', mark: Mark::Circumflex, tone: Tone::Acute, upper: true }),
            'Ẩ' => Some(Letter { base: 'a', mark: Mark::Circumflex, tone: Tone::Hook, upper: true }),
            'Ẫ' => Some(Letter { base: 'a', mark: Mark::Circumflex, tone: Tone::Tilde, upper: true }),
            'Ậ' => Some(Letter { base: 'a', mark: Mark::Circumflex, tone: Tone::Dot, upper: true }),
            'ă' => Some(Letter { base: 'a', mark: Mark::Breve, tone: Tone::Level, upper: false }),
            'ằ' => Some(Letter { base: 'a', mark: Mark::Breve, tone: Tone::Grave, upper: false }),
            'ắ' => Some(Letter { base: 'a', mark: Mark::Breve, tone: Tone::Acute, upper: false }),
            'ẳ' => Some(Letter { base: 'a', mark: Mark::Breve, tone: Tone::Hook, upper: false }),
            'ẵ' => Some(Letter { base: 'a', mark: Mark::Breve, tone: Tone::Tilde, upper: false }),
            'ặ' => Some(Letter { base: 'a', mark: Mark::Breve, tone: Tone::Dot, upper: false }),
            'Ă' => Some(Letter { base: 'a', mark: Mark::Breve, tone: Tone::Level, upper: true }),
            'Ằ' => Some(Letter { base: 'a', mark: Mark::Breve, tone: Tone::Grave, upper: true }),
            'Ắ' => Some(Letter { base: 'a', mark: Mark::Breve, tone: Tone::Acute, upper: true }),
            'Ẳ' => Some(Letter { base: 'a', mark: Mark::Breve, tone: Tone::Hook, upper: true }),
            'Ẵ' => Some(Letter { base: 'a', mark: Mark::Breve, tone: Tone::Tilde, upper: true }),
            'Ặ' => Some(Letter { base: 'a', mark: Mark::Breve, tone: Tone::Dot, upper: true }),
            'đ' => Some(Letter { base: 'd', mark: Mark::Stroke, tone: Tone::Level, upper: false }),
            'Đ' => Some(Letter { base: 'd', mark: Mark::Stroke, tone: Tone::Level, upper: true }),
            'è' => Some(Letter { base: 'e', mark: Mark::Plain, tone: Tone::Grave, upper: false }),
            'é' => Some(Letter { base: 'e', mark: Mark::Plain, tone: Tone::Acute, upper: false }),
            'ẻ' => Some(Letter { base: 'e', mark: Mark::Plain, tone: Tone::Hook, upper: false }),
            'ẽ' => Some(Letter { base: 'e', mark: Mark::Plain, tone: Tone::Tilde, upper: false }),
            'ẹ' => Some(Letter { base: 'e', mark: Mark::Plain, tone: Tone::Dot, upper: false }),
            'È' => Some(Letter { base: 'e', mark: Mark::Plain, tone: Tone::Grave, upper: true }),
            'É' => Some(Letter { base: 'e', mark: Mark::Plain, tone: Tone::Acute, upper: true }),
            'Ẻ' => Some(Letter { base: 'e', mark: Mark::Plain, tone: Tone::Hook, upper: true }),
            'Ẽ' => Some(Letter { base: 'e', mark: Mark::Plain, tone: Tone::Tilde, upper: true }),
            'Ẹ' => Some(Letter { base: 'e', mark: Mark::Plain, tone: Tone::Dot, upper: true }),
            'ê' => Some(Letter { base: 'e', mark: Mark::Circumflex, tone: Tone::Level, upper: false }),
            'ề' => Some(Letter { base: 'e', mark: Mark::Circumflex, tone: Tone::Grave, upper: false }),
            'ế' => Some(Letter { base: 'e', mark: Mark::Circumflex, tone: Tone::Acute, upper: false }),
            'ể' => Some(Letter { base: 'e', mark: Mark::Circumflex, tone: Tone::Hook, upper: false }),
            'ễ' => Some(Letter { base: 'e', mark: Mark::Circumflex, tone: Tone::Tilde, upper: false }),
            'ệ' => Some(Letter { base: 'e', mark: Mark::Circumflex, tone: Tone::Dot, upper: false }),
            'Ê' => Some(Letter { base: 'e', mark: Mark::Circumflex, tone: Tone::Level, upper: true }),
            'Ề' => Some(Letter { base: 'e', mark: Mark::Circumflex, tone: Tone::Grave, upper: true }),
            'Ế' => Some(Letter { base: 'e', mark: Mark::Circumflex, tone: Tone::Acute, upper: true }),
            'Ể' => Some(Letter { base: 'e', mark: Mark::Circumflex, tone: Tone::Hook, upper: true }),
            'Ễ' => Some(Letter { base: 'e', mark: Mark::Circumflex, tone: Tone::Tilde, upper: true }),
            'Ệ' => Some(Letter { base: 'e', mark: Mark::Circumflex, tone: Tone::Dot, upper: true }),
            'ì' => Some(Letter { base: 'i', mark: Mark::Plain, tone: Tone::Grave, upper: false }),
            'í' => Some(Letter { base: 'i', mark: Mark::Plain, tone: Tone::Acute, upper: false }),
            'ỉ' => Some(Letter { base: 'i', mark: Mark::Plain, tone: Tone::Hook, upper: false }),
            'ĩ' => Some(Letter { base: 'i', mark: Mark::Plain, tone: Tone::Tilde, upper: false }),
            'ị' => Some(Letter { base: 'i', mark: Mark::Plain, tone: Tone::Dot, upper: false }),
            'Ì' => Some(Letter { base: 'i', mark: Mark::Plain, tone: Tone::Grave, upper: true }),
            'Í' => Some(Letter { base: 'i', mark: Mark::Plain, tone: Tone::Acute, upper: true }),
            'Ỉ' => Some(Letter { base: 'i', mark: Mark::Plain, tone: Tone::Hook, upper: true }),
            'Ĩ' => Some(Letter { base: 'i', mark: Mark::Plain, tone: Tone::Tilde, upper: true }),
            'Ị' => Some(Letter { base: 'i', mark: Mark::Plain, tone: Tone::Dot, upper: true }),
            'ò' => Some(Letter { base: 'o', mark: Mark::Plain, tone: Tone::Grave, upper: false }),
            'ó' => Some(Letter { base: 'o', mark: Mark::Plain, tone: Tone::Acute, upper: false }),
            'ỏ' => Some(Letter { base: 'o', mark: Mark::Plain, tone: Tone::Hook, upper: false }),
            'õ' => Some(Letter { base: 'o', mark: Mark::Plain, tone: Tone::Tilde, upper: false }),
            'ọ' => Some(Letter { base: 'o', mark: Mark::Plain, tone: Tone::Dot, upper: false }),
            'Ò' => Some(Letter { base: 'o', mark: Mark::Plain, tone: Tone::Grave, upper: true }),
            'Ó' => Some(Letter { base: 'o', mark: Mark::Plain, tone: Tone::Acute, upper: true }),
            'Ỏ' => Some(Letter { base: 'o', mark: Mark::Plain, tone: Tone::Hook, upper: true }),
            'Õ' => Some(Letter { base: 'o', mark: Mark::Plain, tone: Tone::Tilde, upper: true }),
            'Ọ' => Some(Letter { base: 'o', mark: Mark::Plain, tone: Tone::Dot, upper: true }),
            'ô' => Some(Letter { base: 'o', mark: Mark::Circumflex, tone: Tone::Level, upper: false }),
            'ồ' => Some(Letter { base: 'o', mark: Mark::Circumflex, tone: Tone::Grave, upper: false }),
            'ố' => Some(Letter { base: 'o', mark: Mark::Circumflex, tone: Tone::Acute, upper: false }),
            'ổ' => Some(Letter { base: 'o', mark: Mark::Circumflex, tone: Tone::Hook, upper: false }),
            'ỗ' => Some(Letter { base: 'o', mark: Mark::Circumflex, tone: Tone::Tilde, upper: false }),
            'ộ' => Some(Letter { base: 'o', mark: Mark::Circumflex, tone: Tone::Dot, upper: false }),
            'Ô' => Some(Letter { base: 'o', mark: Mark::Circumflex, tone: Tone::Level, upper: true }),
            'Ồ' => Some(Letter { base: 'o', mark: Mark::Circumflex, tone: Tone::Grave, upper: true }),
            'Ố' => Some(Letter { base: 'o', mark: Mark::Circumflex, tone: Tone::Acute, upper: true }),
            'Ổ' => Some(Letter { base: 'o', mark: Mark::Circumflex, tone: Tone::Hook, upper: true }),
            'Ỗ' => Some(Letter { base: 'o', mark: Mark::Circumflex, tone: Tone::Tilde, upper: true }),
            'Ộ' => Some(Letter { base: 'o', mark: Mark::Circumflex, tone: Tone::Dot, upper: true }),
            'ơ' => Some(Letter { base: 'o', mark: Mark::Horn, tone: Tone::Level, upper: false }),
            'ờ' => Some(Letter { base: 'o', mark: Mark::Horn, tone: Tone::Grave, upper: false }),
            'ớ' => Some(Letter { base: 'o', mark: Mark::Horn, tone: Tone::Acute, upper: false }),
            'ở' => Some(Letter { base: 'o', mark: Mark::Horn, tone: Tone::Hook, upper: false }),
            'ỡ' => Some(Letter { base: 'o', mark: Mark::Horn, tone: Tone::Tilde, upper: false }),
            'ợ' => Some(Letter { base: 'o', mark: Mark::Horn, tone: Tone::Dot, upper: false }),
            'Ơ' => Some(Letter { base: 'o', mark: Mark::Horn, tone: Tone::Level, upper: true }),
            'Ờ' => Some(Letter { base: 'o', mark: Mark::Horn, tone: Tone::Grave, upper: true }),
            'Ớ' => Some(Letter { base: 'o', mark: Mark::Horn, tone: Tone::Acute, upper: true }),
            'Ở' => Some(Letter { base: 'o', mark: Mark::Horn, tone: Tone::Hook, upper: true }),
            'Ỡ' => Some(Letter { base: 'o', mark: Mark::Horn, tone: Tone::Tilde, upper: true }),
            'Ợ' => Some(Letter { base: 'o', mark: Mark::Horn, tone: Tone::Dot, upper: true }),
            'ù' => Some(Letter { base: 'u', mark: Mark::Plain, tone: Tone::Grave, upper: false }),
            'ú' => Some(Letter { base: 'u', mark: Mark::Plain, tone: Tone::Acute, upper: false }),
            'ủ' => Some(Letter { base: 'u', mark: Mark::Plain, tone: Tone::Hook, upper: false }),
            'ũ' => Some(Letter { base: 'u', mark: Mark::Plain, tone: Tone::Tilde, upper: false }),
            'ụ' => Some(Letter { base: 'u', mark: Mark::Plain, tone: Tone::Dot, upper: false }),
            'Ù' => Some(Letter { base: 'u', mark: Mark::Plain, tone: Tone::Grave, upper: true }),
            'Ú' => Some(Letter { base: 'u', mark: Mark::Plain, tone: Tone::Acute, upper: true }),
            'Ủ' => Some(Letter { base: 'u', mark: Mark::Plain, tone: Tone::Hook, upper: true }),
            'Ũ' => Some(Letter { base: 'u', mark: Mark::Plain, tone: Tone::Tilde, upper: true }),
            'Ụ' => Some(Letter { base: 'u', mark: Mark::Plain, tone: Tone::Dot, upper: true }),
            'ư' => Some(Letter { base: 'u', mark: Mark::Horn, tone: Tone::Level, upper: false }),
            'ừ' => Some(Letter { base: 'u', mark: Mark::Horn, tone: Tone::Grave, upper: false }),
            'ứ' => Some(Letter { base: 'u', mark: Mark::Horn, tone: Tone::Acute, upper: false }),
            'ử' => Some(Letter { base: 'u', mark: Mark::Horn, tone: Tone::Hook, upper: false }),
            'ữ' => Some(Letter { base: 'u', mark: Mark::Horn, tone: Tone::Tilde, upper: false }),
            'ự' => Some(Letter { base: 'u', mark: Mark::Horn, tone: Tone::Dot, upper: false }),
            'Ư' => Some(Letter { base: 'u', mark: Mark::Horn, tone: Tone::Level, upper: true }),
            'Ừ' => Some(Letter { base: 'u', mark: Mark::Horn, tone: Tone::Grave, upper: true }),
            'Ứ' => Some(Letter { base: 'u', mark: Mark::Horn, tone: Tone::Acute, upper: true }),
            'Ử' => Some(Letter { base: 'u', mark: Mark::Horn, tone: Tone::Hook, upper: true }),
            'Ữ' => Some(Letter { base: 'u', mark: Mark::Horn, tone: Tone::Tilde, upper: true }),
            'Ự' => Some(Letter { base: 'u', mark: Mark::Horn, tone: Tone::Dot, upper: true }),
            'ỳ' => Some(Letter { base: 'y', mark: Mark::Plain, tone: Tone::Grave, upper: false }),
            'ý' => Some(Letter { base: 'y', mark: Mark::Plain, tone: Tone::Acute, upper: false }),
            'ỷ' => Some(Letter { base: 'y', mark: Mark::Plain, tone: Tone::Hook, upper: false }),
            'ỹ' => Some(Letter { base: 'y', mark: Mark::Plain, tone: Tone::Tilde, upper: false }),
            'ỵ' => Some(Letter { base: 'y', mark: Mark::Plain, tone: Tone::Dot, upper: false }),
            'Ỳ' => Some(Letter { base: 'y', mark: Mark::Plain, tone: Tone::Grave, upper: true }),
            'Ý' => Some(Letter { base: 'y', mark: Mark::Plain, tone: Tone::Acute, upper: true }),
            'Ỷ' => Some(Letter { base: 'y', mark: Mark::Plain, tone: Tone::Hook, upper: true }),
            'Ỹ' => Some(Letter { base: 'y', mark: Mark::Plain, tone: Tone::Tilde, upper: true }),
            'Ỵ' => Some(Letter { base: 'y', mark: Mark::Plain, tone: Tone::Dot, upper: true }),
            _ => None,
        }
    }
}

/// Whether a character is a letter of the alphabet.
pub open spec fn is_viet_letter(c: char) -> bool {
    classify(c) is Some
}

/// The alphabet as a set of characters.
pub open spec fn viet_letters() -> Set<char> {
    Set::new(|c: char| is_viet_letter(c))
}

/// The small letters of the alphabet.
pub const SMALL_LETTERS: &'static str =
    "aàáảãạăằắẳẵặâầấẩẫậbcdđeèéẻẽẹêềếểễệfghiìíỉĩịjklmnoòóỏõọôồốổỗộơờớởỡợpqrstuùúủũụưừứửữựvwxyỳýỷỹỵz";

/// The capital letters of the alphabet.
pub const CAPITAL_LETTERS: &'static str =
    "AÀÁẢÃẠĂẰẮẲẴẶÂẦẤẨẪẬBCDĐEÈÉẺẼẸÊỀẾỂỄỆFGHIÌÍỈĨỊJKLMNOÒÓỎÕỌÔỒỐỔỖỘƠỜỚỞỠỢPQRSTUÙÚỦŨỤƯỪỨỬỮỰVWXYỲÝỶỸỴZ";

/// The code points of the characters of a text.
pub open spec fn codes(text: Seq<char>) -> Set<u32> {
    Set::new(|code: u32| exists|i: int| 0 <= i < text.len() && #[trigger] text[i] as u32 == code)
}

/// Whether `c` stands in `text` at `from` or behind it.
spec fn occurs(text: Seq<char>, c: char, from: int) -> bool
    decreases text.len() - from,
{
    if 0 <= from < text.len() {
        text[from] == c || occurs(text, c, from + 1)
    } else {
        false
    }
}

/// A character that stands in a text has its code point among those of the
/// text.
proof fn lemma_occurs(text: Seq<char>, c: char, from: int)
    requires
        0 <= from,
    ensures
        occurs(text, c, from) ==> codes(text).contains(c as u32),
    decreases text.len() - from,
{
    if 0 <= from < text.len() {
        if text[from] == c {
            assert(text[from] as u32 == c as u32);
        } else {
            lemma_occurs(text, c, from + 1);
        }
    }
}

/// The two constants list the alphabet: every character in them is a
/// letter, and every letter stands in one of them.
pub proof fn lemma_alphabet(c: char)
    ensures
        codes(SMALL_LETTERS@).union(codes(CAPITAL_LETTERS@)).contains(c as u32) <==> is_viet_letter(
            c,
        ),
{
    reveal_strlit(
        "aàáảãạăằắẳẵặâầấẩẫậbcdđeèéẻẽẹêềếểễệfghiìíỉĩịjklmnoòóỏõọôồốổỗộơờớởỡợpqrstuùúủũụưừứửữựvwxyỳýỷỹỵz",
    );
    reveal_strlit(
        "AÀÁẢÃẠĂẰẮẲẴẶÂẦẤẨẪẬBCDĐEÈÉẺẼẸÊỀẾỂỄỆFGHIÌÍỈĨỊJKLMNOÒÓỎÕỌÔỒỐỔỖỘƠỜỚỞỠỢPQRSTUÙÚỦŨỤƯỪỨỬỮỰVWXYỲÝỶỸỴZ",
    );
    reveal(classify);
    let small = SMALL_LETTERS@;
    let capital = CAPITAL_LETTERS@;
    if is_viet_letter(c) {
        reveal_with_fuel(occurs, 94);
        assert(occurs(small, c, 0) || occurs(capital, c, 0));
        lemma_occurs(small, c, 0);
        lemma_occurs(capital, c, 0);
    }
    if codes(small).contains(c as u32) {
        let i = choose|i: int| 0 <= i < small.len() && #[trigger] small[i] as u32 == c as u32;
        assert(small[i] == c);
    }
    if codes(capital).contains(c as u32) {
        let i = choose|i: int| 0 <= i < capital.len() && #[trigger] capital[i] as u32 == c as u32;
        assert(capital[i] == c);
    }
}

/// Every letter of the alphabet is well formed.
pub proof fn lemma_classify_wf(c: char)
    ensures
        classify(c) matches Some(l) ==> l.wf(),
{
    reveal(classify);
}

} // verus!
