use viet_telex::letter::{Letter, Mark, Tone};
use viet_telex::letter::{CAPITAL_LETTERS, SMALL_LETTERS};
use viet_telex::to_telex::push_may_up;
use viet_telex::VietTelex;

#[test]
fn alphabet_has_93_letters_in_each_case() {
    assert_eq!(SMALL_LETTERS.chars().count(), 93);
    assert_eq!(CAPITAL_LETTERS.chars().count(), 93);
}

#[test]
fn capital_letters_are_the_capitals_of_the_small_letters() {
    assert_eq!(SMALL_LETTERS.to_uppercase(), CAPITAL_LETTERS);
    assert_eq!(CAPITAL_LETTERS.to_lowercase(), SMALL_LETTERS);
}

#[test]
fn every_letter_of_the_alphabet_is_known() {
    let decoder = VietTelex::new();
    for c in SMALL_LETTERS.chars().chain(CAPITAL_LETTERS.chars()) {
        assert!(decoder.is_viet_letter(c), "{c}");
        assert!(Letter::of(c).is_some(), "{c}");
    }
}

#[test]
fn all_ascii_letters_are_known() {
    let decoder = VietTelex::new();
    for c in ('a'..='z').chain('A'..='Z') {
        assert!(decoder.is_viet_letter(c), "{c}");
    }
    for c in ['f', 'j', 'w', 'z', 'F', 'J', 'W', 'Z'] {
        assert!(decoder.is_viet_letter(c));
    }
}

#[test]
fn nothing_else_is_a_letter() {
    let decoder = VietTelex::new();
    let mut letters = 0;
    for code in 0..=0x2FFFF_u32 {
        if let Some(c) = char::from_u32(code) {
            let listed = SMALL_LETTERS.contains(c) || CAPITAL_LETTERS.contains(c);
            assert_eq!(decoder.is_viet_letter(c), listed, "{c}");
            assert_eq!(Letter::of(c).is_some(), listed, "{c}");
            if listed {
                letters += 1;
            }
        }
    }
    assert_eq!(letters, 186);
}

#[test]
fn characters_that_are_no_letters() {
    let decoder = VietTelex::new();
    for c in [' ', '\n', '0', '9', ',', '.', '@', '[', '`', '{', 'ç', 'ñ', 'ä', 'Ä', '×', '÷', 'ß', 'ǰ', '\u{0300}', '\u{0323}', '日', '\u{10FFFF}'] {
        assert!(!decoder.is_viet_letter(c), "{c}");
        assert_eq!(Letter::of(c), None);
    }
}

#[test]
fn ascii_letters_are_bare() {
    for c in 'a'..='z' {
        let small = Letter { base: c, mark: Mark::Plain, tone: Tone::Level, upper: false };
        let capital = Letter { base: c, mark: Mark::Plain, tone: Tone::Level, upper: true };
        assert_eq!(Letter::of(c), Some(small));
        assert_eq!(Letter::of(c.to_ascii_uppercase()), Some(capital));
    }
}

#[test]
fn letters_with_marks_and_tones() {
    let of = |c: char| Letter::of(c).unwrap();
    assert_eq!(of('ệ'), Letter { base: 'e', mark: Mark::Circumflex, tone: Tone::Dot, upper: false });
    assert_eq!(of('Ệ'), Letter { base: 'e', mark: Mark::Circumflex, tone: Tone::Dot, upper: true });
    assert_eq!(of('đ'), Letter { base: 'd', mark: Mark::Stroke, tone: Tone::Level, upper: false });
    assert_eq!(of('Đ'), Letter { base: 'd', mark: Mark::Stroke, tone: Tone::Level, upper: true });
    assert_eq!(of('ă'), Letter { base: 'a', mark: Mark::Breve, tone: Tone::Level, upper: false });
    assert_eq!(of('ẵ'), Letter { base: 'a', mark: Mark::Breve, tone: Tone::Tilde, upper: false });
    assert_eq!(of('ơ'), Letter { base: 'o', mark: Mark::Horn, tone: Tone::Level, upper: false });
    assert_eq!(of('Ờ'), Letter { base: 'o', mark: Mark::Horn, tone: Tone::Grave, upper: true });
    assert_eq!(of('ư'), Letter { base: 'u', mark: Mark::Horn, tone: Tone::Level, upper: false });
    assert_eq!(of('ử'), Letter { base: 'u', mark: Mark::Horn, tone: Tone::Hook, upper: false });
    assert_eq!(of('ý'), Letter { base: 'y', mark: Mark::Plain, tone: Tone::Acute, upper: false });
    assert_eq!(of('Ĩ'), Letter { base: 'i', mark: Mark::Plain, tone: Tone::Tilde, upper: true });
    assert_eq!(of('ố'), Letter { base: 'o', mark: Mark::Circumflex, tone: Tone::Acute, upper: false });
    assert_eq!(of('ầ'), Letter { base: 'a', mark: Mark::Circumflex, tone: Tone::Grave, upper: false });
}

#[test]
fn tones_follow_the_order_of_the_alphabet() {
    let tones = [Tone::Level, Tone::Grave, Tone::Acute, Tone::Hook, Tone::Tilde, Tone::Dot];
    let rows = [
        ("aàáảãạ", 'a', Mark::Plain),
        ("ăằắẳẵặ", 'a', Mark::Breve),
        ("âầấẩẫậ", 'a', Mark::Circumflex),
        ("eèéẻẽẹ", 'e', Mark::Plain),
        ("êềếểễệ", 'e', Mark::Circumflex),
        ("iìíỉĩị", 'i', Mark::Plain),
        ("oòóỏõọ", 'o', Mark::Plain),
        ("ôồốổỗộ", 'o', Mark::Circumflex),
        ("ơờớởỡợ", 'o', Mark::Horn),
        ("uùúủũụ", 'u', Mark::Plain),
        ("ưừứửữự", 'u', Mark::Horn),
        ("yỳýỷỹỵ", 'y', Mark::Plain),
    ];
    for (row, base, mark) in rows {
        assert_eq!(row.chars().count(), 6);
        for (c, tone) in row.chars().zip(tones) {
            assert_eq!(Letter::of(c), Some(Letter { base, mark, tone, upper: false }), "{c}");
        }
    }
}

#[test]
fn a_capital_differs_from_its_small_letter_in_case_only() {
    for c in SMALL_LETTERS.chars() {
        let mut capitals = c.to_uppercase();
        let capital = capitals.next().unwrap();
        assert_eq!(capitals.next(), None);
        let small = Letter::of(c).unwrap();
        assert!(!small.upper);
        assert_eq!(Letter::of(capital), Some(Letter { upper: true, ..small }), "{c}");
    }
}

#[test]
fn a_small_letter_is_its_own_lowercase() {
    for c in SMALL_LETTERS.chars().chain(CAPITAL_LETTERS.chars()) {
        let letter = Letter::of(c).unwrap();
        assert_eq!(letter.upper, c.is_uppercase(), "{c}");
        assert_eq!(letter.upper, c.to_lowercase().next() != Some(c), "{c}");
        assert!(letter.base.is_ascii_lowercase());
    }
}

#[test]
fn push_may_up_pushes_a_small_letter() {
    let mut s = String::from("x");
    push_may_up(&mut s, 'a', false);
    push_may_up(&mut s, 'w', false);
    assert_eq!(s, "xaw");
}

#[test]
fn push_may_up_pushes_a_capital() {
    let mut s = String::new();
    push_may_up(&mut s, 'a', true);
    push_may_up(&mut s, 'z', true);
    push_may_up(&mut s, 'd', true);
    assert_eq!(s, "AZD");
}

#[test]
fn push_may_up_agrees_with_the_capitals_of_ascii() {
    for c in 'a'..='z' {
        let mut s = String::new();
        push_may_up(&mut s, c, true);
        push_may_up(&mut s, c, false);
        assert_eq!(s, format!("{}{}", c.to_ascii_uppercase(), c));
    }
}

#[test]
fn push_may_up_leaves_other_characters() {
    let mut s = String::new();
    for c in ['A', '1', ' ', '{', '`', 'đ', 'é'] {
        push_may_up(&mut s, c, true);
    }
    assert_eq!(s, "A1 {`đé");
}

#[test]
fn alphabet_in_another_order() {
    let first = "aàáảãạâầấẩẫậăằắẳẵặbcdđeèéẻẽẹêềếểễệfghiìíỉĩịjkln";
    let second = "moòóỏõọôồốổỗộơờớởỡợpqrstuùúủũụưừứửữựvwxyỳýỷỹỵz";
    let mut listed: Vec<char> = first.chars().chain(second.chars()).collect();
    let mut small: Vec<char> = SMALL_LETTERS.chars().collect();
    listed.sort();
    small.sort();
    assert_eq!(listed, small);
    let decoder = VietTelex::new();
    for c in listed {
        assert!(decoder.is_viet_letter(c));
        assert!(c.to_uppercase().all(|capital| decoder.is_viet_letter(capital)));
    }
}
