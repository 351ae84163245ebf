use viet_telex::{viet_telex, VietTelex};

const START: &str = "Tiếng Việt là ngôn ngữ của người Việt và là ngôn ngữ chính thức tại Việt Nam.
Đây là tiếng mẹ đẻ của khoảng 85% dân cư Việt Nam, cùng với hơn bốn triệu người Việt hải ngoại.
Hà Nội, Huế, Đà Nẵng: ba thành phố; một đất nước!
Trăm năm trong cõi người ta, chữ tài chữ mệnh khéo là ghét nhau.
ƯỚC GÌ ĐƯỢC VỀ QUÊ (2024) - \"uống nước nhớ nguồn\".
";

const RES: &str = "Tienges Vietej laf ngono nguxw cuar ngwoif Vietej vaf laf ngono nguxw chinhs thucsw taij Vietej Nam.
Dayda laf tienges mej dedr cuar khoangr 85% dana cw Vietej Nam, cungf voisw honw bonos trieuej ngwoif Vietej hair ngoaij.
Haf Noioj, Huees, Dadf Nangxw: ba thanhf phoos; motoj datdas nwocs!
Tramw namw trong coix ngwoif ta, chuxw taif chuxw menhej kheos laf ghets nhau.
WOCs GIf DWOCdj VEef QUEe (2024) - \"uongos nwocs nhosw nguonof\".
";

#[test]
fn convert() {
    let decoder = VietTelex::new();
    let converted = decoder.decode_viet(START);

    assert_eq!(converted, RES);
}

#[test]
fn convert_line_by_line() {
    let decoder = VietTelex::new();
    let mut lines = 0;
    for (start, res) in START.lines().zip(RES.lines()) {
        assert_eq!(decoder.decode_viet(start), res);
        lines += 1;
    }
    assert_eq!(lines, 5);
}

#[test]
fn viet_telex_is_a_fresh_decoder() {
    assert_eq!(viet_telex(START), VietTelex::new().decode_viet(START));
    assert_eq!(viet_telex(START), RES);
}

#[test]
fn a_decoder_can_be_used_again() {
    let decoder = VietTelex::new();
    assert_eq!(decoder.decode_viet("được"), "dwocdj");
    assert_eq!(decoder.decode_viet("được"), "dwocdj");
    assert_eq!(decoder.decode_viet("a"), "a");
}

#[test]
fn empty_text() {
    assert_eq!(viet_telex(""), "");
}

#[test]
fn word_with_circumflex_and_tone() {
    assert_eq!(viet_telex("việt"), "vietej");
    assert_eq!(viet_telex("Việt Nam"), "Vietej Nam");
}

#[test]
fn capital_stroke_and_tones_between_spaces() {
    assert_eq!(viet_telex("Đà Nẵng"), "Dadf Nangxw");
}

#[test]
fn plain_ascii_word_is_unchanged() {
    assert_eq!(viet_telex("hello"), "hello");
}

#[test]
fn stroke_before_punctuation_is_flushed_once() {
    assert_eq!(viet_telex("đ,"), "dd,");
    assert_eq!(viet_telex("đ, đ"), "dd, dd");
    assert_eq!(viet_telex("đ"), "dd");
}

#[test]
fn text_without_letters_is_unchanged() {
    for text in ["", " ", "1234567890", "\n\t .,;:!?()[]{}\"'-+*/=%", "×÷çñ ¿¡ 日本語 Ελληνικά", "\u{0301}\u{0323}"] {
        assert_eq!(viet_telex(text), text);
    }
}

#[test]
fn other_characters_keep_their_order() {
    let decoder = VietTelex::new();
    let text = "(Ước) gì, được: về - quê! 2024 ×2";
    let telex = decoder.decode_viet(text);
    let kept: String = telex.chars().filter(|c| !decoder.is_viet_letter(*c)).collect();
    let had: String = text.chars().filter(|c| !decoder.is_viet_letter(*c)).collect();
    assert_eq!(kept, had);
    assert_eq!(kept, "() , :  - ! 2024 ×2");
    assert_eq!(telex, "(Wocs) gif, dwocdj: veef - quee! 2024 ×2");
    assert!(telex.chars().count() >= text.chars().count());
}

#[test]
fn text_splits_at_a_character_that_is_no_letter() {
    let before = "Hà Nội";
    let after = "Huế, Đà Nẵng";
    for c in [' ', ',', '\n', '0', 'ç'] {
        let joined = format!("{before}{c}{after}");
        let expected = format!("{}{c}{}", viet_telex(before), viet_telex(after));
        assert_eq!(viet_telex(&joined), expected);
    }
}

#[test]
fn last_tone_of_a_word_wins() {
    assert_eq!(viet_telex("àá"), "aas");
    assert_eq!(viet_telex("áà"), "aaf");
    assert_eq!(viet_telex("ảãạ"), "aaaj");
    assert_eq!(viet_telex("ạa"), "aaaj");
    assert_eq!(viet_telex("àá àá"), "aas aas");
}

#[test]
fn at_most_one_tone_key_ends_a_word() {
    let tones = ['f', 's', 'r', 'x', 'j'];
    for word in ["àáảãạ", "ỳýỷỹỵ", "ầấẩẫậ", "ừứửữự", "òè", "ìùỵ"] {
        let telex = viet_telex(word);
        let spelled = word.chars().count();
        let keys: Vec<char> = telex.chars().skip(spelled).filter(|c| tones.contains(c)).collect();
        assert_eq!(keys.len(), 1, "{telex}");
    }
}

#[test]
fn keys_end_the_word_in_one_order() {
    assert_eq!(viet_telex("đôêâừ"), "doeaudoeafw");
    assert_eq!(viet_telex("ừâêôđ"), "uaeoddoeafw");
    assert_eq!(viet_telex("âêôđừ"), "aeodudoeafw");
    assert_eq!(viet_telex("ơẽđ"), "oeddxw");
    assert_eq!(viet_telex("ặ"), "ajw");
    assert_eq!(viet_telex("ộ"), "ooj");
}

#[test]
fn a_mark_is_written_once_for_the_word() {
    assert_eq!(viet_telex("đđ"), "ddd");
    assert_eq!(viet_telex("ââ"), "aaa");
    assert_eq!(viet_telex("êê"), "eee");
    assert_eq!(viet_telex("ôô"), "ooo");
    assert_eq!(viet_telex("ơơ"), "oow");
    assert_eq!(viet_telex("ăâ"), "aaaw");
}

#[test]
fn case_is_kept_on_the_base_letter_only() {
    assert_eq!(viet_telex("VIỆT"), "VIETej");
    assert_eq!(viet_telex("ĐƯỜNG"), "DWONGdf");
    assert_eq!(viet_telex("Ảo"), "Aor");
    assert_eq!(viet_telex("ỹỸ"), "yYx");
    assert_eq!(viet_telex("Đ"), "Dd");
    assert_eq!(viet_telex("Ệ"), "Eej");
}

#[test]
fn second_bare_letter_is_written_twice() {
    assert_eq!(viet_telex("a"), "a");
    assert_eq!(viet_telex("aa"), "aaa");
    assert_eq!(viet_telex("aaa"), "aaaaa");
    assert_eq!(viet_telex("AA"), "AAa");
    assert_eq!(viet_telex("ee"), "eee");
    assert_eq!(viet_telex("oo"), "ooo");
    assert_eq!(viet_telex("oO"), "oOo");
    assert_eq!(viet_telex("dd"), "ddd");
    assert_eq!(viet_telex("uu"), "uu");
    assert_eq!(viet_telex("ii"), "ii");
    assert_eq!(viet_telex("yy"), "yy");
    assert_eq!(viet_telex("bb"), "bb");
}

#[test]
fn bare_letter_after_its_marked_form_is_written_twice() {
    assert_eq!(viet_telex("eê"), "eee");
    assert_eq!(viet_telex("êe"), "eeee");
    assert_eq!(viet_telex("àa"), "aaaf");
    assert_eq!(viet_telex("đd"), "dddd");
    assert_eq!(viet_telex("Đd"), "Dddd");
    assert_eq!(viet_telex("dđ"), "ddd");
}

#[test]
fn marker_key_after_a_vowel_is_written_twice() {
    assert_eq!(viet_telex("af"), "aff");
    assert_eq!(viet_telex("as"), "ass");
    assert_eq!(viet_telex("ar"), "arr");
    assert_eq!(viet_telex("ax"), "axx");
    assert_eq!(viet_telex("aj"), "ajj");
    assert_eq!(viet_telex("aw"), "aww");
    assert_eq!(viet_telex("AS"), "ASs");
    assert_eq!(viet_telex("iF"), "iFf");
}

#[test]
fn marker_key_before_any_vowel_is_written_once() {
    assert_eq!(viet_telex("fa"), "fa");
    assert_eq!(viet_telex("sa"), "sa");
    assert_eq!(viet_telex("ra"), "ra");
    assert_eq!(viet_telex("xa"), "xa");
    assert_eq!(viet_telex("ja"), "ja");
    assert_eq!(viet_telex("wa"), "wa");
    assert_eq!(viet_telex("trong"), "trong");
    assert_eq!(viet_telex("fsrxjw"), "fsrxjw");
}

#[test]
fn horn_u_opens_a_word_as_w() {
    assert_eq!(viet_telex("ư"), "w");
    assert_eq!(viet_telex("Ư"), "W");
    assert_eq!(viet_telex("tư"), "tw");
    assert_eq!(viet_telex("ưu"), "wu");
    assert_eq!(viet_telex("Ưu"), "Wu");
    assert_eq!(viet_telex("ươ"), "wo");
    assert_eq!(viet_telex("ươi"), "woi");
    assert_eq!(viet_telex("người"), "ngwoif");
    assert_eq!(viet_telex("được"), "dwocdj");
}

#[test]
fn horn_u_after_a_vowel_is_u_with_a_final_w() {
    assert_eq!(viet_telex("tuư"), "tuuw");
    assert_eq!(viet_telex("aư"), "auw");
}

#[test]
fn horn_u_with_a_tone_is_u_with_a_final_w() {
    assert_eq!(viet_telex("từ"), "tufw");
    assert_eq!(viet_telex("ứ"), "usw");
    assert_eq!(viet_telex("Ự"), "Ujw");
}

#[test]
fn the_w_that_opens_a_word_counts_for_that_word_only() {
    assert_eq!(viet_telex("ươ ơ"), "wo ow");
    assert_eq!(viet_telex("ư,ă"), "w,aw");
}

#[test]
fn state_is_fresh_for_every_word() {
    assert_eq!(viet_telex("à a"), "af a");
    assert_eq!(viet_telex("a a"), "a a");
    assert_eq!(viet_telex("đ d"), "dd d");
    assert_eq!(viet_telex("a-s"), "a-s");
}

#[test]
fn unknown_letters_part_words() {
    assert_eq!(viet_telex("a×b"), "a×b");
    assert_eq!(viet_telex("çà"), "çaf");
    assert_eq!(viet_telex("àçà"), "afçaf");
    assert_eq!(viet_telex("a\u{0300}"), "a\u{0300}");
}
