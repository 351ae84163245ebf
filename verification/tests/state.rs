use viet_telex::letter::Tone;
use viet_telex::state::State;

#[test]
fn new_state_has_nothing_to_write() {
    let state = State::new();
    assert_eq!(state.to_string(), "");
    assert_eq!(state, State::default());
    assert_eq!(state.tone, Tone::Level);
    assert!(!state.d && !state.o && !state.e && !state.a);
    assert!(!state.double_d && !state.double_o && !state.double_e && !state.double_a);
    assert!(!state.w && !state.already_w && !state.vowels);
}

#[test]
fn seen_letters_write_nothing() {
    let state = State { d: true, o: true, e: true, a: true, vowels: true, ..State::new() };
    assert_eq!(state.to_string(), "");
}

#[test]
fn each_mark_has_its_key() {
    assert_eq!(State { double_d: true, ..State::new() }.to_string(), "d");
    assert_eq!(State { double_o: true, ..State::new() }.to_string(), "o");
    assert_eq!(State { double_e: true, ..State::new() }.to_string(), "e");
    assert_eq!(State { double_a: true, ..State::new() }.to_string(), "a");
    assert_eq!(State { w: true, ..State::new() }.to_string(), "w");
}

#[test]
fn each_tone_has_its_key() {
    assert_eq!(State { tone: Tone::Level, ..State::new() }.to_string(), "");
    assert_eq!(State { tone: Tone::Grave, ..State::new() }.to_string(), "f");
    assert_eq!(State { tone: Tone::Acute, ..State::new() }.to_string(), "s");
    assert_eq!(State { tone: Tone::Hook, ..State::new() }.to_string(), "r");
    assert_eq!(State { tone: Tone::Tilde, ..State::new() }.to_string(), "x");
    assert_eq!(State { tone: Tone::Dot, ..State::new() }.to_string(), "j");
}

#[test]
fn all_keys_come_in_order() {
    let state = State {
        double_d: true,
        double_o: true,
        double_e: true,
        double_a: true,
        tone: Tone::Tilde,
        w: true,
        ..State::new()
    };
    assert_eq!(state.to_string(), "doeaxw");
}

#[test]
fn w_written_at_the_start_is_not_written_again() {
    let state = State { w: true, already_w: true, tone: Tone::Dot, ..State::new() };
    assert_eq!(state.to_string(), "j");
    let state = State { already_w: true, ..State::new() };
    assert_eq!(state.to_string(), "");
}

#[test]
fn keys_are_small_and_ranked() {
    let rank = |c: char| "doea".find(c).unwrap_or(if "fsrxj".contains(c) { 4 } else { 5 });
    let tones = [Tone::Level, Tone::Grave, Tone::Acute, Tone::Hook, Tone::Tilde, Tone::Dot];
    for bits in 0..64u32 {
        for tone in tones {
            let state = State {
                double_d: bits & 1 != 0,
                double_o: bits & 2 != 0,
                double_e: bits & 4 != 0,
                double_a: bits & 8 != 0,
                w: bits & 16 != 0,
                already_w: bits & 32 != 0,
                tone,
                ..State::new()
            };
            let keys: Vec<char> = state.to_string().chars().collect();
            assert!(keys.iter().all(|c| c.is_ascii_lowercase()));
            assert!(keys.windows(2).all(|pair| rank(pair[0]) < rank(pair[1])));
            assert!(keys.iter().filter(|c| "fsrxj".contains(**c)).count() <= 1);
        }
    }
}
