use glyph_stage::key::Key;
use glyph_stage::stage::Stage;

fn letter_keys() -> Vec<(Key, char)> {
    vec![
        (Key::A, 'A'), (Key::B, 'B'), (Key::C, 'C'), (Key::D, 'D'), (Key::E, 'E'),
        (Key::F, 'F'), (Key::G, 'G'), (Key::H, 'H'), (Key::I, 'I'), (Key::J, 'J'),
        (Key::K, 'K'), (Key::L, 'L'), (Key::M, 'M'), (Key::N, 'N'), (Key::O, 'O'),
        (Key::P, 'P'), (Key::Q, 'Q'), (Key::R, 'R'), (Key::S, 'S'), (Key::T, 'T'),
        (Key::U, 'U'), (Key::V, 'V'), (Key::W, 'W'), (Key::X, 'X'), (Key::Y, 'Y'),
        (Key::Z, 'Z'),
    ]
}

#[test]
fn startup_state() {
    let stage = Stage::new();
    assert_eq!(stage.current_char, 'a');
    assert!(stage.show_alternate_image);
    assert!(!stage.keyboard_visible);
}

#[test]
fn alphabet_index_counts_from_zero() {
    let keys = letter_keys();
    assert_eq!(keys.len(), 26);
    for (i, (key, _)) in keys.iter().enumerate() {
        assert_eq!(key.alphabet_index(), Some(i as u8));
    }
    assert_eq!(Key::Space.alphabet_index(), None);
    assert_eq!(Key::Enter.alphabet_index(), None);
    assert_eq!(Key::Other.alphabet_index(), None);
}

#[test]
fn letter_of_each_key() {
    for (key, upper) in letter_keys() {
        assert_eq!(key.letter(false), Some(upper));
        assert_eq!(key.letter(true), Some(upper.to_ascii_lowercase()));
    }
    assert_eq!(Key::A.letter(false), Some('A'));
    assert_eq!(Key::A.letter(true), Some('a'));
    assert_eq!(Key::Z.letter(true), Some('z'));
    assert_eq!(Key::Space.letter(false), None);
    assert_eq!(Key::Enter.letter(true), None);
    assert_eq!(Key::Other.letter(false), None);
}

#[test]
fn letter_without_shift_selects_upper_case() {
    for (key, upper) in letter_keys() {
        let mut stage = Stage::new();
        assert!(stage.key_down_event(key, false, false));
        assert_eq!(stage.current_char, upper);
        assert!(stage.show_alternate_image);
        assert!(!stage.keyboard_visible);
    }
}

#[test]
fn letter_with_shift_selects_lower_case() {
    for (key, upper) in letter_keys() {
        let mut stage = Stage::new();
        assert!(stage.key_down_event(key, true, false));
        assert_eq!(stage.current_char, upper.to_ascii_lowercase());
    }
}

#[test]
fn letter_keeps_picture_flag() {
    let mut stage = Stage::new();
    stage.key_down_event(Key::Enter, false, false);
    stage.key_down_event(Key::Q, false, false);
    assert_eq!(stage.current_char, 'Q');
    assert!(!stage.show_alternate_image);
}

#[test]
fn g_clears_keyboard_flag_in_either_case() {
    for shift in [false, true] {
        let mut stage = Stage { current_char: 'x', show_alternate_image: true, keyboard_visible: true };
        stage.key_down_event(Key::G, shift, false);
        assert!(!stage.keyboard_visible);
        assert_eq!(stage.current_char, if shift { 'g' } else { 'G' });
    }
}

#[test]
fn other_letters_keep_keyboard_flag() {
    for (key, _) in letter_keys() {
        if key == Key::G {
            continue;
        }
        let mut stage = Stage { current_char: 'g', show_alternate_image: true, keyboard_visible: true };
        stage.key_down_event(key, true, false);
        assert!(stage.keyboard_visible);
    }
}

#[test]
fn upper_case_g_fires_no_keyboard_request() {
    let mut stage = Stage::new();
    stage.key_down_event(Key::G, false, false);
    assert_eq!(stage.current_char, 'G');
    assert!(!stage.update());
    assert!(!stage.keyboard_visible);
}

#[test]
fn g_pressed_again_rearms_the_request() {
    let mut stage = Stage::new();
    stage.key_down_event(Key::G, true, false);
    assert!(stage.update());
    assert!(!stage.update());
    stage.key_down_event(Key::G, true, false);
    assert!(!stage.keyboard_visible);
    assert!(stage.update());
    assert!(stage.keyboard_visible);
    assert!(!stage.update());
}

#[test]
fn space_selects_space_with_picture() {
    let mut stage = Stage::new();
    stage.key_down_event(Key::Enter, false, false);
    stage.key_down_event(Key::Space, false, false);
    assert_eq!(stage.current_char, ' ');
    assert!(stage.show_alternate_image);
    let once = stage;
    stage.key_down_event(Key::Space, true, false);
    assert_eq!(stage, once);
}

#[test]
fn enter_selects_space_without_picture() {
    let mut stage = Stage::new();
    stage.key_down_event(Key::Enter, false, false);
    assert_eq!(stage.current_char, ' ');
    assert!(!stage.show_alternate_image);
    let once = stage;
    stage.key_down_event(Key::Enter, false, false);
    assert_eq!(stage, once);
}

#[test]
fn repeat_changes_nothing() {
    let mut keys: Vec<Key> = letter_keys().into_iter().map(|(k, _)| k).collect();
    keys.push(Key::Space);
    keys.push(Key::Enter);
    keys.push(Key::Other);
    for key in keys {
        for shift in [false, true] {
            let before = Stage { current_char: 'q', show_alternate_image: false, keyboard_visible: true };
            let mut stage = before;
            assert!(!stage.key_down_event(key, shift, true));
            assert_eq!(stage, before);
        }
    }
}

#[test]
fn other_key_changes_nothing_and_is_reported() {
    let before = Stage { current_char: 'q', show_alternate_image: false, keyboard_visible: true };
    let mut stage = before;
    assert!(stage.key_down_event(Key::Other, false, false));
    assert_eq!(stage, before);
    assert!(stage.key_down_event(Key::Other, true, false));
    assert_eq!(stage, before);
}

#[test]
fn startup_tick_fires_nothing() {
    let mut stage = Stage::new();
    assert!(!stage.update());
    assert_eq!(stage, Stage::new());
}

#[test]
fn tick_with_keyboard_shown_fires_nothing() {
    let before = Stage { current_char: 'g', show_alternate_image: true, keyboard_visible: true };
    let mut stage = before;
    assert!(!stage.update());
    assert_eq!(stage, before);
}

#[test]
fn scenario_lower_case_g_fires_keyboard_once() {
    let mut stage = Stage::new();
    stage.key_down_event(Key::G, true, false);
    assert_eq!(stage.current_char, 'g');
    assert!(stage.update());
    assert!(stage.keyboard_visible);
    assert!(!stage.update());
    assert!(stage.keyboard_visible);
    assert_eq!(stage.current_char, 'g');
}

#[test]
fn many_ticks_ask_for_the_keyboard_once() {
    for count in [1usize, 2, 3, 10, 100] {
        let mut stage = Stage { current_char: 'g', show_alternate_image: true, keyboard_visible: false };
        let mut requests = 0;
        for _ in 0..count {
            if stage.update() {
                requests += 1;
            }
        }
        assert_eq!(requests, 1);
        assert!(stage.keyboard_visible);
        assert_eq!(stage.current_char, 'g');
    }
}

#[test]
fn many_ticks_with_keyboard_shown_ask_never() {
    for count in [1usize, 2, 3, 10, 100] {
        let before = Stage { current_char: 'g', show_alternate_image: false, keyboard_visible: true };
        let mut stage = before;
        for _ in 0..count {
            assert!(!stage.update());
        }
        assert_eq!(stage, before);
    }
}

#[test]
fn many_ticks_with_another_letter_ask_never() {
    for c in ['G', 'a', ' ', 'h'] {
        let before = Stage { current_char: c, show_alternate_image: true, keyboard_visible: false };
        let mut stage = before;
        for _ in 0..10 {
            assert!(!stage.update());
        }
        assert_eq!(stage, before);
    }
}
