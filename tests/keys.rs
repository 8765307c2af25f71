use tunedeck::action::{ALT, CONTROL, SHIFT};
use tunedeck::{Action, KeyCode, KeyPress, Keymap, Mode};

fn key(c: char) -> KeyPress {
    KeyPress::plain(KeyCode::Char(c))
}

fn sample_keymap() -> Keymap {
    let mut km = Keymap::new();
    km.bind(Mode::Home, &vec![key('q')], Action::Quit);
    km.bind(Mode::Home, &vec![key('g'), key('h')], Action::Help);
    km.bind(
        Mode::Home,
        &vec![KeyPress { code: KeyCode::Char('z'), modifiers: CONTROL }],
        Action::Suspend,
    );
    km
}

#[test]
fn single_key_binding_fires_at_once() {
    let km = sample_keymap();
    let mut pending = vec![key('x')];
    let fired = km.resolve(Mode::Home, &mut pending, key('q'));
    assert_eq!(fired, Some(Action::Quit));
    assert_eq!(pending, vec![key('x')]);
}

#[test]
fn two_key_chord_fires_on_second_key() {
    let km = sample_keymap();
    let mut pending = Vec::new();
    assert_eq!(km.resolve(Mode::Home, &mut pending, key('g')), None);
    assert_eq!(pending, vec![key('g')]);
    assert_eq!(km.resolve(Mode::Home, &mut pending, key('h')), Some(Action::Help));
    assert_eq!(pending, vec![key('g'), key('h')]);
}

#[test]
fn unmatched_prefix_keeps_growing() {
    let km = sample_keymap();
    let mut pending = Vec::new();
    assert_eq!(km.resolve(Mode::Home, &mut pending, key('x')), None);
    assert_eq!(km.resolve(Mode::Home, &mut pending, key('y')), None);
    assert_eq!(pending.len(), 2);
}

#[test]
fn chord_split_by_clearing_never_fires() {
    let km = sample_keymap();
    let mut pending = Vec::new();
    assert_eq!(km.resolve(Mode::Home, &mut pending, key('g')), None);
    pending.clear();
    assert_eq!(km.resolve(Mode::Home, &mut pending, key('h')), None);
}

#[test]
fn modifiers_are_part_of_the_key() {
    let km = sample_keymap();
    let mut pending = Vec::new();
    assert_eq!(km.resolve(Mode::Home, &mut pending, key('z')), None);
    let ctrl_z = KeyPress { code: KeyCode::Char('z'), modifiers: CONTROL };
    assert_eq!(km.resolve(Mode::Home, &mut Vec::new(), ctrl_z), Some(Action::Suspend));
    let alt_q = KeyPress { code: KeyCode::Char('q'), modifiers: ALT };
    assert_eq!(km.resolve(Mode::Home, &mut Vec::new(), alt_q), None);
}

#[test]
fn rebinding_replaces_the_action() {
    let mut km = sample_keymap();
    km.bind(Mode::Home, &vec![key('q')], Action::Noop);
    assert_eq!(km.lookup(Mode::Home, &vec![key('q')]), Some(Action::Noop));
    assert_eq!(km.lookup(Mode::Home, &vec![key('g'), key('h')]), Some(Action::Help));
}

#[test]
fn empty_keymap_resolves_nothing_and_keeps_pending() {
    let km = Keymap::new();
    let mut pending = Vec::new();
    assert!(!km.binds_mode(Mode::Home));
    assert_eq!(km.resolve(Mode::Home, &mut pending, key('q')), None);
    assert!(pending.is_empty());
}

#[test]
fn upper_case_letter_carries_shift() {
    let upper = KeyPress::plain(KeyCode::Char('A')).normalized();
    assert_eq!(upper, KeyPress { code: KeyCode::Char('A'), modifiers: SHIFT });
    let shifted = KeyPress { code: KeyCode::Char('a'), modifiers: SHIFT }.normalized();
    assert_eq!(shifted, KeyPress { code: KeyCode::Char('A'), modifiers: SHIFT });
    assert_eq!(key('a').normalized(), key('a'));
    let enter = KeyPress { code: KeyCode::Enter, modifiers: SHIFT };
    assert_eq!(enter.normalized(), enter);
}

#[test]
fn shifted_binding_matches_upper_case_key() {
    let mut km = Keymap::new();
    km.bind(Mode::Home, &vec![KeyPress { code: KeyCode::Char('j'), modifiers: SHIFT }], Action::PressTab);
    let mut pending = Vec::new();
    assert_eq!(km.resolve(Mode::Home, &mut pending, key('J')), Some(Action::PressTab));
}
