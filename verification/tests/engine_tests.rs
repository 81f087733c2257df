use gokey::dispatch::handle_event;
use gokey::dispatch::process_character;
use gokey::dispatch::Injection;
use gokey::dispatch::KeyModifier;
use gokey::dispatch::KEY_SPACE;
use gokey::engine::TransformationEngine;
use gokey::engine::MAX_WORD_LEN;

fn no_mods() -> KeyModifier {
    KeyModifier::new(false, false, false, false)
}

fn chars(s: &str) -> Vec<char> {
    s.chars().collect()
}

/// Feeds each character of `s` through the full event handler, applying
/// injections to a simulated screen, and returns the screen contents.
fn type_word(engine: &mut TransformationEngine, s: &str) -> String {
    let mut screen: Vec<char> = Vec::new();
    for c in s.chars() {
        let outcome = handle_event(engine, Some(c), no_mods());
        match outcome.injection {
            Some(Injection { backspaces, text }) => {
                for _ in 0..backspaces {
                    screen.pop();
                }
                screen.extend(text);
                assert!(outcome.swallow);
            }
            None => {
                if !outcome.swallow {
                    screen.push(c);
                }
            }
        }
    }
    screen.into_iter().collect()
}

#[test]
fn plain_word_renders_itself() {
    let mut e = TransformationEngine::new();
    let screen = type_word(&mut e, "chim");
    assert_eq!(screen, "chim");
    assert_eq!(e.rendered(), chars("chim"));
}

#[test]
fn viet_acute_scenario() {
    // "viet" renders literally; the tone trigger "s" puts an acute accent
    // on the nucleus, erasing only from the point of divergence
    let mut e = TransformationEngine::new();
    assert_eq!(type_word(&mut e, "viet"), "viet");
    assert_eq!(e.rendered(), chars("viet"));

    e.push('s');
    assert!(e.should_transform_keys('s'));
    let candidate = e.transform_keys();
    assert_eq!(candidate, chars("viét"));
    assert!(e.should_send_keyboard_event(&candidate));
    assert_eq!(e.get_backspace_count(), 2);
    assert_eq!(e.divergent_suffix(&candidate), chars("ét"));
    e.replace(candidate);
    assert_eq!(e.rendered(), chars("viét"));
}

#[test]
fn vieetj_composes_viet_with_dot() {
    let mut e = TransformationEngine::new();
    let screen = type_word(&mut e, "vieetj");
    assert_eq!(screen, "việt");
    assert_eq!(e.rendered(), chars("việt"));
}

#[test]
fn transform_is_idempotent_on_unchanged_buffer() {
    let mut e = TransformationEngine::new();
    type_word(&mut e, "vieet");
    let first = e.transform_keys();
    let second = e.transform_keys();
    assert_eq!(first, second);
}

#[test]
fn noop_candidate_sends_nothing() {
    let mut e = TransformationEngine::new();
    type_word(&mut e, "viets");
    // the buffer already transformed; an unchanged buffer offers the same
    // candidate as the screen shows
    let candidate = e.transform_keys();
    assert_eq!(candidate, e.rendered());
    assert!(!e.should_send_keyboard_event(&candidate));
    assert_eq!(e.get_backspace_count(), 0);
}

#[test]
fn invalid_trigger_inserts_literally() {
    // "s" after "x" has no vowel to carry a tone: it stays literal and
    // costs no backspaces
    let mut e = TransformationEngine::new();
    let screen = type_word(&mut e, "xs");
    assert_eq!(screen, "xs");
    assert_eq!(e.rendered(), chars("xs"));
    assert_eq!(e.get_backspace_count(), 0);
}

#[test]
fn repeated_tone_key_falls_back_to_literal() {
    let mut e = TransformationEngine::new();
    let screen = type_word(&mut e, "ass");
    assert_eq!(screen, "ás");
}

#[test]
fn word_boundary_isolates_words() {
    // junk typed before a boundary must not influence the next word
    let mut fresh = TransformationEngine::new();
    let expected = type_word(&mut fresh, "viets");

    let mut e = TransformationEngine::new();
    type_word(&mut e, "wqxj");
    handle_event(&mut e, Some(KEY_SPACE), no_mods());
    let screen = type_word(&mut e, "viets");
    assert_eq!(screen, expected);
    assert_eq!(e.rendered(), fresh.rendered());
}

#[test]
fn toggle_mid_word_stops_tracking_immediately() {
    let toggle = KeyModifier::new(false, true, false, true);
    let mut e = TransformationEngine::new();
    type_word(&mut e, "vie");
    let outcome = handle_event(&mut e, Some(KEY_SPACE), toggle);
    assert!(outcome.swallow);
    assert!(outcome.notify_ui);
    assert!(!e.is_enabled());
    assert!(!e.is_tracking());
    // subsequent characters are untouched while disabled
    let out = handle_event(&mut e, Some('t'), no_mods());
    assert!(!out.swallow);
    assert!(out.injection.is_none());
    // re-enabling alone does not resume tracking mid-word
    handle_event(&mut e, Some(KEY_SPACE), toggle);
    assert!(e.is_enabled());
    assert!(!e.is_tracking());
    let out = handle_event(&mut e, Some('s'), no_mods());
    assert!(out.injection.is_none());
    // a boundary seen after re-enabling resumes tracking
    handle_event(&mut e, Some(KEY_SPACE), no_mods());
    assert!(e.is_tracking());
}

#[test]
fn shortcut_chord_resets_word_without_intercepting() {
    let mut e = TransformationEngine::new();
    type_word(&mut e, "vie");
    let ctrl = KeyModifier::new(false, true, false, false);
    let r = process_character(&mut e, 'c', ctrl);
    assert!(r.is_none());
    assert_eq!(e.buffer(), Vec::<char>::new());
    assert!(e.is_tracking());
}

#[test]
fn delete_pops_buffer_and_rendered() {
    let mut e = TransformationEngine::new();
    type_word(&mut e, "vie");
    handle_event(&mut e, Some(gokey::dispatch::KEY_DELETE), no_mods());
    assert_eq!(e.buffer(), chars("vi"));
    assert_eq!(e.rendered(), chars("vi"));
}

#[test]
fn overlong_word_abandons_tracking() {
    let mut e = TransformationEngine::new();
    let long = "bbbbbbbbbbbb";
    assert_eq!(long.len(), MAX_WORD_LEN);
    type_word(&mut e, long);
    assert!(e.is_tracking());
    type_word(&mut e, "b");
    assert!(!e.is_tracking());
    // keys beyond the cap pass through untouched
    let out = handle_event(&mut e, Some('s'), no_mods());
    assert!(!out.swallow);
    assert!(out.injection.is_none());
}

#[test]
fn non_text_key_starts_new_word() {
    let mut e = TransformationEngine::new();
    type_word(&mut e, "vie");
    handle_event(&mut e, None, no_mods());
    assert_eq!(e.buffer(), Vec::<char>::new());
    assert_eq!(e.rendered(), Vec::<char>::new());
}

#[test]
fn shift_records_uppercase() {
    let shift = KeyModifier::new(true, false, false, false);
    let mut e = TransformationEngine::new();
    process_character(&mut e, 'v', shift);
    process_character(&mut e, 'i', no_mods());
    assert_eq!(e.buffer(), chars("Vi"));
}
