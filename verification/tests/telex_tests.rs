use gokey::telex::compose_candidate;
use gokey::telex::is_trigger_key;
use gokey::telex::key_composes_now;
use gokey::telex::render_prefix;

fn candidate(s: &str) -> String {
    let keys: Vec<char> = s.chars().collect();
    compose_candidate(&keys).into_iter().collect()
}

#[test]
fn tone_marks_on_single_vowels() {
    assert_eq!(candidate("as"), "á");
    assert_eq!(candidate("af"), "à");
    assert_eq!(candidate("ar"), "ả");
    assert_eq!(candidate("ax"), "ã");
    assert_eq!(candidate("aj"), "ạ");
}

#[test]
fn shape_modifiers() {
    assert_eq!(candidate("aa"), "â");
    assert_eq!(candidate("ee"), "ê");
    assert_eq!(candidate("oo"), "ô");
    assert_eq!(candidate("aw"), "ă");
    assert_eq!(candidate("ow"), "ơ");
    assert_eq!(candidate("uw"), "ư");
    assert_eq!(candidate("dd"), "đ");
}

#[test]
fn tone_placement_follows_orthography() {
    // final two-vowel cluster: first vowel hosts the mark
    assert_eq!(candidate("hoaf"), "hòa");
    // closed syllable: second vowel hosts it
    assert_eq!(candidate("toans"), "toán");
    // a shaped vowel always wins
    assert_eq!(candidate("nuowcs"), "nước");
    assert_eq!(candidate("chuyeenr"), "chuyển");
    // "qu" and "gi" onsets do not host marks
    assert_eq!(candidate("quas"), "quá");
    assert_eq!(candidate("gif"), "gì");
    // three-vowel cluster: middle vowel hosts it
    assert_eq!(candidate("khuyur"), "khuỷu");
}

#[test]
fn full_syllables() {
    assert_eq!(candidate("vieetj"), "việt");
    assert_eq!(candidate("ngoon"), "ngôn");
    assert_eq!(candidate("nguwx"), "ngữ");
    assert_eq!(candidate("ddoongf"), "đồng");
}

#[test]
fn tone_can_be_replaced_but_not_repeated() {
    assert_eq!(candidate("asf"), "à");
    assert_eq!(candidate("ass"), "ás");
}

#[test]
fn invalid_triggers_stay_literal() {
    assert_eq!(candidate("xs"), "xs");
    assert_eq!(candidate("w"), "w");
    assert_eq!(candidate("bw"), "bw");
    assert_eq!(candidate("ad"), "ad");
}

#[test]
fn case_template_is_derived_from_first_keys() {
    // capitalized: first key uppercase
    assert_eq!(candidate("Vieetj"), "Việt");
    // all-caps: first two keys uppercase force the whole syllable
    assert_eq!(candidate("VIeetj"), "VIỆT");
    assert_eq!(candidate("DDoongf"), "ĐỒNG");
}

#[test]
fn horn_pair_uo() {
    assert_eq!(candidate("uow"), "ươ");
    assert_eq!(candidate("huowng"), "hương");
}

#[test]
fn trigger_recognition() {
    for c in ['s', 'f', 'r', 'x', 'j', 'a', 'e', 'o', 'w', 'd', 'S', 'W'] {
        assert!(is_trigger_key(c));
    }
    for c in ['b', 'c', 'i', 'u', 'y', 'n', '1', ' '] {
        assert!(!is_trigger_key(c));
    }
}

#[test]
fn composability_depends_on_context() {
    let keys: Vec<char> = "vie".chars().collect();
    let glyphs = render_prefix(&keys, keys.len());
    // a tone key composes here, a doubling key for "a" does not
    assert!(key_composes_now(&glyphs, 's'));
    assert!(!key_composes_now(&glyphs, 'a'));
    // "e" doubles the final "e"
    assert!(key_composes_now(&glyphs, 'e'));
}
