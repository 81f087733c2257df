//! The dispatcher: from key events to engine changes and actions.
//!
//! [`handle_event`] is the policy table over a key and its modifier set:
//! the toggle hotkey flips the mode, boundary keys reset the word, delete
//! pops, app shortcuts reset without intercepting, plain characters run
//! the push → transform → inject pipeline while the mode is on.  It does
//! no I/O itself: it returns what must happen — whether the native key is
//! swallowed, whether the mode indicator must be refreshed, and which
//! backspace-then-type injection to synthesize — and its contract pins
//! each of these to a spec-level step function of the prior engine state.

use vstd::prelude::*;

use crate::engine::EngineView;
use crate::engine::TransformationEngine;
use crate::engine::pop_view;
use crate::engine::push_view;
use crate::engine::reset_view;
use crate::engine::toggle_view;
use crate::glyph::spec_upper_ascii;
use crate::glyph::upper_ascii;
use crate::telex::candidate_spec;
use crate::telex::common_prefix_len;
use crate::telex::is_trigger;
use crate::telex::should_transform_spec;

verus! {

/// Key value delivered for the return key.
pub const KEY_ENTER: char = '\r';

/// Key value delivered for the tab key.
pub const KEY_TAB: char = '\t';

/// Key value delivered for the space bar.
pub const KEY_SPACE: char = ' ';

/// Key value delivered for the escape key.
pub const KEY_ESCAPE: char = '\u{1b}';

/// Key value delivered for the delete (backspace) key.
pub const KEY_DELETE: char = '\u{8}';

/// The modifier set accompanying a key event.
#[derive(Clone, Copy, PartialEq, Eq, Structural, Debug)]
pub struct KeyModifier {
    pub shift: bool,
    pub control: bool,
    pub alt: bool,
    pub super_key: bool,
}

impl KeyModifier {
    /// A modifier set with the given keys held.
    pub fn new(shift: bool, control: bool, alt: bool, super_key: bool) -> (m: Self)
        ensures
            m == (KeyModifier { shift, control, alt, super_key }),
    {
        KeyModifier { shift, control, alt, super_key }
    }

    /// Whether shift is held.
    pub fn is_shift(&self) -> (r: bool)
        ensures
            r == self.shift,
    {
        self.shift
    }

    /// Whether control is held.
    pub fn is_control(&self) -> (r: bool)
        ensures
            r == self.control,
    {
        self.control
    }

    /// Whether alt is held.
    pub fn is_alt(&self) -> (r: bool)
        ensures
            r == self.alt,
    {
        self.alt
    }

    /// Whether the super (command) key is held.
    pub fn is_super(&self) -> (r: bool)
        ensures
            r == self.super_key,
    {
        self.super_key
    }
}

/// A synthetic edit to perform on screen: erase `backspaces` characters,
/// then type `text`, strictly in that order.
pub struct Injection {
    pub backspaces: usize,
    pub text: Vec<char>,
}

/// What the event handler decided: whether to swallow the native key,
/// whether to refresh the mode indicator, and which injection (if any)
/// to synthesize.
pub struct EventOutcome {
    pub swallow: bool,
    pub notify_ui: bool,
    pub injection: Option<Injection>,
}

/// A chord with control, alt or super held is an application shortcut,
/// never text.
pub open spec fn is_shortcut_combo(m: KeyModifier) -> bool {
    m.control || m.alt || m.super_key
}

/// The character a keystroke records as: uppercased when shift is held.
pub open spec fn effective_key(c: char, m: KeyModifier) -> char {
    if m.shift {
        spec_upper_ascii(c)
    } else {
        c
    }
}

/// The mode-toggle hotkey: control + super + space.
pub open spec fn is_toggle_combo(k: char, m: KeyModifier) -> bool {
    m.control && m.super_key && k == KEY_SPACE
}

/// Keys that end the current word.
pub open spec fn is_boundary_key(k: char) -> bool {
    k == KEY_ENTER || k == KEY_TAB || k == KEY_SPACE || k == KEY_ESCAPE
}

/// Whether processing character `c` under modifiers `m` fires an
/// injection: the engine is tracking, the key is recorded, the recorded
/// buffer satisfies the transformation condition, and the candidate
/// differs from what is shown.
pub open spec fn char_step_fires(v: EngineView, c: char, m: KeyModifier) -> bool {
    let key = effective_key(c, m);
    let v2 = push_view(v, key);
    &&& !is_shortcut_combo(m)
    &&& v.tracking
    &&& v2.tracking
    &&& should_transform_spec(v2.keys, key)
    &&& candidate_spec(v2.keys) != v2.shown
}

/// The engine state after processing character `c` under modifiers `m`.
pub open spec fn char_step_view(v: EngineView, c: char, m: KeyModifier) -> EngineView {
    if is_shortcut_combo(m) {
        reset_view(v.enabled)
    } else if !v.tracking {
        v
    } else {
        let key = effective_key(c, m);
        let v2 = push_view(v, key);
        if !v2.tracking {
            v2
        } else if char_step_fires(v, c, m) {
            EngineView { shown: candidate_spec(v2.keys), ..v2 }
        } else {
            EngineView { shown: v2.shown.push(key), ..v2 }
        }
    }
}

/// Whether `inj` is the injection owed for recorded key `key`: erase down
/// to the first divergence between the shown string and the candidate,
/// then type the candidate's remainder.
pub open spec fn injection_matches(v: EngineView, key: char, inj: Injection) -> bool {
    let v2 = push_view(v, key);
    let cand = candidate_spec(v2.keys);
    let p = common_prefix_len(v2.shown, cand);
    &&& inj.backspaces as int == v2.shown.len() - p
    &&& inj.text@ == cand.skip(p as int)
}

/// Runs the character pipeline of the dispatcher: shortcut
/// chords reset the word; otherwise, while tracking, the key is recorded
/// and, if it triggers a transformation whose candidate differs from the
/// screen, the minimal correction is returned and committed.  Returns the
/// injection to synthesize; `None` means the native key passes through.
pub fn process_character(engine: &mut TransformationEngine, c: char, m: KeyModifier) -> (r:
    Option<Injection>)
    ensures
        final(engine)@ == char_step_view(old(engine)@, c, m),
        r is Some <==> char_step_fires(old(engine)@, c, m),
        match r {
            Some(inj) => injection_matches(old(engine)@, effective_key(c, m), inj),
            None => true,
        },
{
    if m.is_control() || m.is_alt() || m.is_super() {
        engine.new_word();
        return None;
    }
    if !engine.is_tracking() {
        return None;
    }
    let key = if m.is_shift() {
        upper_ascii(c)
    } else {
        c
    };
    engine.push(key);
    if !engine.is_tracking() {
        return None;
    }
    if engine.should_transform_keys(key) {
        let cand = engine.transform_keys();
        if engine.should_send_keyboard_event(&cand) {
            let n = engine.get_backspace_count();
            let text = engine.divergent_suffix(&cand);
            engine.replace(cand);
            return Some(Injection { backspaces: n, text });
        }
    }
    engine.record_passthrough(key);
    None
}

/// The engine state after a full key event.
pub open spec fn event_step_view(v: EngineView, keycode: Option<char>, m: KeyModifier)
    -> EngineView {
    match keycode {
        Some(k) => {
            if is_toggle_combo(k, m) {
                toggle_view(v)
            } else if !v.enabled {
                v
            } else if is_boundary_key(k) {
                reset_view(v.enabled)
            } else if k == KEY_DELETE {
                pop_view(v)
            } else {
                char_step_view(v, k, m)
            }
        },
        None => reset_view(v.enabled),
    }
}

/// Whether the native key is swallowed: the toggle hotkey always is; a
/// plain character is exactly when its transformation fires.
pub open spec fn event_swallows(v: EngineView, keycode: Option<char>, m: KeyModifier) -> bool {
    match keycode {
        Some(k) => {
            if is_toggle_combo(k, m) {
                true
            } else if !v.enabled || is_boundary_key(k) || k == KEY_DELETE {
                false
            } else {
                char_step_fires(v, k, m)
            }
        },
        None => false,
    }
}

/// Whether the event flips the mode and the indicator must refresh.
pub open spec fn event_notifies(keycode: Option<char>, m: KeyModifier) -> bool {
    match keycode {
        Some(k) => is_toggle_combo(k, m),
        None => false,
    }
}

/// Whether the event produces an injection.
pub open spec fn event_injects(v: EngineView, keycode: Option<char>, m: KeyModifier) -> bool {
    match keycode {
        Some(k) => {
            &&& !is_toggle_combo(k, m)
            &&& v.enabled
            &&& !is_boundary_key(k)
            &&& k != KEY_DELETE
            &&& char_step_fires(v, k, m)
        },
        None => false,
    }
}

/// The full policy table over one key event, mirrored by
/// [`event_step_view`], [`event_swallows`], [`event_notifies`] and
/// [`event_injects`]: toggle hotkey → flip mode and notify; boundary keys
/// → new word; delete → pop; other characters → the character pipeline;
/// events without a character → new word.  A disabled engine leaves every
/// character untouched.
pub fn handle_event(engine: &mut TransformationEngine, keycode: Option<char>, m: KeyModifier)
    -> (r: EventOutcome)
    ensures
        final(engine)@ == event_step_view(old(engine)@, keycode, m),
        r.swallow == event_swallows(old(engine)@, keycode, m),
        r.notify_ui == event_notifies(keycode, m),
        r.injection is Some <==> event_injects(old(engine)@, keycode, m),
        match r.injection {
            Some(inj) => match keycode {
                Some(k) => injection_matches(old(engine)@, effective_key(k, m), inj),
                None => false,
            },
            None => true,
        },
{
    match keycode {
        Some(k) => {
            if m.is_control() && m.is_super() && k == KEY_SPACE {
                engine.toggle_vietnamese();
                return EventOutcome { swallow: true, notify_ui: true, injection: None };
            }
            if engine.is_enabled() {
                if k == KEY_ENTER || k == KEY_TAB || k == KEY_SPACE || k == KEY_ESCAPE {
                    engine.new_word();
                    EventOutcome { swallow: false, notify_ui: false, injection: None }
                } else if k == KEY_DELETE {
                    engine.pop();
                    EventOutcome { swallow: false, notify_ui: false, injection: None }
                } else {
                    let injection = process_character(engine, k, m);
                    let swallow = injection.is_some();
                    EventOutcome { swallow, notify_ui: false, injection }
                }
            } else {
                EventOutcome { swallow: false, notify_ui: false, injection: None }
            }
        },
        None => {
            engine.new_word();
            EventOutcome { swallow: false, notify_ui: false, injection: None }
        },
    }
}

/// A word containing no trigger is never transformed at the dispatcher
/// either: a non-trigger character can never fire an injection.
pub proof fn lemma_no_trigger_no_injection(v: EngineView, c: char, m: KeyModifier)
    requires
        !is_trigger(effective_key(c, m)),
    ensures
        !char_step_fires(v, c, m),
{
}

/// The engine state after a whole sequence of key events.
pub open spec fn run_events(v: EngineView, events: Seq<(Option<char>, KeyModifier)>) -> EngineView
    decreases events.len(),
{
    if events.len() == 0 {
        v
    } else {
        run_events(event_step_view(v, events[0].0, events[0].1), events.skip(1))
    }
}

/// Word-boundary isolation over whole event sequences: whatever state two
/// engines were in, once a boundary resets them the same later events
/// produce the same state — the prior word cannot influence the next one.
pub proof fn lemma_prior_word_cannot_influence(
    a: EngineView,
    b: EngineView,
    events: Seq<(Option<char>, KeyModifier)>,
)
    requires
        a.enabled == b.enabled,
    ensures
        run_events(reset_view(a.enabled), events) == run_events(reset_view(b.enabled), events),
{
}

/// While the mode is off, every character event other than the toggle
/// hotkey leaves the engine untouched and passes through unswallowed.
pub proof fn lemma_disabled_keys_untouched(v: EngineView, k: char, m: KeyModifier)
    requires
        !v.enabled,
        !is_toggle_combo(k, m),
    ensures
        event_step_view(v, Some(k), m) == v,
        !event_swallows(v, Some(k), m),
        !event_injects(v, Some(k), m),
{
}

/// After re-enabling mid-word the engine is not tracking, and an
/// untracked engine lets every plain character through unchanged until a
/// boundary starts a new word.
pub proof fn lemma_untracked_character_passes_through(v: EngineView, c: char, m: KeyModifier)
    requires
        v.enabled,
        !v.tracking,
        !is_shortcut_combo(m),
    ensures
        char_step_view(v, c, m) == v,
        !char_step_fires(v, c, m),
{
}

/// When a character step fires, carrying out the returned injection —
/// erase `backspaces` characters from what was shown, then type `text` —
/// leaves the screen showing exactly what the engine now records as
/// shown: the candidate string.
pub proof fn lemma_injection_rebuilds_screen(v: EngineView, c: char, m: KeyModifier, inj: Injection)
    requires
        char_step_fires(v, c, m),
        injection_matches(v, effective_key(c, m), inj),
    ensures
        ({
            let shown = push_view(v, effective_key(c, m)).shown;
            shown.take(shown.len() - inj.backspaces) + inj.text@ == char_step_view(v, c, m).shown
        }),
{
    let key = effective_key(c, m);
    let v2 = push_view(v, key);
    let cand = candidate_spec(v2.keys);
    crate::telex::lemma_cpl_from_props(v2.shown, cand, 0);
    crate::telex::lemma_injection_reconstructs(v2.shown, cand);
}

} // verus!
