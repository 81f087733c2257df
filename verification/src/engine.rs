//! The transformation engine: the per-syllable state machine.
//!
//! The engine owns the raw keystroke buffer of the current word, the string
//! currently shown on screen for it, a tracking flag, and the process-wide
//! enabled flag.  Every operation is a total function of that state; the
//! ghost [`EngineView`] exposes it to contracts, and the spec functions
//! [`reset_view`], [`push_view`], [`pop_view`] and [`toggle_view`] pin down
//! exactly how each mutating operation changes it.

use vstd::prelude::*;

use crate::telex::candidate_spec;
use crate::telex::char_vecs_equal;
use crate::telex::common_prefix;
use crate::telex::common_prefix_len;
use crate::telex::compose_candidate;
use crate::telex::is_trigger_key;
use crate::telex::key_composes_now;
use crate::telex::lemma_cpl_self;
use crate::telex::render_prefix;
use crate::telex::seq_suffix;
use crate::telex::should_transform_spec;

verus! {

/// Longest keystroke buffer still treated as one syllable; beyond it the
/// engine abandons tracking until the next word boundary.
pub const MAX_WORD_LEN: usize = 12;

/// Ghost view of the engine state.
#[verifier::ext_equal]
pub struct EngineView {
    /// Raw keystrokes of the current word, in typed order.
    pub keys: Seq<char>,
    /// What is currently shown on screen for the current word.
    pub shown: Seq<char>,
    /// Whether keystrokes are being accumulated for transformation.
    pub tracking: bool,
    /// The process-wide Vietnamese-input mode flag.
    pub enabled: bool,
}

/// The engine state directly after a word boundary: empty buffers, and
/// tracking active exactly when the mode is enabled.
pub open spec fn reset_view(enabled: bool) -> EngineView {
    EngineView {
        keys: Seq::<char>::empty(),
        shown: Seq::<char>::empty(),
        tracking: enabled,
        enabled,
    }
}

/// Effect of recording one keystroke: appended while tracking and below
/// the length cap; hitting the cap abandons tracking for this word.
pub open spec fn push_view(v: EngineView, c: char) -> EngineView {
    if !v.tracking {
        v
    } else if v.keys.len() < MAX_WORD_LEN {
        EngineView { keys: v.keys.push(c), ..v }
    } else {
        EngineView { tracking: false, ..v }
    }
}

/// Effect of an OS-performed deletion: the last buffered key and the last
/// shown character disappear together.
pub open spec fn pop_view(v: EngineView) -> EngineView {
    EngineView {
        keys: if v.keys.len() > 0 {
            v.keys.drop_last()
        } else {
            v.keys
        },
        shown: if v.shown.len() > 0 {
            v.shown.drop_last()
        } else {
            v.shown
        },
        ..v
    }
}

/// Effect of the mode toggle: the flag flips; switching off stops
/// tracking at once, switching back on leaves tracking off until the next
/// word boundary.
pub open spec fn toggle_view(v: EngineView) -> EngineView {
    EngineView {
        enabled: !v.enabled,
        tracking: if v.enabled {
            false
        } else {
            v.tracking
        },
        ..v
    }
}

/// The per-word state machine of the input method.
pub struct TransformationEngine {
    keys: Vec<char>,
    shown: Vec<char>,
    tracking: bool,
    enabled: bool,
}

impl View for TransformationEngine {
    type V = EngineView;

    closed spec fn view(&self) -> EngineView {
        EngineView {
            keys: self.keys@,
            shown: self.shown@,
            tracking: self.tracking,
            enabled: self.enabled,
        }
    }
}

impl TransformationEngine {
    /// A fresh engine at process start: empty word, mode enabled.
    pub fn new() -> (e: Self)
        ensures
            e@ == reset_view(true),
    {
        let e = TransformationEngine {
            keys: Vec::new(),
            shown: Vec::new(),
            tracking: true,
            enabled: true,
        };
        proof {
            assert(e@ =~= reset_view(true));
        }
        e
    }

    /// Word boundary: clears the buffer and the shown string and discards
    /// the case template with them; tracking resumes only while enabled.
    /// Idempotent and always succeeds.
    pub fn new_word(&mut self)
        ensures
            final(self)@ == reset_view(old(self)@.enabled),
    {
        self.keys.clear();
        self.shown.clear();
        self.tracking = self.enabled;
        proof {
            assert(self@ =~= reset_view(old(self)@.enabled));
        }
    }

    /// Records one raw keystroke, as [`push_view`] describes.
    pub fn push(&mut self, c: char)
        ensures
            final(self)@ == push_view(old(self)@, c),
    {
        if self.tracking {
            if self.keys.len() < MAX_WORD_LEN {
                self.keys.push(c);
            } else {
                self.tracking = false;
            }
        }
        proof {
            assert(self@ =~= push_view(old(self)@, c));
        }
    }

    /// Whether keystrokes are currently being accumulated.
    pub fn is_tracking(&self) -> (r: bool)
        ensures
            r == self@.tracking,
    {
        self.tracking
    }

    /// Reads the process-wide mode flag.
    pub fn is_enabled(&self) -> (r: bool)
        ensures
            r == self@.enabled,
    {
        self.enabled
    }

    /// Flips the mode flag, as [`toggle_view`] describes: disabling stops
    /// tracking immediately; re-enabling waits for the next boundary.
    pub fn toggle_vietnamese(&mut self)
        ensures
            final(self)@ == toggle_view(old(self)@),
    {
        self.enabled = !self.enabled;
        if !self.enabled {
            self.tracking = false;
        }
        proof {
            assert(self@ =~= toggle_view(old(self)@));
        }
    }

    /// Mirrors an OS-performed deletion, as [`pop_view`] describes: the
    /// OS owns the actual screen edit, this only keeps state consistent.
    pub fn pop(&mut self)
        ensures
            final(self)@ == pop_view(old(self)@),
    {
        if self.keys.len() > 0 {
            self.keys.pop();
        }
        if self.shown.len() > 0 {
            self.shown.pop();
        }
        proof {
            assert(self@ =~= pop_view(old(self)@));
        }
    }

    /// Mirrors a keystroke the OS itself typed on screen (the engine let
    /// it pass through): the shown string gains that character.
    pub fn record_passthrough(&mut self, c: char)
        ensures
            final(self)@ == (EngineView { shown: old(self)@.shown.push(c), ..old(self)@ }),
    {
        self.shown.push(c);
        proof {
            assert(self@ =~= (EngineView { shown: old(self)@.shown.push(c), ..old(self)@ }));
        }
    }

    /// True iff `c` is the buffer's last key, is a recognized trigger,
    /// and the keys before it contain a composable base pattern for it.
    /// Plain letters never satisfy this by themselves.
    pub fn should_transform_keys(&self, c: char) -> (r: bool)
        ensures
            r == should_transform_spec(self@.keys, c),
    {
        let n = self.keys.len();
        if n == 0 {
            return false;
        }
        if self.keys[n - 1] != c {
            return false;
        }
        if !is_trigger_key(c) {
            return false;
        }
        let prefix = render_prefix(&self.keys, n - 1);
        key_composes_now(&prefix, c)
    }

    /// Runs the composition over the full buffer and returns the
    /// candidate string, diacritics applied and case template re-applied.
    /// A trigger with no valid base pattern appears in it literally.
    pub fn transform_keys(&self) -> (out: Vec<char>)
        ensures
            out@ == candidate_spec(self@.keys),
    {
        compose_candidate(&self.keys)
    }

    /// True only if the candidate differs from what is on screen: no-op
    /// corrections are suppressed.
    pub fn should_send_keyboard_event(&self, candidate: &Vec<char>) -> (r: bool)
        ensures
            r == (candidate@ != self@.shown),
    {
        !char_vecs_equal(candidate, &self.shown)
    }

    /// How many trailing shown characters must be erased so the candidate
    /// reconstructs on screen: everything after the first point of
    /// divergence between the shown string and the candidate.
    pub fn get_backspace_count(&self) -> (n: usize)
        ensures
            n as int == self@.shown.len() - common_prefix_len(
                self@.shown,
                candidate_spec(self@.keys),
            ),
    {
        let cand = compose_candidate(&self.keys);
        let p = common_prefix(&self.shown, &cand);
        self.shown.len() - p
    }

    /// The characters to type after the backspaces: the candidate's tail
    /// from the first point of divergence on.
    pub fn divergent_suffix(&self, candidate: &Vec<char>) -> (r: Vec<char>)
        ensures
            r@ == candidate@.skip(common_prefix_len(self@.shown, candidate@) as int),
    {
        let p = common_prefix(&self.shown, candidate);
        seq_suffix(candidate, p)
    }

    /// Commits a successful injection: `shown` becomes the new string;
    /// subsequent pushes and backspace math are relative to it.
    pub fn replace(&mut self, shown: Vec<char>)
        ensures
            final(self)@ == (EngineView { shown: shown@, ..old(self)@ }),
    {
        let ghost s = shown@;
        self.shown = shown;
        proof {
            assert(self@ =~= (EngineView { shown: s, ..old(self)@ }));
        }
    }

    /// A copy of the raw keystroke buffer.
    pub fn buffer(&self) -> (r: Vec<char>)
        ensures
            r@ == self@.keys,
    {
        copy_chars(&self.keys)
    }

    /// A copy of the string currently shown for this word.
    pub fn rendered(&self) -> (r: Vec<char>)
        ensures
            r@ == self@.shown,
    {
        copy_chars(&self.shown)
    }
}

/// Copies a character vector.
fn copy_chars(v: &Vec<char>) -> (r: Vec<char>)
    ensures
        r@ == v@,
{
    let mut r: Vec<char> = Vec::new();
    let mut i: usize = 0;
    while i < v.len()
        invariant
            i <= v@.len(),
            r@ == v@.subrange(0, i as int),
        decreases v@.len() - i,
    {
        r.push(v[i]);
        proof {
            assert(v@.subrange(0, i as int + 1) =~= v@.subrange(0, i as int).push(v@[i as int]));
        }
        i += 1;
    }
    proof {
        assert(v@.subrange(0, v@.len() as int) =~= v@);
    }
    r
}

/// If the candidate equals the shown string, the backspace count is zero:
/// a no-op correction erases nothing (and, by the engine's send test, no
/// injection occurs at all).
pub proof fn lemma_noop_zero_backspaces(v: EngineView)
    requires
        candidate_spec(v.keys) == v.shown,
    ensures
        v.shown.len() - common_prefix_len(v.shown, candidate_spec(v.keys)) == 0,
{
    lemma_cpl_self(v.shown);
}

/// Word-boundary isolation: the state after a boundary is the same
/// whatever word came before it — only the mode flag carries over, so no
/// prior buffer can influence the next word's transformation.
pub proof fn lemma_word_boundary_isolation(before_a: EngineView, before_b: EngineView)
    requires
        before_a.enabled == before_b.enabled,
    ensures
        reset_view(before_a.enabled) == reset_view(before_b.enabled),
        reset_view(before_a.enabled).keys == Seq::<char>::empty(),
        reset_view(before_a.enabled).shown == Seq::<char>::empty(),
{
}

/// Disabling mid-word stops tracking immediately; re-enabling does not
/// resume it, and an untracked engine ignores every push, so characters
/// stay untouched until a boundary is seen after re-enabling.
pub proof fn lemma_disable_stops_tracking(v: EngineView)
    requires
        v.enabled,
    ensures
        !toggle_view(v).enabled,
        !toggle_view(v).tracking,
        toggle_view(toggle_view(v)).enabled,
        !toggle_view(toggle_view(v)).tracking,
        forall|c: char| push_view(toggle_view(v), c) == toggle_view(v),
        forall|c: char|
            push_view(toggle_view(toggle_view(v)), c) == toggle_view(toggle_view(v)),
{
}

} // verus!
