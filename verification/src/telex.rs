//! The Telex composition rules.
//!
//! A keystroke buffer is rendered left to right: each raw key either
//! composes with what stands before it (a tone key places a tone mark on
//! the vowel nucleus, a doubled vowel gains a circumflex, `w` adds a horn
//! or breve, a second `d` strokes the first) or is appended literally.
//! [`render_word`] is the mathematical model of that fold; [`candidate_spec`]
//! adds the per-syllable case template and yields the character sequence a
//! fully processed buffer displays as.

use vstd::prelude::*;

use crate::glyph::Glyph;
use crate::glyph::Shape;
use crate::glyph::Tone;
use crate::glyph::glyph_char;
use crate::glyph::is_ascii_upper;
use crate::glyph::is_vowel_base;
use crate::glyph::is_vowel_glyph;
use crate::glyph::literal_glyph;
use crate::glyph::lower_ascii;
use crate::glyph::spec_glyph_char;
use crate::glyph::spec_literal_glyph;
use crate::glyph::spec_lower_ascii;

verus! {

/// Whether `k` (a lowercase key) is one of the five tone triggers.
pub open spec fn is_tone_key(k: char) -> bool {
    k == 's' || k == 'f' || k == 'r' || k == 'x' || k == 'j'
}

/// The tone a tone trigger places; `Level` for any other key.
pub open spec fn tone_of_key(k: char) -> Tone {
    match k {
        's' => Tone::Acute,
        'f' => Tone::Grave,
        'r' => Tone::Hook,
        'x' => Tone::Tilde,
        'j' => Tone::Dot,
        _ => Tone::Level,
    }
}

/// Whether `c` is a recognized trigger: a tone key, a doubling vowel
/// (`a`, `e`, `o`), the horn/breve key `w`, or the stroke key `d`.
pub open spec fn is_trigger(c: char) -> bool {
    let k = spec_lower_ascii(c);
    is_tone_key(k) || k == 'a' || k == 'e' || k == 'o' || k == 'w' || k == 'd'
}

/// Index of the last vowel glyph strictly below position `n`, or -1.
pub open spec fn find_last_vowel(gs: Seq<Glyph>, n: int) -> int
    decreases n,
{
    if n <= 0 {
        -1
    } else if is_vowel_glyph(gs[n - 1]) {
        n - 1
    } else {
        find_last_vowel(gs, n - 1)
    }
}

/// Start of the maximal vowel run ending at `j` (every glyph in
/// `[result, j)` is a vowel and `result` is 0 or preceded by a non-vowel).
pub open spec fn vowel_run_start(gs: Seq<Glyph>, j: int) -> int
    decreases j,
{
    if j <= 0 {
        0
    } else if is_vowel_glyph(gs[j - 1]) {
        vowel_run_start(gs, j - 1)
    } else {
        j
    }
}

/// Start of the vowel nucleus: the vowel run ending at `j`, with the `u`
/// of an initial `qu` and the `i` of an initial `gi` excluded, as those
/// letters belong to the onset.
pub open spec fn nucleus_start(gs: Seq<Glyph>, j: int) -> int {
    let i0 = vowel_run_start(gs, j);
    if i0 < j && i0 > 0 && ((gs[i0 - 1].base == 'q' && gs[i0].base == 'u') || (gs[i0 - 1].base
        == 'g' && gs[i0].base == 'i')) {
        i0 + 1
    } else {
        i0
    }
}

/// Largest index in `[i, j]` whose glyph carries a shape modifier, or -1.
pub open spec fn find_last_shaped(gs: Seq<Glyph>, i: int, j: int) -> int
    decreases j - i + 1,
{
    if j < i {
        -1
    } else if gs[j].shape != Shape::Plain {
        j
    } else {
        find_last_shaped(gs, i, j - 1)
    }
}

/// The index of the vowel that hosts a tone mark, or -1 when the word has
/// no vowel.  Orthographic placement: a vowel that already carries a shape
/// modifier wins (the last such); otherwise a lone vowel hosts it itself,
/// a final two-vowel cluster puts it on the first, a non-final cluster on
/// the second, and a three-vowel cluster on the middle one.
pub open spec fn tone_target(gs: Seq<Glyph>) -> int {
    let j = find_last_vowel(gs, gs.len() as int);
    if j < 0 {
        -1
    } else {
        let i = nucleus_start(gs, j);
        let m = find_last_shaped(gs, i, j);
        if m >= 0 {
            m
        } else if j == i {
            j
        } else if j - i == 1 {
            if j == gs.len() - 1 {
                i
            } else {
                j
            }
        } else {
            i + 1
        }
    }
}

/// One step of the rendering fold: the effect of raw key `c` on the
/// glyphs rendered so far.  A key that composes nothing is appended as a
/// literal glyph, so the fold is total.
pub open spec fn spec_apply_key(gs: Seq<Glyph>, c: char) -> Seq<Glyph> {
    let k = spec_lower_ascii(c);
    let n = gs.len() as int;
    if is_tone_key(k) {
        let t = tone_target(gs);
        if t >= 0 && gs[t].tone != tone_of_key(k) {
            gs.update(t, Glyph { tone: tone_of_key(k), ..gs[t] })
        } else {
            gs.push(spec_literal_glyph(c))
        }
    } else if k == 'a' || k == 'e' || k == 'o' {
        if n > 0 && gs[n - 1].base == k && gs[n - 1].shape == Shape::Plain {
            gs.update(n - 1, Glyph { shape: Shape::Circumflex, ..gs[n - 1] })
        } else {
            gs.push(spec_literal_glyph(c))
        }
    } else if k == 'w' {
        if n >= 2 && gs[n - 2].base == 'u' && gs[n - 2].shape == Shape::Plain && gs[n - 1].base
            == 'o' && gs[n - 1].shape == Shape::Plain {
            gs.update(n - 2, Glyph { shape: Shape::Horn, ..gs[n - 2] }).update(
                n - 1,
                Glyph { shape: Shape::Horn, ..gs[n - 1] },
            )
        } else if n > 0 && gs[n - 1].shape == Shape::Plain && (gs[n - 1].base == 'a' || gs[n
            - 1].base == 'o' || gs[n - 1].base == 'u') {
            gs.update(
                n - 1,
                Glyph {
                    shape: if gs[n - 1].base == 'a' {
                        Shape::Breve
                    } else {
                        Shape::Horn
                    },
                    ..gs[n - 1]
                },
            )
        } else {
            gs.push(spec_literal_glyph(c))
        }
    } else if k == 'd' {
        if n > 0 && gs[n - 1].base == 'd' && gs[n - 1].shape == Shape::Plain {
            gs.update(n - 1, Glyph { shape: Shape::Stroke, ..gs[n - 1] })
        } else {
            gs.push(spec_literal_glyph(c))
        }
    } else {
        gs.push(spec_literal_glyph(c))
    }
}

/// Whether key `c` composes with the glyphs before it, rather than being
/// inserted literally.
pub open spec fn key_composes(gs: Seq<Glyph>, c: char) -> bool {
    spec_apply_key(gs, c) != gs.push(spec_literal_glyph(c))
}

/// The glyphs rendered by the first `n` keys of the buffer.
pub open spec fn render_upto(keys: Seq<char>, n: int) -> Seq<Glyph>
    decreases n,
{
    if n <= 0 {
        Seq::<Glyph>::empty()
    } else {
        spec_apply_key(render_upto(keys, n - 1), keys[n - 1])
    }
}

/// The glyphs the whole keystroke buffer renders as.
pub open spec fn render_word(keys: Seq<char>) -> Seq<Glyph> {
    render_upto(keys, keys.len() as int)
}

/// The case template of a syllable, read once from the casing of its
/// first keystrokes: all-caps when the first two are uppercase,
/// capitalized when only the first is, lowercase otherwise.
#[derive(Clone, Copy, PartialEq, Eq, Structural, Debug)]
pub enum CaseTemplate {
    Lowercase,
    Capitalized,
    AllCaps,
}

/// Derives the case template from the raw keystroke buffer.
pub open spec fn template_of(keys: Seq<char>) -> CaseTemplate {
    if keys.len() >= 1 && is_ascii_upper(keys[0]) {
        if keys.len() >= 2 && is_ascii_upper(keys[1]) {
            CaseTemplate::AllCaps
        } else {
            CaseTemplate::Capitalized
        }
    } else {
        CaseTemplate::Lowercase
    }
}

/// The first `n` glyphs with their case forced to uppercase.
pub open spec fn caps_upto(gs: Seq<Glyph>, n: int) -> Seq<Glyph>
    decreases n,
{
    if n <= 0 {
        Seq::<Glyph>::empty()
    } else {
        caps_upto(gs, n - 1).push(Glyph { upper: true, ..gs[n - 1] })
    }
}

/// Applies the case template.  `Lowercase` leaves every glyph with the
/// case its key was typed with; `Capitalized` forces the first glyph
/// uppercase; `AllCaps` forces every glyph uppercase.  The template only
/// ever raises case, so composition never lowercases what the user typed.
pub open spec fn apply_template(gs: Seq<Glyph>, t: CaseTemplate) -> Seq<Glyph> {
    match t {
        CaseTemplate::Lowercase => gs,
        CaseTemplate::Capitalized => if gs.len() > 0 {
            gs.update(0, Glyph { upper: true, ..gs[0] })
        } else {
            gs
        },
        CaseTemplate::AllCaps => caps_upto(gs, gs.len() as int),
    }
}

/// The characters displayed by the first `n` glyphs.
pub open spec fn glyph_string_upto(gs: Seq<Glyph>, n: int) -> Seq<char>
    decreases n,
{
    if n <= 0 {
        Seq::<char>::empty()
    } else {
        glyph_string_upto(gs, n - 1).push(spec_glyph_char(gs[n - 1]))
    }
}

/// The characters displayed by a glyph sequence.
pub open spec fn glyph_string(gs: Seq<Glyph>) -> Seq<char> {
    glyph_string_upto(gs, gs.len() as int)
}

/// The candidate string a keystroke buffer transforms into: the rendered
/// glyphs, under the buffer's case template, as characters.
pub open spec fn candidate_spec(keys: Seq<char>) -> Seq<char> {
    glyph_string(apply_template(render_word(keys), template_of(keys)))
}

/// Whether the buffer's last key is a trigger that composes with what was
/// typed before it — the condition under which the engine transforms.
pub open spec fn should_transform_spec(keys: Seq<char>, c: char) -> bool {
    &&& keys.len() > 0
    &&& keys.last() == c
    &&& is_trigger(c)
    &&& key_composes(render_upto(keys, keys.len() - 1), c)
}

/// Length of the common prefix of `a` and `b` from position `i` on.
pub open spec fn cpl_from(a: Seq<char>, b: Seq<char>, i: int) -> nat
    decreases a.len() - i,
{
    if 0 <= i && i < a.len() && i < b.len() && a[i] == b[i] {
        1 + cpl_from(a, b, i + 1)
    } else {
        0
    }
}

/// Length of the longest common prefix of `a` and `b`.
pub open spec fn common_prefix_len(a: Seq<char>, b: Seq<char>) -> nat {
    cpl_from(a, b, 0)
}

/// The common prefix is no longer than either sequence, and the two
/// sequences agree on it.
pub proof fn lemma_cpl_from_props(a: Seq<char>, b: Seq<char>, i: int)
    requires
        0 <= i <= a.len(),
        i <= b.len(),
    ensures
        i + cpl_from(a, b, i) <= a.len(),
        i + cpl_from(a, b, i) <= b.len(),
        forall|j: int| i <= j < i + cpl_from(a, b, i) ==> a[j] == b[j],
    decreases a.len() - i,
{
    if i < a.len() && i < b.len() && a[i] == b[i] {
        lemma_cpl_from_props(a, b, i + 1);
    }
}

/// When `a` is a prefix of `b`, the common prefix is all of `a`.
pub proof fn lemma_cpl_from_of_prefix(a: Seq<char>, b: Seq<char>, i: int)
    requires
        0 <= i <= a.len(),
        a.len() <= b.len(),
        forall|j: int| 0 <= j < a.len() ==> a[j] == b[j],
    ensures
        i + cpl_from(a, b, i) == a.len(),
    decreases a.len() - i,
{
    if i < a.len() {
        lemma_cpl_from_of_prefix(a, b, i + 1);
    }
}

/// A string shares its whole length as a prefix with itself.
pub proof fn lemma_cpl_self(a: Seq<char>)
    ensures
        common_prefix_len(a, a) == a.len(),
{
    lemma_cpl_from_of_prefix(a, a, 0);
}

/// Erasing down to the point of divergence and typing the candidate's
/// remainder reproduces the candidate exactly: what the screen shows after
/// the injection is the candidate string.
pub proof fn lemma_injection_reconstructs(shown: Seq<char>, cand: Seq<char>)
    ensures
        ({
            let p = common_prefix_len(shown, cand) as int;
            shown.take(p) + cand.skip(p) == cand
        }),
{
    lemma_cpl_from_props(shown, cand, 0);
    let p = common_prefix_len(shown, cand) as int;
    assert(shown.take(p) =~= cand.take(p));
    assert(cand.take(p) + cand.skip(p) =~= cand);
}

/// The rendering of the first `n` keys reads only those keys.
pub proof fn lemma_render_upto_prefix(a: Seq<char>, b: Seq<char>, n: int)
    requires
        0 <= n <= a.len(),
        n <= b.len(),
        forall|j: int| 0 <= j < n ==> a[j] == b[j],
    ensures
        render_upto(a, n) == render_upto(b, n),
    decreases n,
{
    if n > 0 {
        lemma_render_upto_prefix(a, b, n - 1);
    }
}

/// A key that does not compose is rendered as a literal glyph at the end
/// of the word.
pub proof fn lemma_untriggered_key_is_literal(keys: Seq<char>, c: char)
    requires
        !key_composes(render_word(keys), c),
    ensures
        render_word(keys.push(c)) == render_word(keys).push(spec_literal_glyph(c)),
{
    lemma_render_upto_prefix(keys, keys.push(c), keys.len() as int);
    assert(render_upto(keys.push(c), keys.len() as int + 1) == spec_apply_key(
        render_upto(keys.push(c), keys.len() as int),
        c,
    ));
}

/// In a buffer containing no trigger key, no keystroke along the way ever
/// satisfies the transformation condition: such a word is never
/// transformed.
pub proof fn lemma_no_trigger_no_transform(keys: Seq<char>)
    requires
        forall|i: int| 0 <= i < keys.len() ==> !is_trigger(keys[i]),
    ensures
        forall|i: int|
            0 <= i < keys.len() ==> !should_transform_spec(keys.take(i + 1), keys[i]),
{
    assert forall|i: int| 0 <= i < keys.len() implies !should_transform_spec(
        keys.take(i + 1),
        keys[i],
    ) by {
        assert(!is_trigger(keys[i]));
    }
}

/// The last-vowel search yields -1 or an index below `n`.
pub proof fn lemma_find_last_vowel_bounds(gs: Seq<Glyph>, n: int)
    requires
        0 <= n,
    ensures
        -1 <= find_last_vowel(gs, n) < n,
    decreases n,
{
    if n > 0 && !is_vowel_glyph(gs[n - 1]) {
        lemma_find_last_vowel_bounds(gs, n - 1);
    }
}

/// The vowel-run start lies between 0 and `j`.
pub proof fn lemma_vowel_run_start_bounds(gs: Seq<Glyph>, j: int)
    requires
        0 <= j,
    ensures
        0 <= vowel_run_start(gs, j) <= j,
    decreases j,
{
    if j > 0 && is_vowel_glyph(gs[j - 1]) {
        lemma_vowel_run_start_bounds(gs, j - 1);
    }
}

/// The last-shaped search yields -1 or an index in `[i, j]`.
pub proof fn lemma_find_last_shaped_bounds(gs: Seq<Glyph>, i: int, j: int)
    ensures
        find_last_shaped(gs, i, j) == -1 || i <= find_last_shaped(gs, i, j) <= j,
    decreases j - i + 1,
{
    if j >= i && gs[j].shape == Shape::Plain {
        lemma_find_last_shaped_bounds(gs, i, j - 1);
    }
}

/// The tone target is -1 or a valid index.
pub proof fn lemma_tone_target_bounds(gs: Seq<Glyph>)
    ensures
        -1 <= tone_target(gs) < gs.len(),
{
    lemma_find_last_vowel_bounds(gs, gs.len() as int);
    let j = find_last_vowel(gs, gs.len() as int);
    if j >= 0 {
        lemma_vowel_run_start_bounds(gs, j);
        let i = nucleus_start(gs, j);
        lemma_find_last_shaped_bounds(gs, i, j);
    }
}

/// One rendering step never shrinks the glyphs, grows them by at most
/// one, and produces one glyph from the first key.
pub proof fn lemma_apply_key_len(gs: Seq<Glyph>, c: char)
    ensures
        gs.len() <= spec_apply_key(gs, c).len() <= gs.len() + 1,
        gs.len() == 0 ==> spec_apply_key(gs, c).len() == 1,
{
    lemma_tone_target_bounds(gs);
}

/// A non-empty buffer renders to at least one glyph.
pub proof fn lemma_render_nonempty(keys: Seq<char>, n: int)
    requires
        1 <= n <= keys.len(),
    ensures
        render_upto(keys, n).len() >= 1,
    decreases n,
{
    lemma_apply_key_len(render_upto(keys, n - 1), keys[n - 1]);
    if n > 1 {
        lemma_render_nonempty(keys, n - 1);
    }
}

/// The first `n` uppercased glyphs read only the first `n` glyphs.
pub proof fn lemma_caps_upto_prefix(a: Seq<Glyph>, b: Seq<Glyph>, n: int)
    requires
        0 <= n <= a.len(),
        n <= b.len(),
        forall|j: int| 0 <= j < n ==> a[j] == b[j],
    ensures
        caps_upto(a, n) == caps_upto(b, n),
    decreases n,
{
    if n > 0 {
        lemma_caps_upto_prefix(a, b, n - 1);
    }
}

/// The first `n` displayed characters read only the first `n` glyphs.
pub proof fn lemma_glyph_string_upto_prefix(a: Seq<Glyph>, b: Seq<Glyph>, n: int)
    requires
        0 <= n <= a.len(),
        n <= b.len(),
        forall|j: int| 0 <= j < n ==> a[j] == b[j],
    ensures
        glyph_string_upto(a, n) == glyph_string_upto(b, n),
    decreases n,
{
    if n > 0 {
        lemma_glyph_string_upto_prefix(a, b, n - 1);
    }
}

/// Appending a glyph appends its character to the displayed string.
pub proof fn lemma_glyph_string_push(gs: Seq<Glyph>, g: Glyph)
    ensures
        glyph_string(gs.push(g)) == glyph_string(gs).push(spec_glyph_char(g)),
{
    lemma_glyph_string_upto_prefix(gs, gs.push(g), gs.len() as int);
}

/// Appending a glyph appends its uppercased form to the all-caps glyphs.
pub proof fn lemma_caps_push(gs: Seq<Glyph>, g: Glyph)
    ensures
        caps_upto(gs.push(g), gs.len() as int + 1) == caps_upto(gs, gs.len() as int).push(
            Glyph { upper: true, ..g },
        ),
{
    lemma_caps_upto_prefix(gs, gs.push(g), gs.len() as int);
}

/// Invalid-trigger fallback: a trigger key with no composable base
/// pattern is inserted literally — the new candidate is the old one with
/// one character appended — and, when the screen already shows the old
/// candidate, the backspace count is zero.
pub proof fn lemma_invalid_trigger_fallback(keys: Seq<char>, c: char, shown: Seq<char>)
    requires
        is_trigger(c),
        !key_composes(render_word(keys), c),
        shown == candidate_spec(keys),
    ensures
        render_word(keys.push(c)) == render_word(keys).push(spec_literal_glyph(c)),
        common_prefix_len(shown, candidate_spec(keys.push(c))) == shown.len(),
        shown.len() - common_prefix_len(shown, candidate_spec(keys.push(c))) == 0,
{
    lemma_untriggered_key_is_literal(keys, c);
    let gs = render_word(keys);
    let g = spec_literal_glyph(c);
    let t1 = template_of(keys);
    let t2 = template_of(keys.push(c));
    let cand = candidate_spec(keys.push(c));
    if keys.len() == 0 {
        assert(shown.len() == 0);
        assert(cpl_from(shown, cand, 0) == 0);
    } else {
        if keys.len() == 1 && is_ascii_upper(keys[0]) && is_ascii_upper(c) {
            // the template widens from capitalized to all-caps; the one
            // glyph already shown is uppercase either way
            assert(t1 == CaseTemplate::Capitalized);
            assert(t2 == CaseTemplate::AllCaps);
            assert(render_upto(keys, 0) =~= Seq::<Glyph>::empty());
            assert(gs == spec_apply_key(render_upto(keys, 0), keys[0]));
            lemma_apply_key_len(render_upto(keys, 0), keys[0]);
            assert(gs.len() == 1);
            let g0 = gs[0];
            let up0 = Glyph { upper: true, ..g0 };
            let upg = Glyph { upper: true, ..g };
            assert(apply_template(gs, t1) =~= seq![up0]);
            let x = gs.push(g);
            assert(caps_upto(x, 0) =~= Seq::<Glyph>::empty());
            assert(caps_upto(x, 1) =~= Seq::<Glyph>::empty().push(up0));
            assert(caps_upto(x, 2) =~= caps_upto(x, 1).push(upg));
            assert(caps_upto(gs.push(g), 2) =~= seq![up0, upg]);
            assert(seq![up0, upg] =~= seq![up0].push(upg));
            lemma_glyph_string_push(seq![up0], upg);
            assert(glyph_string_upto(seq![up0], 0) =~= Seq::<char>::empty());
            assert(glyph_string(seq![up0]) =~= seq![spec_glyph_char(up0)]);
            assert(cand == shown.push(spec_glyph_char(upg)));
        } else {
            assert(t2 == t1);
            match t1 {
                CaseTemplate::Lowercase => {
                    lemma_glyph_string_push(gs, g);
                    assert(cand == shown.push(spec_glyph_char(g)));
                },
                CaseTemplate::Capitalized => {
                    lemma_render_nonempty(keys, keys.len() as int);
                    let up0 = Glyph { upper: true, ..gs[0] };
                    assert(gs.push(g).update(0, up0) =~= gs.update(0, up0).push(g));
                    lemma_glyph_string_push(gs.update(0, up0), g);
                    assert(cand == shown.push(spec_glyph_char(g)));
                },
                CaseTemplate::AllCaps => {
                    lemma_caps_push(gs, g);
                    lemma_glyph_string_push(
                        caps_upto(gs, gs.len() as int),
                        Glyph { upper: true, ..g },
                    );
                    assert(cand == shown.push(spec_glyph_char(Glyph { upper: true, ..g })));
                },
            }
        }
        lemma_cpl_from_of_prefix(shown, cand, 0);
    }
}

/// The candidate is a pure function of the keystroke buffer: transforming
/// an unchanged buffer twice yields the identical string.
pub proof fn lemma_transform_idempotent(keys: Seq<char>, first: Seq<char>, second: Seq<char>)
    requires
        first == candidate_spec(keys),
        second == candidate_spec(keys),
    ensures
        first == second,
{
}

/// Executable trigger test.
pub fn is_trigger_key(c: char) -> (r: bool)
    ensures
        r == is_trigger(c),
{
    let k = lower_ascii(c);
    k == 's' || k == 'f' || k == 'r' || k == 'x' || k == 'j' || k == 'a' || k == 'e' || k == 'o'
        || k == 'w' || k == 'd'
}

/// Executable vowel test on a base letter.
pub fn is_vowel_char(c: char) -> (r: bool)
    ensures
        r == is_vowel_base(c),
{
    c == 'a' || c == 'e' || c == 'i' || c == 'o' || c == 'u' || c == 'y'
}

/// Executable counterpart of [`tone_of_key`].
fn tone_key_tone(k: char) -> (t: Tone)
    ensures
        t == tone_of_key(k),
{
    match k {
        's' => Tone::Acute,
        'f' => Tone::Grave,
        'r' => Tone::Hook,
        'x' => Tone::Tilde,
        'j' => Tone::Dot,
        _ => Tone::Level,
    }
}

/// Executable counterpart of [`tone_target`].
pub fn tone_target_index(gs: &Vec<Glyph>) -> (r: Option<usize>)
    ensures
        match r {
            Some(t) => tone_target(gs@) == t as int && (t as int) < gs@.len(),
            None => tone_target(gs@) == -1,
        },
{
    let len = gs.len();
    let mut n: usize = len;
    while n > 0 && !is_vowel_char(gs[n - 1].base)
        invariant
            n <= len,
            len == gs@.len(),
            find_last_vowel(gs@, len as int) == find_last_vowel(gs@, n as int),
        decreases n,
    {
        n -= 1;
    }
    if n == 0 {
        return None;
    }
    let j = n - 1;
    assert(find_last_vowel(gs@, len as int) == j as int);
    let mut i: usize = j;
    while i > 0 && is_vowel_char(gs[i - 1].base)
        invariant
            i <= j,
            j < len,
            len == gs@.len(),
            vowel_run_start(gs@, j as int) == vowel_run_start(gs@, i as int),
        decreases i,
    {
        i -= 1;
    }
    assert(vowel_run_start(gs@, j as int) == i as int);
    let nuc: usize = if i < j && i > 0 && ((gs[i - 1].base == 'q' && gs[i].base == 'u') || (gs[i
        - 1].base == 'g' && gs[i].base == 'i')) {
        i + 1
    } else {
        i
    };
    assert(nucleus_start(gs@, j as int) == nuc as int);
    let mut t: usize = j + 1;
    let mut shaped: Option<usize> = None;
    while t > nuc && shaped.is_none()
        invariant
            nuc <= t <= j + 1,
            j < len,
            len == gs@.len(),
            match shaped {
                Some(s) => nuc <= s <= j && find_last_shaped(gs@, nuc as int, j as int)
                    == s as int,
                None => find_last_shaped(gs@, nuc as int, j as int) == find_last_shaped(
                    gs@,
                    nuc as int,
                    t as int - 1,
                ),
            },
        decreases t,
    {
        if gs[t - 1].shape != Shape::Plain {
            shaped = Some(t - 1);
        }
        t -= 1;
    }
    match shaped {
        Some(m) => Some(m),
        None => {
            assert(find_last_shaped(gs@, nuc as int, j as int) == -1);
            if j == nuc {
                Some(j)
            } else if j - nuc == 1 {
                if j == len - 1 {
                    Some(nuc)
                } else {
                    Some(j)
                }
            } else {
                Some(nuc + 1)
            }
        },
    }
}

/// Executable test of [`key_composes`]: whether the next key would
/// compose rather than insert literally.
#[verifier::rlimit(60)]
pub fn key_composes_now(gs: &Vec<Glyph>, c: char) -> (r: bool)
    ensures
        r == key_composes(gs@, c),
{
    let k = lower_ascii(c);
    let n = gs.len();
    if k == 's' || k == 'f' || k == 'r' || k == 'x' || k == 'j' {
        let tn = tone_key_tone(k);
        match tone_target_index(gs) {
            Some(ti) => {
                if gs[ti].tone != tn {
                    proof {
                        assert(spec_apply_key(gs@, c).len() == gs@.len());
                    }
                    true
                } else {
                    false
                }
            },
            None => false,
        }
    } else if k == 'a' || k == 'e' || k == 'o' {
        let compose = n > 0 && gs[n - 1].base == k && gs[n - 1].shape == Shape::Plain;
        if compose {
            proof {
                assert(spec_apply_key(gs@, c).len() == gs@.len());
            }
        }
        compose
    } else if k == 'w' {
        let pair = n >= 2 && gs[n - 2].base == 'u' && gs[n - 2].shape == Shape::Plain && gs[n
            - 1].base == 'o' && gs[n - 1].shape == Shape::Plain;
        let single = !pair && n > 0 && gs[n - 1].shape == Shape::Plain && (gs[n - 1].base == 'a'
            || gs[n - 1].base == 'o' || gs[n - 1].base == 'u');
        if pair || single {
            proof {
                assert(spec_apply_key(gs@, c).len() == gs@.len());
            }
        }
        pair || single
    } else if k == 'd' {
        let compose = n > 0 && gs[n - 1].base == 'd' && gs[n - 1].shape == Shape::Plain;
        if compose {
            proof {
                assert(spec_apply_key(gs@, c).len() == gs@.len());
            }
        }
        compose
    } else {
        false
    }
}

/// Executable counterpart of [`spec_apply_key`]: folds one raw key into
/// the rendered glyphs.
pub fn apply_key(gs: &mut Vec<Glyph>, c: char)
    ensures
        final(gs)@ == spec_apply_key(old(gs)@, c),
{
    let k = lower_ascii(c);
    let n = gs.len();
    if k == 's' || k == 'f' || k == 'r' || k == 'x' || k == 'j' {
        let tn = tone_key_tone(k);
        match tone_target_index(gs) {
            Some(ti) => {
                if gs[ti].tone != tn {
                    let g = gs[ti];
                    gs[ti] = Glyph { tone: tn, ..g };
                } else {
                    gs.push(literal_glyph(c));
                }
            },
            None => gs.push(literal_glyph(c)),
        }
    } else if k == 'a' || k == 'e' || k == 'o' {
        let compose = n > 0 && gs[n - 1].base == k && gs[n - 1].shape == Shape::Plain;
        if compose {
            let g = gs[n - 1];
            gs[n - 1] = Glyph { shape: Shape::Circumflex, ..g };
        } else {
            gs.push(literal_glyph(c));
        }
    } else if k == 'w' {
        let pair = n >= 2 && gs[n - 2].base == 'u' && gs[n - 2].shape == Shape::Plain && gs[n
            - 1].base == 'o' && gs[n - 1].shape == Shape::Plain;
        if pair {
            let gu = gs[n - 2];
            gs[n - 2] = Glyph { shape: Shape::Horn, ..gu };
            let go = gs[n - 1];
            gs[n - 1] = Glyph { shape: Shape::Horn, ..go };
        } else {
            let single = n > 0 && gs[n - 1].shape == Shape::Plain && (gs[n - 1].base == 'a' || gs[n
                - 1].base == 'o' || gs[n - 1].base == 'u');
            if single {
                let g = gs[n - 1];
                let shape = if g.base == 'a' {
                    Shape::Breve
                } else {
                    Shape::Horn
                };
                gs[n - 1] = Glyph { shape, ..g };
            } else {
                gs.push(literal_glyph(c));
            }
        }
    } else if k == 'd' {
        let compose = n > 0 && gs[n - 1].base == 'd' && gs[n - 1].shape == Shape::Plain;
        if compose {
            let g = gs[n - 1];
            gs[n - 1] = Glyph { shape: Shape::Stroke, ..g };
        } else {
            gs.push(literal_glyph(c));
        }
    } else {
        gs.push(literal_glyph(c));
    }
}

/// Renders the first `n` keys of the buffer into glyphs.
pub fn render_prefix(keys: &Vec<char>, n: usize) -> (gs: Vec<Glyph>)
    requires
        n <= keys@.len(),
    ensures
        gs@ == render_upto(keys@, n as int),
{
    let mut gs: Vec<Glyph> = Vec::new();
    let mut idx: usize = 0;
    while idx < n
        invariant
            idx <= n,
            n <= keys@.len(),
            gs@ == render_upto(keys@, idx as int),
        decreases n - idx,
    {
        apply_key(&mut gs, keys[idx]);
        idx += 1;
    }
    gs
}

/// Executable counterpart of [`template_of`].
pub fn template_of_keys(keys: &Vec<char>) -> (t: CaseTemplate)
    ensures
        t == template_of(keys@),
{
    if keys.len() >= 1 && 'A' <= keys[0] && keys[0] <= 'Z' {
        if keys.len() >= 2 && 'A' <= keys[1] && keys[1] <= 'Z' {
            CaseTemplate::AllCaps
        } else {
            CaseTemplate::Capitalized
        }
    } else {
        CaseTemplate::Lowercase
    }
}

/// Runs the full composition over a keystroke buffer and produces the
/// candidate string: rendered glyphs, case template, characters.
pub fn compose_candidate(keys: &Vec<char>) -> (out: Vec<char>)
    ensures
        out@ == candidate_spec(keys@),
{
    let gs = render_prefix(keys, keys.len());
    let t = template_of_keys(keys);
    let shaped: Vec<Glyph> = match t {
        CaseTemplate::Lowercase => gs,
        CaseTemplate::Capitalized => {
            let mut gs2 = gs;
            if gs2.len() > 0 {
                let g = gs2[0];
                gs2[0] = Glyph { upper: true, ..g };
            }
            gs2
        },
        CaseTemplate::AllCaps => {
            let mut gs2: Vec<Glyph> = Vec::new();
            let mut i: usize = 0;
            while i < gs.len()
                invariant
                    i <= gs@.len(),
                    gs2@ == caps_upto(gs@, i as int),
                decreases gs@.len() - i,
            {
                let g = gs[i];
                gs2.push(Glyph { upper: true, ..g });
                i += 1;
            }
            gs2
        },
    };
    assert(shaped@ == apply_template(render_word(keys@), template_of(keys@)));
    let mut out: Vec<char> = Vec::new();
    let mut i: usize = 0;
    while i < shaped.len()
        invariant
            i <= shaped@.len(),
            out@ == glyph_string_upto(shaped@, i as int),
        decreases shaped@.len() - i,
    {
        out.push(glyph_char(shaped[i]));
        i += 1;
    }
    out
}

/// Length of the longest common prefix of two character vectors.
pub fn common_prefix(a: &Vec<char>, b: &Vec<char>) -> (p: usize)
    ensures
        p == common_prefix_len(a@, b@),
        p <= a@.len(),
        p <= b@.len(),
{
    let min: usize = if a.len() < b.len() {
        a.len()
    } else {
        b.len()
    };
    let mut i: usize = min;
    let mut r: usize = 0;
    while i > 0
        invariant
            i <= min,
            min <= a@.len(),
            min <= b@.len(),
            min == if a@.len() < b@.len() {
                a@.len()
            } else {
                b@.len()
            },
            r == cpl_from(a@, b@, i as int),
            r <= min - i,
        decreases i,
    {
        if a[i - 1] == b[i - 1] {
            r = r + 1;
        } else {
            r = 0;
        }
        i -= 1;
    }
    r
}

/// Copies the tail of `v` from position `start` on.
pub fn seq_suffix(v: &Vec<char>, start: usize) -> (r: Vec<char>)
    requires
        start <= v@.len(),
    ensures
        r@ == v@.skip(start as int),
{
    let mut r: Vec<char> = Vec::new();
    let mut i: usize = start;
    while i < v.len()
        invariant
            start <= i <= v@.len(),
            r@ == v@.subrange(start as int, i as int),
        decreases v@.len() - i,
    {
        r.push(v[i]);
        proof {
            assert(v@.subrange(start as int, i as int + 1) =~= v@.subrange(
                start as int,
                i as int,
            ).push(v@[i as int]));
        }
        i += 1;
    }
    proof {
        assert(v@.subrange(start as int, v@.len() as int) =~= v@.skip(start as int));
    }
    r
}

/// Compares two character vectors for equality of contents.
pub fn char_vecs_equal(a: &Vec<char>, b: &Vec<char>) -> (r: bool)
    ensures
        r == (a@ == b@),
{
    if a.len() != b.len() {
        return false;
    }
    let mut i: usize = 0;
    while i < a.len()
        invariant
            i <= a@.len(),
            a@.len() == b@.len(),
            forall|j: int| 0 <= j < i ==> a@[j] == b@[j],
        decreases a@.len() - i,
    {
        if a[i] != b[i] {
            assert(a@ != b@) by {
                if a@ == b@ {
                    assert(a@[i as int] == b@[i as int]);
                }
            }
            return false;
        }
        i += 1;
    }
    proof {
        assert(a@ =~= b@);
    }
    true
}

} // verus!
