//! Core of a Telex-style Vietnamese input method.
//!
//! The crate models a per-syllable keystroke buffer and the composition rules
//! that turn plain Latin key sequences into accented Vietnamese text.  Every
//! decision the input method makes on a keystroke — whether a trigger key
//! composes a diacritic, what candidate string results, how many on-screen
//! characters must be erased, and whether the native key is suppressed — is a
//! verified function of the engine state and the key event.  The surrounding
//! program performs the platform work (key interception, synthetic input,
//! the indicator window) and merely carries out the actions decided here.

pub mod dispatch;
pub mod engine;
pub mod glyph;
pub mod telex;
