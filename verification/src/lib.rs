//! A minimal text-editor core: a document state holding the text buffer,
//! the optionally bound file path, and the pin-to-top flag, together with
//! the Open / Save / Save-As transitions and the per-tick window hint.
//!
//! The GUI shell performs the actual dialogs and filesystem calls and hands
//! their outcomes to these transitions as plain values; every decision about
//! what the outcomes mean for the document state is made and verified here.

pub mod editor;
pub mod laws;
