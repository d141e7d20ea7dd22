//! Shortcut parsing, display and key-grab decisions for a hold-to-talk
//! dictation app, with the index logic of its silence trimming.
pub mod text;
pub mod keys;
pub mod shortcut;
pub mod grab;
pub mod devices;
pub mod trim;
pub mod laws;
pub mod grab_laws;
