//! A small library for a repeating-key XOR file tool.
//!
//! The core is a keystream transform: a non-empty password supplies a cyclic
//! byte keystream, and each data byte is combined with the aligned keystream
//! byte by bitwise exclusive-or. The transform is involutive, so one function
//! serves both encryption and decryption. Around it sit a typed error for the
//! file-operation facade and an append-only session history with summary
//! counts and rendered display lines.

pub mod errors;
pub mod history;
pub mod transform;
