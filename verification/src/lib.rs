//! Core of a searchable emoji picker.
//!
//! The library holds the picker's logic: a selection state machine (search
//! text, group, skin tone, and a derived filter tuple), substring search over
//! emoji names, version-cutoff filtering, skin-tone glyph resolution, and
//! pagination of the matches into fixed-width rows. The surrounding program
//! supplies the window, the clipboard and the command line.

pub mod data;
pub mod dataset;
pub mod grid;
pub mod state;
pub mod text;
