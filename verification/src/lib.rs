//! Verified core of a Counter-Strike 2 overlay: the settings it keeps, the
//! decisions it takes while walking the game's entity list, and the text
//! handling of names it reads from the game.

pub mod settings;
pub mod text;
pub mod names;
pub mod offsets;
pub mod memory;
pub mod bones;
pub mod entity;
pub mod scan;
pub mod control;
pub mod overlay;
pub mod trigger;
