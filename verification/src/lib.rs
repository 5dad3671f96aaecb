//! Scans terminal-style lines of text for actionable tokens (paths, UUIDs,
//! content hashes, IPv4 addresses, URLs, hexadecimal addresses) and attaches a
//! short, unique, typable hint label to each occurrence, so a user can select
//! a token from the keyboard.

pub mod alphabets;
pub mod errors;
pub mod hints;
pub mod matching;
pub mod scanner;
pub mod state;

pub use errors::Error;
pub use matching::Match;
pub use state::State;
