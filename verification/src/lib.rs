//! Vietnamese text with precomposed diacritics, spelled out in Telex.
//!
//! Telex is a way to type Vietnamese with ASCII letters alone: a word is
//! typed with the base letter of each of its letters, and the marks and the
//! tone follow as keys (`d`, `o`, `e`, `a`, `w` for marks; `f`, `s`, `r`,
//! `x`, `j` for tones). [`viet_telex`] turns a text into what one would type:
//! `"Đà Nẵng"` becomes `"Dadf Nangxw"`.
//!
//! - [`letter`]: the alphabet, and what each letter is made of;
//! - [`state`]: what is collected while a word is read, and the keys that
//!   end the word;
//! - [`to_telex`]: the transcoder, with [`to_telex::telex`] as the exact
//!   meaning of [`viet_telex`];
//! - [`laws`]: what holds of every text, proved from these.
pub mod laws;
pub mod letter;
pub mod state;
pub mod to_telex;

pub use to_telex::{viet_telex, VietTelex};
