//! A word finder that draws random words from a word list and keeps those for which two
//! independently drawn numbers agree, together with the terminal layout that shows them.

pub mod controls;
pub mod found_word;
pub mod found_words;
pub mod options;
pub mod screen;
pub mod search;
pub mod text;
pub mod window;
