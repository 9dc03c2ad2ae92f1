//! Companion-tool core for a truck simulation game: profile names, install
//! resolution, content-package flags and save-state extraction.

pub mod install;
pub mod name_codec;
pub mod player;
pub mod save_parser;
pub mod text;
