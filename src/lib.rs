//! A personal media catalog: metadata parsers for lossless audio and e-book
//! containers, the album matcher, and the planning side of the library scan.
pub mod bytes;
pub mod text;
pub mod flac;
pub mod track;
pub mod search;
pub mod epub;
pub mod album;
pub mod catalog;
pub mod scanner;
pub mod model;
pub mod settings;
pub mod api;
