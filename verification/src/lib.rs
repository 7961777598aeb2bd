//! Decoder for ID3v2.4 metadata tags.

pub mod decoders;
pub mod errors;
pub mod flags;
pub mod frames;
pub mod genres;
pub mod ids;
pub mod outside;
pub mod parser;
pub mod people;
pub mod synchsafe;
pub mod tag;
pub mod text;
pub mod values;
