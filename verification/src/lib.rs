//! Parsing and re-rendering of MMOLB game event messages.

pub mod text;
pub mod enums;
pub mod attributes;
pub mod innings;
pub mod time;
pub mod places;
pub mod stats;
pub mod parsed_event;
pub mod game;
pub mod reader;
pub mod parsing;
pub mod records;
pub mod feed;
pub mod feed_parsing;

