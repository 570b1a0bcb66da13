//! A verified translator from decoded DWARF debugging information into a
//! normalized item graph for binary size attribution.
//!
//! The input is the already-decoded content of a file's debugging sections:
//! for each compilation unit its header data, abbreviation table and raw
//! entry stream, together with the string table bytes and the decoded range
//! lists. The library walks each unit's entry tree depth-first, classifies
//! every entry by its structural tag, resolves its declared name from the
//! string table, computes its machine-code footprint from one of three
//! mutually exclusive address-range encodings, and accumulates the result
//! as a sequence of uniquely identified items.
//!
//! Extracting the section bytes from an object file container and decoding
//! the raw bytes into these typed values is the section loader's job and
//! lives outside this library.

pub mod attr;
pub mod cursor;
pub mod error;
pub mod item;
pub mod kind;
pub mod location;
pub mod name;
pub mod parse;
pub mod range_list;
pub mod text;
pub mod unit;
