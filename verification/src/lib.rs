//! A fixed-size-page store over a flat backing file.
//!
//! The backing file is held as a byte image. [`page::Pager`] maps page
//! numbers to byte offsets in that image and performs whole-page exact reads
//! and writes; [`database::Database`] puts an open/closed lifecycle in front
//! of it. Every function is verified against a mathematical model of the
//! file: a sequence of bytes in which page `i` occupies the byte range
//! `[i * page_size, (i + 1) * page_size)`.

pub mod backing;
pub mod config;
pub mod database;
pub mod page;
