use vstd::prelude::*;

pub mod archive;
pub mod bangumi;
pub mod comic_info;
pub mod filename_parser;
pub mod metadata;
pub mod pattern;
pub mod text;

verus! {
}
