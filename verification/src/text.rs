//! Text extraction: layout reconstruction and search.

pub mod search;
pub mod selection;
