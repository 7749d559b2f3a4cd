//! Document-serving core of a desktop PDF viewer: the per-worker document
//! cache, the request protocol between the manager and its workers, text
//! layout reconstruction, search indexing and annotation access.

pub mod annotation;
pub mod cache;
pub mod channel;
pub mod document;
pub mod errors;
pub mod geometry;
pub mod ident;
pub mod lifecycle;
pub mod manager;
pub mod metadata;
pub mod render;
pub mod service;
pub mod strings;
pub mod text;
pub mod worker;
