//! Vertex animation texture playback: the metadata model, its loading and
//! validation rules, and the playback decisions of the runtime.
pub mod asset;
pub mod components;
pub mod float_bits;
pub mod text;
pub mod validation;
pub mod metadata;
pub mod material;
pub mod playback;
pub mod laws;
pub mod rules;
