//! A relay address kept as normalised text, with the two questions callers ask
//! of it: is the text a URI at all, and is it a URI a relay can be reached at.

pub mod laws;
pub mod relay;
pub mod text;
pub mod uri;
pub mod url;

pub use crate::url::Url;
