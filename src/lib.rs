//! URL shortening core: short-code generation, the resolution cache, and the
//! decisions of the create and resolve paths around a durable URL store.
pub mod cache;
pub mod code;
pub mod laws;
pub mod shortener;
pub mod url;
