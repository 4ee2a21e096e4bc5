//! A message banner and an adapter that exposes its two renderings through
//! the `Print` capability interface.
pub mod banner;
pub mod print;
