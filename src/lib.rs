//! Wraps a generated documentation page in site chrome in one streaming pass:
//! a head fragment, a vendored stylesheet before the generator's own
//! stylesheet, and a new `<body>` around the original body, which becomes a
//! `div` content wrapper.
mod engine;
pub mod laws;
pub mod plan;
pub mod rewrite;
