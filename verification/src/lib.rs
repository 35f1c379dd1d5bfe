//! Splitting a PDF into per-page PNG images is delegated to an external
//! rasterizer; this library holds the logic around that call: the naming
//! convention that marks a page image as a two-page spread (`<N>.png` versus
//! `<N>s.png`), the rules for reverting and applying that convention, the
//! neighbor filter that decides which pages may become spreads, and the
//! control-flow decisions of a run.

pub mod flow;
pub mod names;
pub mod spreads;
