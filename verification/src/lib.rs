//! Status aggregation for a physical space: a base document, mutators that
//! project transport messages onto it, the render pass that recomputes the
//! served document, and the debounce machine that decides when to render.

pub mod badge;
pub mod debounce;
pub mod document;
pub mod laws;
pub mod makerspace;
pub mod metrics;
pub mod mutator;
pub mod status;
pub mod text;
