//! An interactive log browser, split into a verified core and a thin shell.
//!
//! The core models a forward-only cursor over a remote, paginated log store
//! (`cursor`), the normalization applied to fetched messages (`text`), and
//! the single-flight, generation-counted state machine that merges keyboard
//! input and background fetch results into render state (`state`).

pub mod cursor;
pub mod state;
pub mod text;
