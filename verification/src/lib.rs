//! Single-line, redrawable command-line progress indicator with ANSI text
//! styling. The engine computes every rendered line, and the width needed to
//! blank the previous one, as plain character sequences; callers write those
//! sequences to their terminal.

pub mod strbuf;
pub mod text;
pub mod pbar;
