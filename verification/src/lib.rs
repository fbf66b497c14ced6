//! The toolkit for projects typeset with the BSUIR report templates: lays a
//! project out, plans its build, and reads the documentation metadata and the
//! file references off its documents.
//!
//! The library decides and never acts. It works on plain values: names, paths
//! as text, what the caller found on disk, and parse trees. What it hands
//! back says what to do next.

pub mod commands;
pub mod text;
