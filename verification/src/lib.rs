//! A three-pane JSON / TOML / YAML converter.
//!
//! The library holds the application's state and its conversion rule: the
//! pane that has the keyboard focus is authoritative, and whenever its text
//! parses, the other two panes are overwritten with the re-serialized
//! document, or with the serializer's error message in place of it. It also
//! holds the syntax highlighter's span assembly. The windowing and drawing
//! around it live outside the library.

pub mod app;
pub mod highlighter;
