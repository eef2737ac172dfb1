//! Core engine of a directory-view file manager: the entry data model, a
//! deterministic total ordering over heterogeneous filesystem entries, a
//! fixed-size grid layout, and the single-selection / rename / activation
//! interaction state machine. Rendering, filesystem access and config
//! persistence live outside this crate and talk to it through plain values.

pub mod button;
pub mod config;
pub mod dir_view;
pub mod dock;
pub mod fs;
pub mod grid;
pub mod ordering;
pub mod paths;
pub mod selection;
pub mod sidebar;
pub mod text;
