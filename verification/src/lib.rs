//! Window configuration for the `cava` visualizer: command-line arguments,
//! INI configuration files, the window settings derived from them, and the
//! paint styles of shapes.

pub mod cli;
pub mod config;
pub mod external_event;
pub mod ini;
pub mod style;
pub mod text;
