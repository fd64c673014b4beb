//! Supersampled Wayland screenshots: the decisions, parsers and text that the
//! capture tool is built from, each with a machine-checked contract.

pub mod error;
pub mod text;
pub mod detect;
pub mod backend;
pub mod capture;
pub mod selection;
pub mod json;
pub mod live;
pub mod window;
pub mod cli;
