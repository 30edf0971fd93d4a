//! Verified core of the COSMIC desktop tweaks tool: the decisions, layouts and
//! orderings behind its pages, with the windowing toolkit and file access left
//! to the program around it.

pub mod application;
pub mod color_schemes;
pub mod config;
pub mod grid;
pub mod icons;
pub mod ids;
pub mod keys;
pub mod nav;
pub mod pages;
pub mod shell;
pub mod sort_desc;
pub mod strings;
pub mod style;
pub mod tool;
pub mod time;
