//! The logic of the MicroHub desktop app.
//!
//! MicroHub is a Shiny app in a desktop window. It ships with an R runtime, which it
//! unpacks on the first launch; it then starts R, waits until R serves the app, and
//! opens the app in its window. This library holds the decisions and computations of
//! that work; reading the disk, running programs and driving the window is left to
//! its callers.

pub mod command;
pub mod install;
pub mod install_action;
pub mod install_course;
pub mod job;
pub mod launch;
pub mod layout;
pub mod page;
pub mod payload;
pub mod places;
pub mod runtime_id;
pub mod search;
pub mod session_log;
pub mod startup;
pub mod text;
pub mod waiting;
