//! A small themed command-line amusement: it maps a "mood" keyword to a
//! fixed catalog record (a color theme, a music suggestion, a tech stack and
//! a motto), renders the record as a decorated text block, and offers a few
//! side attractions: a pomodoro countdown, a scripted "godmode" animation,
//! three joke honeypot sequences, and a line-based interactive mood browser.
//!
//! This crate holds the verified core: the catalog and its case-insensitive
//! lookup, the fixed-priority mode dispatcher, the timer and browser state
//! machines, and the rendering of every output line. Reading the terminal,
//! printing, and sleeping between lines are left to the thin binary around it.

pub mod browser;
pub mod catalog;
pub mod dispatch;
pub mod paint;
pub mod picker;
pub mod present;
pub mod script;
pub mod text;
pub mod timer;
