//! The decisions of MemHover, a memory monitor for the Windows taskbar.
//!
//! While the cursor hovers over an application icon on the taskbar, an overlay shows the
//! working set and the private commit of all processes of that application. This crate holds
//! what the program decides and computes; the calls to the system are made around it.
//!
//! - [`poll`] goes from the position of the cursor to what becomes of the overlay,
//! - [`taskbar`] tells the windows of the taskbar from others,
//! - [`title_match`] finds the window that a taskbar icon stands for,
//! - [`telemetry`] sums up the memory of a program,
//! - [`mebibytes`] puts byte counts into words,
//! - [`tooltip`] lays out and paints the overlay,
//! - [`messages`] and [`tray`] serve the program's own windows and its tray icon,
//! - [`text`] and [`utf16`] are about strings,
//! - [`laws`] says what holds of every call of these functions.
pub mod laws;
pub mod mebibytes;
pub mod messages;
pub mod poll;
pub mod taskbar;
pub mod telemetry;
pub mod text;
pub mod title_match;
pub mod tooltip;
pub mod tray;
pub mod utf16;
