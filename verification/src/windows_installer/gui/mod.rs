//! The state of the graphical installer that does not depend on the
//! toolkit: window titles and the settings screen.
pub mod app;
pub mod flow;
pub mod settings_screen;
