//! A window-lifecycle coordinator for a desktop shell: one primary window,
//! auxiliary windows that take its place, and transient popups.
pub mod window;
pub mod model;
pub mod action;
pub mod coordinator;
pub mod laws;
