//! Decisions behind opening a window and preparing a GPU to draw one triangle.
//!
//! The crate holds no window and no device. It says which piece of outside
//! work comes next and with which parameters, what a failure means, and when
//! the window's event loop has to stop. A caller performs the work and reports
//! back what happened.

pub mod device;
pub mod event_loop;
pub mod pipeline;
pub mod setup;
pub mod surface;
