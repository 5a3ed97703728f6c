//! Core of a terminal system dashboard: bounded sample histories, metric
//! widgets, views with their key handling, the view registry and the adaptive
//! frame pacing of the render loop.
pub mod history;
pub mod widgets;
pub mod text;
pub mod views;
pub mod viewer;
pub mod pacing;
pub mod channels;
