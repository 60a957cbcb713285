//! Core of an interactive screen-annotation engine: coordinate transforms
//! between viewport and image space under zoom and pan, the undo/redo history
//! of committed annotations, the tool state machines that turn input gestures
//! into annotation edits, the sketch-board orchestrator that routes events,
//! the render pipeline that composites annotations onto the base image, and
//! the action dispatcher that turns render results into side-effect requests.

pub mod config;
pub mod dispatch;
pub mod drawable;
pub mod history;
pub mod math;
pub mod rat;
pub mod relay;
pub mod render;
pub mod sketch_board;
pub mod tools;
pub mod style;
pub mod transform;
