//! Core library of a VVVF sound editor: user-editable piecewise-linear
//! curves (volume and pitch as functions of speed), the project state that
//! groups them per audio clip, and an integer-sample loop-mixing engine.
//!
//! Curve coordinates are fixed-point integers (`curve::UNIT` stands for 1.0)
//! and evaluation results are exact rationals, so every contract in this
//! crate is exact.

pub mod app_action;
pub mod audio;
pub mod audio_entry;
pub mod curve;
pub mod editable_func;
pub mod editable_function;
pub mod expression;
pub mod file_registory;
pub mod laws;
pub mod player_state;
pub mod preference;
pub mod project_state;
pub mod saved;
pub mod selection_cursor;
pub mod train_performance;
pub mod ui_function_edit;
pub mod wrappers;

pub use curve::COORD_LIMIT;
pub use curve::CurveVal;
pub use curve::CurveValue;
pub use curve::UNIT;
