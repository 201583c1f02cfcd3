//! Parameter resolution and orchestration for a two-stage extraction and
//! forecasting pipeline.

pub mod calendar;
pub mod catalog;
pub mod collector;
pub mod command;
pub mod confidence;
pub mod layout;
pub mod pipeline;
pub mod selection;
pub mod slug;
pub mod text;
