//! Turns raw benchmark measurements into per-operation cost models and
//! decides where and with which record each generated artifact is written.

pub mod batch;
pub mod classify;
pub mod digits;
pub mod error;
pub mod fit;
pub mod group;
pub mod html_writer;
pub mod naming;
pub mod parameter;
pub mod plan;
pub mod project;
pub mod ready;
pub mod record;
pub mod report;
pub mod writer;
