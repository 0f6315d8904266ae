//! Task-graph compilation, output validation, single-flight lookup
//! bookkeeping and streaming-delta merging for declarative functions.

pub mod decimal;
pub mod input;
pub mod expression;
pub mod task;
pub mod function;
pub mod streaming;
pub mod single_flight;
pub mod unary;
pub mod prefixed_id;
