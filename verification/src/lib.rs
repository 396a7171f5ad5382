//! Concurrency and lifecycle primitives around an instrumented reader/writer
//! lock: a watchdog that diagnoses acquisitions which block past a grace
//! period, a record of the most recent successful acquisition, a scope-bound
//! cleanup guard, and path-normalization helpers.

pub mod cleanup;
pub mod clock;
pub mod lock;
pub mod model;
pub mod paths;
pub mod report;
pub mod stack;
pub mod timefmt;
pub mod watchdog;
