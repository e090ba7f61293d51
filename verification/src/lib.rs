//! A pool that runs one external command a fixed number of times, a bounded
//! number of runs at a time.
//!
//! The library decides and counts; it starts no process and prints nothing.
//! A caller asks the [`pool`] what to do next, carries it out, classifies
//! what came back from each process with [`outcome`], and hands the result
//! to the pool, which keeps the [`stats`] of the run. The module [`run`]
//! proves what holds of every run, whatever the order in which its tasks
//! finish.

pub mod command;
pub mod elapsed;
pub mod notice;
pub mod outcome;
pub mod pool;
pub mod render;
pub mod run;
pub mod stats;
pub mod text;
