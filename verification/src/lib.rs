//! One reduction on the GPU, planned and sequenced in verified code.
//!
//! A run uploads a sequence of 32-bit words, dispatches a compute shader that
//! writes one word per workgroup, copies the words to a host-readable buffer
//! and reads them back. This library decides everything about such a run and
//! performs none of it: it sizes the dispatch ([`plan`]), writes the device
//! operations down as plain values ([`command`]) and hands them to the host
//! one by one, deciding after each report what comes next ([`executor`]).
//!
//! What is proved:
//! - the number of workgroups is the input length divided by the workgroup
//!   width, rounded up, and the output has one word per group ([`plan`]);
//! - every command uses only what the commands before it provide, for that
//!   use and within its size ([`ledger`]);
//! - the staging buffer is read only while it is mapped, and whatever the
//!   host reports, a view that was taken is released and the buffer unmapped
//!   before the run ends ([`staging`], [`run`]);
//! - a run in which the host grants everything ends with a result: the bytes
//!   of the mapped range as words, one for each group; a run that meets a
//!   fault ends with the fault and hands out nothing ([`run`]).

pub mod command;
pub mod executor;
pub mod ledger;
pub mod plan;
pub mod run;
pub mod staging;
pub mod words;
