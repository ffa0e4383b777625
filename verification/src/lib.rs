//! Triple buffering: a single producer repeatedly publishes values that a
//! single consumer reads whenever it wants the latest one, without either
//! side ever waiting for the other.
//!
//! - `bits`: layout of the back-info word and of the next-indices byte.
//! - `status`: the control state as plain values, one method per transaction.
//! - `protocol`: who holds which buffer, and the laws of publishing and
//!   updating.
//! - `buffer`: a triple buffer with its producer (`Input`) and consumer
//!   (`Output`) handles.
//! - `shared_status`: the control state held in atomics, for a producer and a
//!   consumer that run in different threads.
//! - `owned`: a triple buffer whose writer and reader sides are driven through
//!   one owner.

pub mod bits;
pub mod status;
pub mod protocol;
pub mod buffer;
pub mod shared_status;
pub mod owned;
