//! Helpers for operating-system calls that hand back variable-length data
//! through a caller-supplied buffer: telling a missing item apart from a real
//! failure, and the probe-then-fill protocol that sizes the buffer.
pub mod sized;
pub mod noattr;
