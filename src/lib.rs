//! Exception propagation over a stack-unwinding ABI: a raised payload is wrapped
//! in an envelope that carries a producer tag and a validation marker, and a
//! catch boundary unwraps only the envelopes that this producer made.
pub mod boundary;
pub mod envelope;
pub mod guard;
pub mod tag;
