//! Admission-control service core: a token-bucket gate with a periodic refill
//! scheduler, plus the pure request/response logic that the surrounding HTTP
//! layer delegates to (unit conversion, manifest evaluation, a display board,
//! and address-octet arithmetic).

pub mod board;
pub mod conversion;
pub mod gate;
pub mod ip;
pub mod manifest;
pub mod milk;
pub mod scheduler;
pub mod text;
