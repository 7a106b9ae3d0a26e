//! Symmetric-cipher catalogue and error model for a handle-based binding to
//! libgcrypt: algorithm and mode codes, session flags, and the mapping from
//! native status codes to typed errors.

pub mod cipher;
pub mod error;
pub mod flags;

pub use cipher::{Algorithm, Mode};
pub use error::{check_status, Error, ErrorKind, Status};
pub use flags::Flags;
