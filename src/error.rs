use vstd::prelude::*;

verus! {

/// Mask selecting the error code out of a native status; the bits above it
/// name the component the error came from.
pub const CODE_MASK: u32 = 0xffff;

/// Native status value (`gcry_error_t`): zero is success.
pub type Status = u32;

/// The error code carried by a status.
pub open spec fn code_of(status: u32) -> u32 {
    status & CODE_MASK
}

/// Broad category of a native failure.
#[derive(Debug, Clone, Copy, PartialEq, Eq, Structural)]
pub enum ErrorKind {
    /// Unspecified failure.
    General,
    /// The key has the wrong length for the algorithm.
    InvalidKeyLength,
    /// The key is a known weak key of the algorithm.
    WeakKey,
    /// An IV, nonce, counter, tag or data length does not fit the mode.
    InvalidLength,
    /// The output buffer is smaller than the operation needs.
    BufferTooShort,
    /// The operation is not allowed in the session's current state.
    InvalidState,
    /// The algorithm, mode or flag combination is not supported.
    Unsupported,
    /// An argument was rejected.
    InvalidArgument,
    /// The authentication tag did not match.
    TagMismatch,
    /// The native library could not allocate memory.
    OutOfMemory,
    /// Any other code.
    Other,
}

/// Error codes of libgpg-error that the categories are built from.
pub const ERR_GENERAL: u32 = 1;
pub const ERR_CHECKSUM: u32 = 10;
pub const ERR_CIPHER_ALGO: u32 = 12;
pub const ERR_WEAK_KEY: u32 = 43;
pub const ERR_INV_KEYLEN: u32 = 44;
pub const ERR_INV_ARG: u32 = 45;
pub const ERR_INV_VALUE: u32 = 55;
pub const ERR_NOT_SUPPORTED: u32 = 60;
pub const ERR_INV_CIPHER_MODE: u32 = 71;
pub const ERR_INV_FLAG: u32 = 72;
pub const ERR_INV_LENGTH: u32 = 139;
pub const ERR_INV_STATE: u32 = 156;
pub const ERR_BUFFER_TOO_SHORT: u32 = 200;
/// `GPG_ERR_SYSTEM_ERROR | 86`: the code for `ENOMEM`.
pub const ERR_ENOMEM: u32 = 32854;

/// The category of an error code.
pub open spec fn kind_of_code(code: u32) -> ErrorKind {
    if code == ERR_GENERAL {
        ErrorKind::General
    } else if code == ERR_INV_KEYLEN {
        ErrorKind::InvalidKeyLength
    } else if code == ERR_WEAK_KEY {
        ErrorKind::WeakKey
    } else if code == ERR_INV_LENGTH {
        ErrorKind::InvalidLength
    } else if code == ERR_BUFFER_TOO_SHORT {
        ErrorKind::BufferTooShort
    } else if code == ERR_INV_STATE {
        ErrorKind::InvalidState
    } else if code == ERR_CIPHER_ALGO || code == ERR_INV_CIPHER_MODE || code == ERR_NOT_SUPPORTED
        || code == ERR_INV_FLAG {
        ErrorKind::Unsupported
    } else if code == ERR_INV_ARG || code == ERR_INV_VALUE {
        ErrorKind::InvalidArgument
    } else if code == ERR_CHECKSUM {
        ErrorKind::TagMismatch
    } else if code == ERR_ENOMEM {
        ErrorKind::OutOfMemory
    } else {
        ErrorKind::Other
    }
}

/// A failed native call: holds its status unchanged, which is never zero.
#[derive(Debug, Clone, Copy, PartialEq, Eq)]
pub struct Error {
    raw: u32,
}

impl View for Error {
    type V = u32;

    closed spec fn view(&self) -> u32 {
        self.raw
    }
}

impl Error {
    #[verifier::type_invariant]
    spec fn inv(&self) -> bool {
        self.raw != 0
    }

    /// The error for a status, or `None` where the status is success.
    pub fn from_raw(raw: Status) -> (r: Option<Error>)
        ensures
            r is None <==> raw == 0,
            r matches Some(e) ==> e@ == raw,
    {
        if raw == 0 {
            None
        } else {
            Some(Error { raw })
        }
    }

    /// The status exactly as the native call returned it.
    pub fn raw(&self) -> (r: Status)
        ensures
            r == self@,
            r != 0,
    {
        proof {
            use_type_invariant(self);
        }
        self.raw
    }

    /// The error code, without the bits naming its source.
    pub fn code(&self) -> (r: u32)
        ensures
            r == code_of(self@),
    {
        self.raw & CODE_MASK
    }

    /// The category of the error.
    pub fn kind(&self) -> (r: ErrorKind)
        ensures
            r == kind_of_code(code_of(self@)),
    {
        let code = self.code();
        if code == ERR_GENERAL {
            ErrorKind::General
        } else if code == ERR_INV_KEYLEN {
            ErrorKind::InvalidKeyLength
        } else if code == ERR_WEAK_KEY {
            ErrorKind::WeakKey
        } else if code == ERR_INV_LENGTH {
            ErrorKind::InvalidLength
        } else if code == ERR_BUFFER_TOO_SHORT {
            ErrorKind::BufferTooShort
        } else if code == ERR_INV_STATE {
            ErrorKind::InvalidState
        } else if code == ERR_CIPHER_ALGO || code == ERR_INV_CIPHER_MODE || code
            == ERR_NOT_SUPPORTED || code == ERR_INV_FLAG {
            ErrorKind::Unsupported
        } else if code == ERR_INV_ARG || code == ERR_INV_VALUE {
            ErrorKind::InvalidArgument
        } else if code == ERR_CHECKSUM {
            ErrorKind::TagMismatch
        } else if code == ERR_ENOMEM {
            ErrorKind::OutOfMemory
        } else {
            ErrorKind::Other
        }
    }
}

/// Turns the status of a native call into a result: success only for zero,
/// and otherwise an error that carries the status unmodified.
pub fn check_status(status: Status) -> (r: Result<(), Error>)
    ensures
        r is Ok <==> status == 0,
        r matches Err(e) ==> e@ == status,
{
    match Error::from_raw(status) {
        None => Ok(()),
        Some(e) => Err(e),
    }
}

} // verus!
