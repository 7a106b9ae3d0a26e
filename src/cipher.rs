use libc::c_int;
use std::str::Utf8Error;
use vstd::prelude::*;
use vstd::string::StringSliceAdditionalSpecFns;
use vstd::utf8::valid_utf8;

verus! {

/// A cipher algorithm, identified by libgcrypt's numeric code for it.
#[allow(non_camel_case_types)]
#[derive(Debug, Clone, Copy, PartialEq, Eq, Hash, Structural)]
pub enum Algorithm {
    Idea,
    TripleDes,
    Cast5,
    Blowfish,
    SaferSk128,
    DesSk,
    Aes,
    Aes192,
    Aes256,
    Twofish,
    Arcfour,
    Des,
    Twofish128,
    Serpent128,
    Serpent192,
    Serpent256,
    Rfc2268_40,
    Rfc2268_128,
    Seed,
    Camellia128,
    Camellia192,
    Camellia256,
    Salsa20,
    Salsa20r12,
    Gost28147,
    Chacha20,
    Gost28147Mesh,
    Sm4,
}

impl Algorithm {
    /// libgcrypt's code for the algorithm.
    pub open spec fn code(self) -> c_int {
        match self {
            Algorithm::Idea => 1,
            Algorithm::TripleDes => 2,
            Algorithm::Cast5 => 3,
            Algorithm::Blowfish => 4,
            Algorithm::SaferSk128 => 5,
            Algorithm::DesSk => 6,
            Algorithm::Aes => 7,
            Algorithm::Aes192 => 8,
            Algorithm::Aes256 => 9,
            Algorithm::Twofish => 10,
            Algorithm::Arcfour => 301,
            Algorithm::Des => 302,
            Algorithm::Twofish128 => 303,
            Algorithm::Serpent128 => 304,
            Algorithm::Serpent192 => 305,
            Algorithm::Serpent256 => 306,
            Algorithm::Rfc2268_40 => 307,
            Algorithm::Rfc2268_128 => 308,
            Algorithm::Seed => 309,
            Algorithm::Camellia128 => 310,
            Algorithm::Camellia192 => 311,
            Algorithm::Camellia256 => 312,
            Algorithm::Salsa20 => 313,
            Algorithm::Salsa20r12 => 314,
            Algorithm::Gost28147 => 315,
            Algorithm::Chacha20 => 316,
            Algorithm::Gost28147Mesh => 317,
            Algorithm::Sm4 => 318,
        }
    }

    #[allow(non_upper_case_globals)]
    pub const Aes128: Algorithm = Algorithm::Aes;

    #[allow(non_upper_case_globals)]
    pub const Rijndael: Algorithm = Algorithm::Aes;

    #[allow(non_upper_case_globals)]
    pub const Rijndael128: Algorithm = Algorithm::Aes;

    #[allow(non_upper_case_globals)]
    pub const Rijndael192: Algorithm = Algorithm::Aes192;

    #[allow(non_upper_case_globals)]
    pub const Rijndael256: Algorithm = Algorithm::Aes256;

    /// The numeric code handed to the native library.
    pub fn raw(&self) -> (r: c_int)
        ensures
            r == self.code(),
    {
        match self {
            Algorithm::Idea => 1,
            Algorithm::TripleDes => 2,
            Algorithm::Cast5 => 3,
            Algorithm::Blowfish => 4,
            Algorithm::SaferSk128 => 5,
            Algorithm::DesSk => 6,
            Algorithm::Aes => 7,
            Algorithm::Aes192 => 8,
            Algorithm::Aes256 => 9,
            Algorithm::Twofish => 10,
            Algorithm::Arcfour => 301,
            Algorithm::Des => 302,
            Algorithm::Twofish128 => 303,
            Algorithm::Serpent128 => 304,
            Algorithm::Serpent192 => 305,
            Algorithm::Serpent256 => 306,
            Algorithm::Rfc2268_40 => 307,
            Algorithm::Rfc2268_128 => 308,
            Algorithm::Seed => 309,
            Algorithm::Camellia128 => 310,
            Algorithm::Camellia192 => 311,
            Algorithm::Camellia256 => 312,
            Algorithm::Salsa20 => 313,
            Algorithm::Salsa20r12 => 314,
            Algorithm::Gost28147 => 315,
            Algorithm::Chacha20 => 316,
            Algorithm::Gost28147Mesh => 317,
            Algorithm::Sm4 => 318,
        }
    }

    /// The entry of the table for a native code: `None` for a code that
    /// names nothing in this catalogue.
    pub open spec fn of_code(raw: c_int) -> Option<Algorithm> {
        match raw {
            1 => Some(Algorithm::Idea),
            2 => Some(Algorithm::TripleDes),
            3 => Some(Algorithm::Cast5),
            4 => Some(Algorithm::Blowfish),
            5 => Some(Algorithm::SaferSk128),
            6 => Some(Algorithm::DesSk),
            7 => Some(Algorithm::Aes),
            8 => Some(Algorithm::Aes192),
            9 => Some(Algorithm::Aes256),
            10 => Some(Algorithm::Twofish),
            301 => Some(Algorithm::Arcfour),
            302 => Some(Algorithm::Des),
            303 => Some(Algorithm::Twofish128),
            304 => Some(Algorithm::Serpent128),
            305 => Some(Algorithm::Serpent192),
            306 => Some(Algorithm::Serpent256),
            307 => Some(Algorithm::Rfc2268_40),
            308 => Some(Algorithm::Rfc2268_128),
            309 => Some(Algorithm::Seed),
            310 => Some(Algorithm::Camellia128),
            311 => Some(Algorithm::Camellia192),
            312 => Some(Algorithm::Camellia256),
            313 => Some(Algorithm::Salsa20),
            314 => Some(Algorithm::Salsa20r12),
            315 => Some(Algorithm::Gost28147),
            316 => Some(Algorithm::Chacha20),
            317 => Some(Algorithm::Gost28147Mesh),
            318 => Some(Algorithm::Sm4),
            _ => None,
        }
    }

    /// Each algorithm's code leads back to it through the table, so no two
    /// algorithms share a code.
    pub proof fn lemma_code_round_trip(a: Algorithm)
        ensures
            Algorithm::of_code(a.code()) == Some(a),
    {
    }

    /// A code that the table knows is the code of the algorithm it gives.
    pub proof fn lemma_of_code_inverse(raw: c_int)
        ensures
            Algorithm::of_code(raw) matches Some(a) ==> a.code() == raw,
    {
    }

    /// The algorithm with the given native code. Codes that name no algorithm
    /// of this catalogue (zero among them, the native "no match") give `None`.
    pub fn from_raw(raw: c_int) -> (r: Option<Algorithm>)
        ensures
            r == Algorithm::of_code(raw),
            forall|a: Algorithm| #[trigger] a.code() == raw <==> r == Some(a),
    {
        match raw {
            1 => Some(Algorithm::Idea),
            2 => Some(Algorithm::TripleDes),
            3 => Some(Algorithm::Cast5),
            4 => Some(Algorithm::Blowfish),
            5 => Some(Algorithm::SaferSk128),
            6 => Some(Algorithm::DesSk),
            7 => Some(Algorithm::Aes),
            8 => Some(Algorithm::Aes192),
            9 => Some(Algorithm::Aes256),
            10 => Some(Algorithm::Twofish),
            301 => Some(Algorithm::Arcfour),
            302 => Some(Algorithm::Des),
            303 => Some(Algorithm::Twofish128),
            304 => Some(Algorithm::Serpent128),
            305 => Some(Algorithm::Serpent192),
            306 => Some(Algorithm::Serpent256),
            307 => Some(Algorithm::Rfc2268_40),
            308 => Some(Algorithm::Rfc2268_128),
            309 => Some(Algorithm::Seed),
            310 => Some(Algorithm::Camellia128),
            311 => Some(Algorithm::Camellia192),
            312 => Some(Algorithm::Camellia256),
            313 => Some(Algorithm::Salsa20),
            314 => Some(Algorithm::Salsa20r12),
            315 => Some(Algorithm::Gost28147),
            316 => Some(Algorithm::Chacha20),
            317 => Some(Algorithm::Gost28147Mesh),
            318 => Some(Algorithm::Sm4),
            _ => None,
        }
    }
}

/// `std::str::Utf8Error`, carried through opaque as the decoding error of a
/// name.
#[verifier::external_type_specification]
#[verifier::external_body]
pub struct ExUtf8Error(Utf8Error);

/// Relies on `std::str::from_utf8`: it succeeds exactly on well-formed UTF-8,
/// and the text it returns is made of the given bytes.
#[verifier::external_body]
fn text_of(bytes: &'static [u8]) -> (r: Result<&'static str, Utf8Error>)
    ensures
        r is Ok <==> valid_utf8(bytes@),
        r matches Ok(s) ==> s.spec_bytes() == bytes@,
{
    std::str::from_utf8(bytes)
}

impl Algorithm {
    /// The display name of an algorithm, from the bytes that the native
    /// library reports for it (without the terminating nul). No report gives
    /// `Err(None)`; bytes that are not UTF-8 give `Err(Some(_))` with the
    /// decoding error.
    pub fn name(raw_name: Option<&'static [u8]>) -> (r: Result<&'static str, Option<Utf8Error>>)
        ensures
            raw_name is None ==> r matches Err(None),
            raw_name matches Some(b) ==> {
                &&& r is Ok <==> valid_utf8(b@)
                &&& r matches Ok(s) ==> s.spec_bytes() == b@
                &&& r matches Err(e) ==> e is Some
            },
    {
        match raw_name {
            None => Err(None),
            Some(bytes) => match text_of(bytes) {
                Ok(s) => Ok(s),
                Err(e) => Err(Some(e)),
            },
        }
    }
}

/// A mode of operation, identified by libgcrypt's numeric code for it.
#[derive(Debug, Clone, Copy, PartialEq, Eq, Hash, Structural)]
pub enum Mode {
    Ecb,
    Cfb,
    Cbc,
    Stream,
    Ofb,
    Ctr,
    AesWrap,
    Ccm,
    Gcm,
    Poly1305,
    Ocb,
    Cfb8,
    Xts,
    Eax,
}

impl Mode {
    /// libgcrypt's code for the mode.
    pub open spec fn code(self) -> c_int {
        match self {
            Mode::Ecb => 1,
            Mode::Cfb => 2,
            Mode::Cbc => 3,
            Mode::Stream => 4,
            Mode::Ofb => 5,
            Mode::Ctr => 6,
            Mode::AesWrap => 7,
            Mode::Ccm => 8,
            Mode::Gcm => 9,
            Mode::Poly1305 => 10,
            Mode::Ocb => 11,
            Mode::Cfb8 => 12,
            Mode::Xts => 13,
            Mode::Eax => 14,
        }
    }

    /// The numeric code handed to the native library.
    pub fn raw(&self) -> (r: c_int)
        ensures
            r == self.code(),
    {
        match self {
            Mode::Ecb => 1,
            Mode::Cfb => 2,
            Mode::Cbc => 3,
            Mode::Stream => 4,
            Mode::Ofb => 5,
            Mode::Ctr => 6,
            Mode::AesWrap => 7,
            Mode::Ccm => 8,
            Mode::Gcm => 9,
            Mode::Poly1305 => 10,
            Mode::Ocb => 11,
            Mode::Cfb8 => 12,
            Mode::Xts => 13,
            Mode::Eax => 14,
        }
    }

    /// The entry of the table for a native code: `None` for a code that
    /// names nothing in this catalogue.
    pub open spec fn of_code(raw: c_int) -> Option<Mode> {
        match raw {
            1 => Some(Mode::Ecb),
            2 => Some(Mode::Cfb),
            3 => Some(Mode::Cbc),
            4 => Some(Mode::Stream),
            5 => Some(Mode::Ofb),
            6 => Some(Mode::Ctr),
            7 => Some(Mode::AesWrap),
            8 => Some(Mode::Ccm),
            9 => Some(Mode::Gcm),
            10 => Some(Mode::Poly1305),
            11 => Some(Mode::Ocb),
            12 => Some(Mode::Cfb8),
            13 => Some(Mode::Xts),
            14 => Some(Mode::Eax),
            _ => None,
        }
    }

    /// Each mode's code leads back to it through the table, so no two
    /// modes share a code.
    pub proof fn lemma_code_round_trip(m: Mode)
        ensures
            Mode::of_code(m.code()) == Some(m),
    {
    }

    /// A code that the table knows is the code of the mode it gives.
    pub proof fn lemma_of_code_inverse(raw: c_int)
        ensures
            Mode::of_code(raw) matches Some(m) ==> m.code() == raw,
    {
    }

    /// The mode with the given native code. Codes that name no mode of this
    /// catalogue (zero among them, the native "no match") give `None`.
    pub fn from_raw(raw: c_int) -> (r: Option<Mode>)
        ensures
            r == Mode::of_code(raw),
            forall|m: Mode| #[trigger] m.code() == raw <==> r == Some(m),
    {
        match raw {
            1 => Some(Mode::Ecb),
            2 => Some(Mode::Cfb),
            3 => Some(Mode::Cbc),
            4 => Some(Mode::Stream),
            5 => Some(Mode::Ofb),
            6 => Some(Mode::Ctr),
            7 => Some(Mode::AesWrap),
            8 => Some(Mode::Ccm),
            9 => Some(Mode::Gcm),
            10 => Some(Mode::Poly1305),
            11 => Some(Mode::Ocb),
            12 => Some(Mode::Cfb8),
            13 => Some(Mode::Xts),
            14 => Some(Mode::Eax),
            _ => None,
        }
    }
}

} // verus!
