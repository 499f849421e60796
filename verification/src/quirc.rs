//! The vocabulary of the decoding engine: the integer codes it reports, the
//! status of one decode, and the record that a successful decode fills in.
//!
//! The engine itself (finding symbols in a frame, correcting errors, parsing
//! the bit stream) lives outside this crate. Everything here is plain data
//! that a caller copies out of the engine after each operation.
#![allow(non_camel_case_types)]

use vstd::prelude::*;

verus! {

/// Capacity in bytes of the payload area of a [`quirc_data`].
pub const QUIRC_MAX_PAYLOAD: usize = 8896;

pub const QUIRC_ECC_LEVEL_M: i32 = 0;

pub const QUIRC_ECC_LEVEL_L: i32 = 1;

pub const QUIRC_ECC_LEVEL_H: i32 = 2;

pub const QUIRC_ECC_LEVEL_Q: i32 = 3;

pub const QUIRC_DATA_TYPE_NUMERIC: i32 = 1;

pub const QUIRC_DATA_TYPE_ALPHA: i32 = 2;

pub const QUIRC_DATA_TYPE_BYTE: i32 = 4;

pub const QUIRC_DATA_TYPE_KANJI: i32 = 8;

pub const QUIRC_ECI_ISO_8859_1: u32 = 1;

pub const QUIRC_ECI_IBM437: u32 = 2;

pub const QUIRC_ECI_ISO_8859_2: u32 = 4;

pub const QUIRC_ECI_ISO_8859_3: u32 = 5;

pub const QUIRC_ECI_ISO_8859_4: u32 = 6;

pub const QUIRC_ECI_ISO_8859_5: u32 = 7;

pub const QUIRC_ECI_ISO_8859_6: u32 = 8;

pub const QUIRC_ECI_ISO_8859_7: u32 = 9;

pub const QUIRC_ECI_ISO_8859_8: u32 = 10;

pub const QUIRC_ECI_ISO_8859_9: u32 = 11;

pub const QUIRC_ECI_WINDOWS_874: u32 = 13;

pub const QUIRC_ECI_ISO_8859_13: u32 = 15;

pub const QUIRC_ECI_ISO_8859_15: u32 = 17;

pub const QUIRC_ECI_SHIFT_JIS: u32 = 20;

pub const QUIRC_ECI_UTF_8: u32 = 26;

/// How one decode ended: success, or the reason it failed.
#[derive(Debug, Copy, Clone, PartialEq, Eq, Hash, Structural)]
pub enum quirc_decode_error_t {
    QUIRC_SUCCESS,
    QUIRC_ERROR_INVALID_GRID_SIZE,
    QUIRC_ERROR_INVALID_VERSION,
    QUIRC_ERROR_FORMAT_ECC,
    QUIRC_ERROR_DATA_ECC,
    QUIRC_ERROR_UNKNOWN_DATA_TYPE,
    QUIRC_ERROR_DATA_OVERFLOW,
    QUIRC_ERROR_DATA_UNDERFLOW,
}

impl quirc_decode_error_t {
    /// The number the engine uses for this status: 0 for success, 1 to 7 for
    /// the failures, in the order of the variants.
    pub open spec fn spec_code(self) -> u32 {
        match self {
            quirc_decode_error_t::QUIRC_SUCCESS => 0,
            quirc_decode_error_t::QUIRC_ERROR_INVALID_GRID_SIZE => 1,
            quirc_decode_error_t::QUIRC_ERROR_INVALID_VERSION => 2,
            quirc_decode_error_t::QUIRC_ERROR_FORMAT_ECC => 3,
            quirc_decode_error_t::QUIRC_ERROR_DATA_ECC => 4,
            quirc_decode_error_t::QUIRC_ERROR_UNKNOWN_DATA_TYPE => 5,
            quirc_decode_error_t::QUIRC_ERROR_DATA_OVERFLOW => 6,
            quirc_decode_error_t::QUIRC_ERROR_DATA_UNDERFLOW => 7,
        }
    }

    /// The status with the given number, if the engine has one.
    pub open spec fn spec_from_code(code: u32) -> Option<quirc_decode_error_t> {
        match code {
            0 => Some(quirc_decode_error_t::QUIRC_SUCCESS),
            1 => Some(quirc_decode_error_t::QUIRC_ERROR_INVALID_GRID_SIZE),
            2 => Some(quirc_decode_error_t::QUIRC_ERROR_INVALID_VERSION),
            3 => Some(quirc_decode_error_t::QUIRC_ERROR_FORMAT_ECC),
            4 => Some(quirc_decode_error_t::QUIRC_ERROR_DATA_ECC),
            5 => Some(quirc_decode_error_t::QUIRC_ERROR_UNKNOWN_DATA_TYPE),
            6 => Some(quirc_decode_error_t::QUIRC_ERROR_DATA_OVERFLOW),
            7 => Some(quirc_decode_error_t::QUIRC_ERROR_DATA_UNDERFLOW),
            _ => None,
        }
    }

    /// The number of this status.
    #[verifier::when_used_as_spec(spec_code)]
    pub fn code(self) -> (code: u32)
        ensures
            code == self.spec_code(),
    {
        match self {
            quirc_decode_error_t::QUIRC_SUCCESS => 0,
            quirc_decode_error_t::QUIRC_ERROR_INVALID_GRID_SIZE => 1,
            quirc_decode_error_t::QUIRC_ERROR_INVALID_VERSION => 2,
            quirc_decode_error_t::QUIRC_ERROR_FORMAT_ECC => 3,
            quirc_decode_error_t::QUIRC_ERROR_DATA_ECC => 4,
            quirc_decode_error_t::QUIRC_ERROR_UNKNOWN_DATA_TYPE => 5,
            quirc_decode_error_t::QUIRC_ERROR_DATA_OVERFLOW => 6,
            quirc_decode_error_t::QUIRC_ERROR_DATA_UNDERFLOW => 7,
        }
    }

    /// Reads a status number as the engine returned it. `None` for a number
    /// that names no status.
    #[verifier::when_used_as_spec(spec_from_code)]
    pub fn from_code(code: u32) -> (status: Option<quirc_decode_error_t>)
        ensures
            status == Self::spec_from_code(code),
    {
        match code {
            0 => Some(quirc_decode_error_t::QUIRC_SUCCESS),
            1 => Some(quirc_decode_error_t::QUIRC_ERROR_INVALID_GRID_SIZE),
            2 => Some(quirc_decode_error_t::QUIRC_ERROR_INVALID_VERSION),
            3 => Some(quirc_decode_error_t::QUIRC_ERROR_FORMAT_ECC),
            4 => Some(quirc_decode_error_t::QUIRC_ERROR_DATA_ECC),
            5 => Some(quirc_decode_error_t::QUIRC_ERROR_UNKNOWN_DATA_TYPE),
            6 => Some(quirc_decode_error_t::QUIRC_ERROR_DATA_OVERFLOW),
            7 => Some(quirc_decode_error_t::QUIRC_ERROR_DATA_UNDERFLOW),
            _ => None,
        }
    }

    /// Every status has a number of its own, and reading that number gives the
    /// status back; a number is read as a status exactly when it is at most 7,
    /// and then it is that status's number.
    pub proof fn lemma_code_round_trip(status: quirc_decode_error_t, code: u32)
        ensures
            Self::spec_from_code(status.spec_code()) == Some(status),
            status.spec_code() <= 7,
            status.spec_code() == 0 <==> status == quirc_decode_error_t::QUIRC_SUCCESS,
            Self::spec_from_code(code) is Some <==> code <= 7,
            Self::spec_from_code(code) matches Some(s) ==> s.spec_code() == code,
    {
    }

    /// Two different failures never share a number.
    pub proof fn lemma_code_distinct(a: quirc_decode_error_t, b: quirc_decode_error_t)
        ensures
            a.spec_code() == b.spec_code() <==> a == b,
    {
    }
}

/// What the engine reports of one decoded symbol, as raw numbers.
///
/// Only the first `payload_len` bytes of `payload` belong to the symbol; the
/// rest is whatever an earlier decode left there.
pub struct quirc_data {
    pub version: i32,
    pub ecc_level: i32,
    pub data_type: i32,
    pub payload: [u8; QUIRC_MAX_PAYLOAD],
    pub payload_len: i32,
    pub eci: u32,
}

impl quirc_data {
    /// A record that a successful decode can have left: the error-correction
    /// level is one of the four codes 0 to 3, and the payload length lies
    /// within the 8896 bytes of the payload area.
    pub open spec fn well_formed(&self) -> bool {
        &&& 0 <= self.ecc_level <= 3
        &&& 0 <= self.payload_len <= 8896
    }

    /// The bytes of the symbol: the first `payload_len` of the payload area.
    pub open spec fn payload_bytes(&self) -> Seq<u8>
        recommends
            self.well_formed(),
    {
        self.payload@.subrange(0, self.payload_len as int)
    }

    /// Tests [`Self::well_formed`].
    pub fn is_well_formed(&self) -> (ok: bool)
        ensures
            ok == self.well_formed(),
    {
        QUIRC_ECC_LEVEL_M <= self.ecc_level && self.ecc_level <= QUIRC_ECC_LEVEL_Q
            && 0 <= self.payload_len && self.payload_len as usize <= QUIRC_MAX_PAYLOAD
    }
}

} // verus!
