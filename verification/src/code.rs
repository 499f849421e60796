//! A decoded symbol, and the reading of the engine's raw codes as the
//! error-correction level, data type and character set that they stand for.
#![allow(non_camel_case_types)]

use crate::quirc::{
    quirc_data, QUIRC_DATA_TYPE_ALPHA, QUIRC_DATA_TYPE_BYTE, QUIRC_DATA_TYPE_KANJI,
    QUIRC_DATA_TYPE_NUMERIC, QUIRC_ECC_LEVEL_H, QUIRC_ECC_LEVEL_L, QUIRC_ECC_LEVEL_M,
    QUIRC_ECI_IBM437, QUIRC_ECI_ISO_8859_1, QUIRC_ECI_ISO_8859_13, QUIRC_ECI_ISO_8859_15,
    QUIRC_ECI_ISO_8859_2, QUIRC_ECI_ISO_8859_3, QUIRC_ECI_ISO_8859_4, QUIRC_ECI_ISO_8859_5,
    QUIRC_ECI_ISO_8859_6, QUIRC_ECI_ISO_8859_7, QUIRC_ECI_ISO_8859_8, QUIRC_ECI_ISO_8859_9,
    QUIRC_ECI_SHIFT_JIS, QUIRC_ECI_UTF_8, QUIRC_ECI_WINDOWS_874,
};
use vstd::prelude::*;

verus! {

/// Error-correction level of a symbol.
#[derive(Debug, PartialEq, Eq, Structural)]
pub enum EccLevel {
    M,
    L,
    H,
    Q,
}

/// How the payload of a symbol is encoded.
#[derive(Debug, PartialEq, Eq, Structural)]
pub enum DataType {
    Numeric,
    Alpha,
    Byte,
    Kanji,
    /// A data type this crate has no name for, with its code as the engine
    /// gave it.
    Other(i32),
}

/// Extended channel interpretation: the character set of the payload.
#[derive(Debug, PartialEq, Eq, Structural)]
pub enum ECI {
    ISO_8859_1,
    IBM437,
    ISO_8859_2,
    ISO_8859_3,
    ISO_8859_4,
    ISO_8859_5,
    ISO_8859_6,
    ISO_8859_7,
    ISO_8859_8,
    ISO_8859_9,
    WINDOWS_874,
    ISO_8859_13,
    ISO_8859_15,
    SHIFT_JIS,
    UTF_8,
    /// A designator this crate has no name for, with the low byte of its
    /// code: a designator beyond 255 is cut to one byte on purpose.
    Other(u8),
}

/// A QR code.
#[derive(Debug)]
pub struct QrCode {
    pub version: u8,
    pub ecc_level: EccLevel,
    pub data_type: DataType,
    pub eci: ECI,
    pub payload: Vec<u8>,
}

/// A [`QrCode`] as a mathematical value: its payload is a sequence of bytes.
pub struct QrCodeView {
    pub version: u8,
    pub ecc_level: EccLevel,
    pub data_type: DataType,
    pub eci: ECI,
    pub payload: Seq<u8>,
}

impl View for QrCode {
    type V = QrCodeView;

    open spec fn view(&self) -> QrCodeView {
        QrCodeView {
            version: self.version,
            ecc_level: self.ecc_level,
            data_type: self.data_type,
            eci: self.eci,
            payload: self.payload@,
        }
    }
}

/// The low eight bits of `n`, which is what a byte keeps of a wider number:
/// `n` itself from 0 to 255, and `n` modulo 256 beyond.
pub open spec fn low_byte(n: int) -> u8 {
    (n % 256) as u8
}

impl EccLevel {
    /// The level that the engine's code `n` stands for: 0, 1, 2 and 3 are M, L,
    /// H and Q. No other code is a level.
    pub open spec fn of_code(n: i32) -> Option<EccLevel> {
        match n {
            0 => Some(EccLevel::M),
            1 => Some(EccLevel::L),
            2 => Some(EccLevel::H),
            3 => Some(EccLevel::Q),
            _ => None,
        }
    }

    /// The engine's code of this level.
    pub open spec fn code(self) -> i32 {
        match self {
            EccLevel::M => 0,
            EccLevel::L => 1,
            EccLevel::H => 2,
            EccLevel::Q => 3,
        }
    }

    /// Reads the engine's code of an error-correction level. The engine
    /// reports no code but these four, so no other is accepted here.
    pub fn from(n: i32) -> (level: EccLevel)
        requires
            Self::of_code(n) is Some,
        ensures
            Self::of_code(n) == Some(level),
    {
        match n {
            QUIRC_ECC_LEVEL_M => EccLevel::M,
            QUIRC_ECC_LEVEL_L => EccLevel::L,
            QUIRC_ECC_LEVEL_H => EccLevel::H,
            _ => EccLevel::Q,
        }
    }

    /// The codes 0 to 3, and only they, are levels, each a different one, and
    /// each level is read back from its own code.
    pub proof fn lemma_codes(n: i32, level: EccLevel)
        ensures
            Self::of_code(n) is Some <==> 0 <= n <= 3,
            Self::of_code(n) == Some(level) <==> n == level.code(),
    {
    }
}

impl DataType {
    /// The data type that the engine's code `n` stands for: 1, 2, 4 and 8 are
    /// numeric, alphanumeric, byte and kanji. Any other code is kept whole,
    /// as `Other`.
    pub open spec fn of_code(n: i32) -> DataType {
        match n {
            1 => DataType::Numeric,
            2 => DataType::Alpha,
            4 => DataType::Byte,
            8 => DataType::Kanji,
            _ => DataType::Other(n),
        }
    }

    /// Whether the code `n` has a name among the data types.
    pub open spec fn is_known(n: i32) -> bool {
        n == 1 || n == 2 || n == 4 || n == 8
    }

    /// The code that reads as this data type.
    pub open spec fn code(self) -> i32 {
        match self {
            DataType::Numeric => 1,
            DataType::Alpha => 2,
            DataType::Byte => 4,
            DataType::Kanji => 8,
            DataType::Other(raw) => raw,
        }
    }

    /// A code with a name reads as a named data type and never as `Other`. A
    /// code without one reads as `Other` holding that very code, unchanged.
    /// Either way the code is found again in what was read, so two different
    /// codes never read alike.
    pub proof fn lemma_codes(n: i32, m: i32)
        ensures
            Self::is_known(n) <==> !(Self::of_code(n) is Other),
            !Self::is_known(n) ==> Self::of_code(n) == DataType::Other(n),
            Self::of_code(n).code() == n,
            Self::of_code(n) == Self::of_code(m) <==> n == m,
    {
    }
}

impl From<i32> for DataType {
    /// Reads the engine's code of a data type.
    fn from(n: i32) -> (data_type: DataType) {
        match n {
            QUIRC_DATA_TYPE_NUMERIC => DataType::Numeric,
            QUIRC_DATA_TYPE_ALPHA => DataType::Alpha,
            QUIRC_DATA_TYPE_BYTE => DataType::Byte,
            QUIRC_DATA_TYPE_KANJI => DataType::Kanji,
            _ => DataType::Other(n),
        }
    }
}

impl vstd::std_specs::convert::FromSpecImpl<i32> for DataType {
    open spec fn obeys_from_spec() -> bool {
        true
    }

    open spec fn from_spec(n: i32) -> DataType {
        DataType::of_code(n)
    }
}

impl ECI {
    /// The character set that the designator `n` stands for, after the
    /// engine's table. Any designator outside the table is kept as `Other`
    /// with its low byte.
    pub open spec fn of_code(n: u32) -> ECI {
        match n {
            1 => ECI::ISO_8859_1,
            2 => ECI::IBM437,
            4 => ECI::ISO_8859_2,
            5 => ECI::ISO_8859_3,
            6 => ECI::ISO_8859_4,
            7 => ECI::ISO_8859_5,
            8 => ECI::ISO_8859_6,
            9 => ECI::ISO_8859_7,
            10 => ECI::ISO_8859_8,
            11 => ECI::ISO_8859_9,
            13 => ECI::WINDOWS_874,
            15 => ECI::ISO_8859_13,
            17 => ECI::ISO_8859_15,
            20 => ECI::SHIFT_JIS,
            26 => ECI::UTF_8,
            _ => ECI::Other(low_byte(n as int)),
        }
    }

    /// Whether the designator `n` stands in the table.
    pub open spec fn is_known(n: u32) -> bool {
        n == 1 || n == 2 || (4 <= n <= 11) || n == 13 || n == 15 || n == 17 || n == 20 || n == 26
    }

    /// The designator that reads as this character set.
    pub open spec fn code(self) -> u32 {
        match self {
            ECI::ISO_8859_1 => 1,
            ECI::IBM437 => 2,
            ECI::ISO_8859_2 => 4,
            ECI::ISO_8859_3 => 5,
            ECI::ISO_8859_4 => 6,
            ECI::ISO_8859_5 => 7,
            ECI::ISO_8859_6 => 8,
            ECI::ISO_8859_7 => 9,
            ECI::ISO_8859_8 => 10,
            ECI::ISO_8859_9 => 11,
            ECI::WINDOWS_874 => 13,
            ECI::ISO_8859_13 => 15,
            ECI::ISO_8859_15 => 17,
            ECI::SHIFT_JIS => 20,
            ECI::UTF_8 => 26,
            ECI::Other(raw) => raw as u32,
        }
    }

    /// A designator in the table reads as a named character set and never as
    /// `Other`. One outside it, up to 255, reads as `Other` holding that very
    /// designator. In both cases the designator is found again in what was
    /// read, so two different designators up to 255 never read alike. Beyond
    /// 255 what is kept is the designator modulo 256.
    pub proof fn lemma_codes(n: u32, m: u32)
        ensures
            Self::is_known(n) <==> !(Self::of_code(n) is Other),
            !Self::is_known(n) && n <= 255 ==> Self::of_code(n) == ECI::Other(n as u8),
            n <= 255 ==> Self::of_code(n).code() == n,
            n <= 255 && m <= 255 ==> (Self::of_code(n) == Self::of_code(m) <==> n == m),
            !Self::is_known(n) ==> Self::of_code(n) == ECI::Other((n % 256) as u8),
    {
    }
}

impl From<u32> for ECI {
    /// Reads the engine's designator of a character set.
    fn from(n: u32) -> (eci: ECI) {
        match n {
            QUIRC_ECI_ISO_8859_1 => ECI::ISO_8859_1,
            QUIRC_ECI_IBM437 => ECI::IBM437,
            QUIRC_ECI_ISO_8859_2 => ECI::ISO_8859_2,
            QUIRC_ECI_ISO_8859_3 => ECI::ISO_8859_3,
            QUIRC_ECI_ISO_8859_4 => ECI::ISO_8859_4,
            QUIRC_ECI_ISO_8859_5 => ECI::ISO_8859_5,
            QUIRC_ECI_ISO_8859_6 => ECI::ISO_8859_6,
            QUIRC_ECI_ISO_8859_7 => ECI::ISO_8859_7,
            QUIRC_ECI_ISO_8859_8 => ECI::ISO_8859_8,
            QUIRC_ECI_ISO_8859_9 => ECI::ISO_8859_9,
            QUIRC_ECI_WINDOWS_874 => ECI::WINDOWS_874,
            QUIRC_ECI_ISO_8859_13 => ECI::ISO_8859_13,
            QUIRC_ECI_ISO_8859_15 => ECI::ISO_8859_15,
            QUIRC_ECI_SHIFT_JIS => ECI::SHIFT_JIS,
            QUIRC_ECI_UTF_8 => ECI::UTF_8,
            _ => {
                assert((n as u8) == (n % 256) as u8) by (bit_vector);
                ECI::Other(
                    #[verifier::truncate]
                    (n as u8),
                )
            },
        }
    }
}

impl vstd::std_specs::convert::FromSpecImpl<u32> for ECI {
    open spec fn obeys_from_spec() -> bool {
        true
    }

    open spec fn from_spec(n: u32) -> ECI {
        ECI::of_code(n)
    }
}

impl QrCode {
    /// The symbol that a well-formed record describes: each raw code read as
    /// what it stands for, the version as its low byte, and as payload the
    /// first `payload_len` bytes of the payload area.
    pub open spec fn of_data(qd: &quirc_data) -> QrCodeView
        recommends
            qd.well_formed(),
    {
        QrCodeView {
            version: low_byte(qd.version as int),
            ecc_level: EccLevel::of_code(qd.ecc_level)->0,
            data_type: DataType::of_code(qd.data_type),
            eci: ECI::of_code(qd.eci),
            payload: qd.payload_bytes(),
        }
    }

    /// Builds the symbol that the record of a successful decode describes. The
    /// payload is copied out of the record, which the engine will overwrite.
    pub fn new(qd: &quirc_data) -> (code: QrCode)
        requires
            qd.well_formed(),
        ensures
            code@ == Self::of_data(qd),
    {
        let len: usize = qd.payload_len as usize;
        let mut payload: Vec<u8> = Vec::with_capacity(len);
        let mut i: usize = 0;
        while i < len
            invariant
                i <= len <= qd.payload@.len(),
                payload@ == qd.payload@.subrange(0, i as int),
            decreases len - i,
        {
            payload.push(qd.payload[i]);
            i += 1;
        }
        let version_raw: i32 = qd.version;
        assert((version_raw as u8) == ((version_raw as int) % 256) as u8) by (bit_vector);
        QrCode {
            version: #[verifier::truncate]
            (version_raw as u8),
            ecc_level: EccLevel::from(qd.ecc_level),
            data_type: DataType::from(qd.data_type),
            eci: ECI::from(qd.eci),
            payload,
        }
    }
}

} // verus!
