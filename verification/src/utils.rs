//! Storage units and the rendering of byte counts.

use crate::text::{append_decimal, append_two_decimals, decimal, two_decimals};
use vstd::prelude::*;
use vstd::string::StringExecFns;

verus! {

pub const BYTE: u128 = 1;

pub const KIBIBYTE: u128 = 1024;

pub const MEBIBYTE: u128 = 1_048_576;

pub const GIBIBYTE: u128 = 1_073_741_824;

pub const TEBIBYTE: u128 = 1_099_511_627_776;

pub const PEBIBYTE: u128 = 1_125_899_906_842_624;

pub const EXBIBYTE: u128 = 1_152_921_504_606_846_976;

pub const ZEBIBYTE: u128 = 1_180_591_620_717_411_303_424;

/// A binary storage unit; each is 1024 times the one before it.
#[derive(Debug, Clone, Copy, PartialEq, Eq, Structural)]
pub enum StorageUnit {
    Bytes,
    KiB,
    MiB,
    GiB,
    TiB,
    PiB,
    EiB,
    ZiB,
}

impl StorageUnit {
    /// How many steps of 1024 the unit lies above a byte.
    pub open spec fn rank(self) -> nat {
        match self {
            StorageUnit::Bytes => 0,
            StorageUnit::KiB => 1,
            StorageUnit::MiB => 2,
            StorageUnit::GiB => 3,
            StorageUnit::TiB => 4,
            StorageUnit::PiB => 5,
            StorageUnit::EiB => 6,
            StorageUnit::ZiB => 7,
        }
    }

    /// The number of bytes in one unit.
    pub open spec fn multiplier(self) -> nat {
        match self {
            StorageUnit::Bytes => BYTE as nat,
            StorageUnit::KiB => KIBIBYTE as nat,
            StorageUnit::MiB => MEBIBYTE as nat,
            StorageUnit::GiB => GIBIBYTE as nat,
            StorageUnit::TiB => TEBIBYTE as nat,
            StorageUnit::PiB => PEBIBYTE as nat,
            StorageUnit::EiB => EXBIBYTE as nat,
            StorageUnit::ZiB => ZEBIBYTE as nat,
        }
    }

    /// The number of bytes in one unit.
    pub fn to_bytes(&self) -> (bytes: u128)
        ensures
            bytes == self.multiplier(),
    {
        match self {
            StorageUnit::Bytes => BYTE,
            StorageUnit::KiB => KIBIBYTE,
            StorageUnit::MiB => MEBIBYTE,
            StorageUnit::GiB => GIBIBYTE,
            StorageUnit::TiB => TEBIBYTE,
            StorageUnit::PiB => PEBIBYTE,
            StorageUnit::EiB => EXBIBYTE,
            StorageUnit::ZiB => ZEBIBYTE,
        }
    }
}

/// The multipliers form a ladder: a byte is one, and a unit one rank above
/// another holds 1024 of it.
pub proof fn lemma_unit_ladder(lower: StorageUnit, upper: StorageUnit)
    requires
        upper.rank() == lower.rank() + 1,
    ensures
        StorageUnit::Bytes.multiplier() == 1,
        upper.multiplier() == 1024 * lower.multiplier(),
{
}

/// The text of a byte count: below one KiB the plain count followed by
/// `" B"`, otherwise the count in the largest unit that it reaches, with two
/// digits after the point (rounded half to even) and the unit's name.
pub open spec fn format_bytes_text(bytes: nat) -> Seq<char> {
    if bytes >= ZEBIBYTE {
        two_decimals(bytes, ZEBIBYTE as nat) + " ZiB"@
    } else if bytes >= EXBIBYTE {
        two_decimals(bytes, EXBIBYTE as nat) + " EiB"@
    } else if bytes >= PEBIBYTE {
        two_decimals(bytes, PEBIBYTE as nat) + " PiB"@
    } else if bytes >= TEBIBYTE {
        two_decimals(bytes, TEBIBYTE as nat) + " TiB"@
    } else if bytes >= GIBIBYTE {
        two_decimals(bytes, GIBIBYTE as nat) + " GiB"@
    } else if bytes >= MEBIBYTE {
        two_decimals(bytes, MEBIBYTE as nat) + " MiB"@
    } else if bytes >= KIBIBYTE {
        two_decimals(bytes, KIBIBYTE as nat) + " KiB"@
    } else {
        decimal(bytes) + " B"@
    }
}

/// Returns a formatted string for bytes, automatically choosing the best unit.
pub fn format_bytes(bytes: u128) -> (s: String)
    ensures
        s@ == format_bytes_text(bytes as nat),
{
    let mut s: String = String::new();
    if bytes >= ZEBIBYTE {
        append_two_decimals(&mut s, bytes, ZEBIBYTE);
        s.append(" ZiB");
    } else if bytes >= EXBIBYTE {
        append_two_decimals(&mut s, bytes, EXBIBYTE);
        s.append(" EiB");
    } else if bytes >= PEBIBYTE {
        append_two_decimals(&mut s, bytes, PEBIBYTE);
        s.append(" PiB");
    } else if bytes >= TEBIBYTE {
        append_two_decimals(&mut s, bytes, TEBIBYTE);
        s.append(" TiB");
    } else if bytes >= GIBIBYTE {
        append_two_decimals(&mut s, bytes, GIBIBYTE);
        s.append(" GiB");
    } else if bytes >= MEBIBYTE {
        append_two_decimals(&mut s, bytes, MEBIBYTE);
        s.append(" MiB");
    } else if bytes >= KIBIBYTE {
        append_two_decimals(&mut s, bytes, KIBIBYTE);
        s.append(" KiB");
    } else {
        append_decimal(&mut s, bytes);
        s.append(" B");
    }
    assert(s@ =~= format_bytes_text(bytes as nat));
    s
}

} // verus!
