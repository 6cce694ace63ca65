use vstd::prelude::*;
use vstd::std_specs::convert::FromSpecImpl;

verus! {

/// The compression methods that a TLS hello can name.
#[derive(Debug, Clone, Copy, PartialEq, Eq, Structural)]
pub enum CompressionMethods {
    /// No compression (0).
    Null,
    /// DEFLATE (1).
    Deflate,
    /// A value that is assigned to no method (2 to 63, 65 to 223).
    Unassigned(u8),
    /// LZS (64).
    Lzs,
    /// A value reserved for private use (224 to 255).
    Reserved(u8),
}

impl CompressionMethods {
    /// The method that the byte `value` names.
    pub open spec fn of_byte(value: u8) -> CompressionMethods {
        if value == 0 {
            CompressionMethods::Null
        } else if value == 1 {
            CompressionMethods::Deflate
        } else if value == 64 {
            CompressionMethods::Lzs
        } else if value <= 223 {
            CompressionMethods::Unassigned(value)
        } else {
            CompressionMethods::Reserved(value)
        }
    }

    /// The byte that names this method.
    pub open spec fn byte_of(self) -> u8 {
        match self {
            CompressionMethods::Null => 0,
            CompressionMethods::Deflate => 1,
            CompressionMethods::Lzs => 64,
            CompressionMethods::Unassigned(value) => value,
            CompressionMethods::Reserved(value) => value,
        }
    }

    /// Decoding loses nothing: the byte can be read off the method again.
    pub proof fn law_byte_round_trip(value: u8)
        ensures
            CompressionMethods::of_byte(value).byte_of() == value,
    {
    }
}

impl From<u8> for CompressionMethods {
    fn from(value: u8) -> (method: CompressionMethods) {
        match value {
            0 => CompressionMethods::Null,
            1 => CompressionMethods::Deflate,
            64 => CompressionMethods::Lzs,
            2..=223 => CompressionMethods::Unassigned(value),
            224..=255 => CompressionMethods::Reserved(value),
        }
    }
}

impl FromSpecImpl<u8> for CompressionMethods {
    open spec fn obeys_from_spec() -> bool {
        true
    }

    open spec fn from_spec(value: u8) -> CompressionMethods {
        CompressionMethods::of_byte(value)
    }
}

} // verus!
