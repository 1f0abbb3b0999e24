//! The registry of ciphersuites: a signature scheme together with the
//! canonical encoding of what is signed.

use vstd::prelude::*;
use vstd::std_specs::convert::FromSpecImpl;
use crate::decimal::{decimal_digits, format_u64, parse_numeral, parse_u64};

verus! {

/// A ciphersuite, known or not. An unknown one keeps its wire code, so that
/// it can be handed on unchanged.
#[derive(Copy, Clone, Debug, PartialEq, Eq, Structural)]
pub enum Ciphersuite {
    /// Ed25519 over the protobuf encoding; wire code 1.
    ProtobufEd25519,
    /// Ed25519 over the legacy fixed-width encoding; wire code 2.
    BincodeEd25519,
    /// Any other wire code.
    Unknown(u32),
}

/// The wire code of the protobuf ciphersuite.
pub const PROTOBUF_ED25519_CODE: u32 = 1;

/// The wire code of the legacy fixed-width ciphersuite.
pub const BINCODE_ED25519_CODE: u32 = 2;

impl Ciphersuite {
    /// The wire code of the ciphersuite.
    pub open spec fn code(self) -> u32 {
        match self {
            Ciphersuite::ProtobufEd25519 => PROTOBUF_ED25519_CODE,
            Ciphersuite::BincodeEd25519 => BINCODE_ED25519_CODE,
            Ciphersuite::Unknown(u) => u,
        }
    }

    /// The ciphersuite that a wire code stands for.
    pub open spec fn of_code(u: u32) -> Ciphersuite {
        if u == PROTOBUF_ED25519_CODE {
            Ciphersuite::ProtobufEd25519
        } else if u == BINCODE_ED25519_CODE {
            Ciphersuite::BincodeEd25519
        } else {
            Ciphersuite::Unknown(u)
        }
    }

    /// The ciphersuite is one of those under which a message may be signed.
    pub open spec fn is_signable(self) -> bool {
        self == Ciphersuite::ProtobufEd25519 || self == Ciphersuite::BincodeEd25519
    }

    /// The ciphersuite is what `of_code` gives for some code: an `Unknown`
    /// never carries the code of a known ciphersuite.
    pub open spec fn is_canonical(self) -> bool {
        match self {
            Ciphersuite::Unknown(u) => u != PROTOBUF_ED25519_CODE && u != BINCODE_ED25519_CODE,
            _ => true,
        }
    }

    /// Whether a message may be signed under this ciphersuite.
    pub fn signable(&self) -> (b: bool)
        ensures
            b == self.is_signable(),
    {
        match self {
            Ciphersuite::ProtobufEd25519 => true,
            Ciphersuite::BincodeEd25519 => true,
            Ciphersuite::Unknown(_) => false,
        }
    }

    /// The short name of the ciphersuite.
    pub open spec fn spec_name(self) -> Seq<char> {
        match self {
            Ciphersuite::ProtobufEd25519 => "0x0001"@,
            Ciphersuite::BincodeEd25519 => "0x0002"@,
            Ciphersuite::Unknown(_) => "unknown"@,
        }
    }

    /// The short name of the ciphersuite.
    pub fn to_string(&self) -> (s: String)
        ensures
            s@ == self.spec_name(),
    {
        match self {
            Ciphersuite::ProtobufEd25519 => String::from_str("0x0001"),
            Ciphersuite::BincodeEd25519 => String::from_str("0x0002"),
            Ciphersuite::Unknown(_) => String::from_str("unknown"),
        }
    }

    /// Reads a ciphersuite from the decimal numeral of its wire code. `None`
    /// where `s` is no numeral or does not fit in 32 bits.
    pub fn parse(s: &str) -> (r: Option<Ciphersuite>)
        ensures
            r == match parse_numeral(s@, u32::MAX as nat) {
                Some(n) => Some(Ciphersuite::of_code(n as u32)),
                None => None,
            },
    {
        match parse_u64(s) {
            Some(n) => {
                if n <= 0xffff_ffff {
                    Some(Ciphersuite::from(n as u32))
                } else {
                    None
                }
            },
            None => None,
        }
    }
}

impl From<Ciphersuite> for u32 {
    fn from(val: Ciphersuite) -> (code: u32) {
        match val {
            Ciphersuite::ProtobufEd25519 => PROTOBUF_ED25519_CODE,
            Ciphersuite::BincodeEd25519 => BINCODE_ED25519_CODE,
            Ciphersuite::Unknown(u) => u,
        }
    }
}

impl FromSpecImpl<Ciphersuite> for u32 {
    open spec fn obeys_from_spec() -> bool {
        true
    }

    open spec fn from_spec(val: Ciphersuite) -> u32 {
        val.code()
    }
}

impl From<u32> for Ciphersuite {
    fn from(u: u32) -> (suite: Ciphersuite) {
        if u == PROTOBUF_ED25519_CODE {
            Ciphersuite::ProtobufEd25519
        } else if u == BINCODE_ED25519_CODE {
            Ciphersuite::BincodeEd25519
        } else {
            Ciphersuite::Unknown(u)
        }
    }
}

impl FromSpecImpl<u32> for Ciphersuite {
    open spec fn obeys_from_spec() -> bool {
        true
    }

    open spec fn from_spec(u: u32) -> Ciphersuite {
        Ciphersuite::of_code(u)
    }
}

/// A wire code, read as a ciphersuite and written again, is unchanged.
pub proof fn lemma_code_round_trip(u: u32)
    ensures
        Ciphersuite::of_code(u).code() == u,
        Ciphersuite::of_code(u).is_canonical(),
{
}

/// A canonical ciphersuite, written as its wire code and read again, is
/// unchanged. Every signable ciphersuite is canonical.
pub proof fn lemma_ciphersuite_round_trip(suite: Ciphersuite)
    requires
        suite.is_canonical(),
    ensures
        Ciphersuite::of_code(suite.code()) == suite,
{
}

/// The name under which a listing shows a ciphersuite.
pub open spec fn spec_format_ciphersuite(suite: Ciphersuite) -> Seq<char> {
    match suite {
        Ciphersuite::BincodeEd25519 => "ed25519(bincode)"@,
        Ciphersuite::ProtobufEd25519 => "ed25519(protobuf)"@,
        Ciphersuite::Unknown(u) => "unknown "@ + decimal_digits(u as nat),
    }
}

/// The name under which a listing shows a ciphersuite.
pub fn format_ciphersuite(ciphersuite: &Ciphersuite) -> (s: String)
    ensures
        s@ == spec_format_ciphersuite(*ciphersuite),
{
    match ciphersuite {
        Ciphersuite::BincodeEd25519 => String::from_str("ed25519(bincode)"),
        Ciphersuite::ProtobufEd25519 => String::from_str("ed25519(protobuf)"),
        Ciphersuite::Unknown(u) => {
            let digits = format_u64(*u as u64);
            String::from_str("unknown ").concat(digits.as_str())
        },
    }
}

} // verus!
