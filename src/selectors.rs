//! Integer selectors of the boundary and the typed choices they stand for.
use vstd::prelude::*;

verus! {

/// The variant that an algorithm selector names, if any.
pub open spec fn algorithm_of(code: u32) -> Option<argon2::Algorithm> {
    if code == 0 {
        Some(argon2::Algorithm::Argon2d)
    } else if code == 1 {
        Some(argon2::Algorithm::Argon2i)
    } else if code == 2 {
        Some(argon2::Algorithm::Argon2id)
    } else {
        None
    }
}

/// The protocol version that a version selector names, if any.
pub open spec fn version_of(code: u32) -> Option<argon2::Version> {
    if code == 0 {
        Some(argon2::Version::V0x10)
    } else if code == 1 {
        Some(argon2::Version::V0x13)
    } else {
        None
    }
}

/// Decodes an algorithm selector: `0`, `1` and `2` name the data-dependent,
/// data-independent and hybrid variants; every other code names none.
pub fn decode_algorithm(code: u32) -> (r: Option<argon2::Algorithm>)
    ensures
        r == algorithm_of(code),
{
    match code {
        0 => Some(argon2::Algorithm::Argon2d),
        1 => Some(argon2::Algorithm::Argon2i),
        2 => Some(argon2::Algorithm::Argon2id),
        _ => None,
    }
}

/// Decodes a version selector: `0` names version 0x10 and `1` version 0x13;
/// every other code names none.
pub fn decode_version(code: u32) -> (r: Option<argon2::Version>)
    ensures
        r == version_of(code),
{
    match code {
        0 => Some(argon2::Version::V0x10),
        1 => Some(argon2::Version::V0x13),
        _ => None,
    }
}

} // verus!
