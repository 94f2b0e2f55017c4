//! The Argon2 hashing capability, as this library relies on it.
use vstd::prelude::*;

verus! {

#[verifier::external_type_specification]
pub struct ExAlgorithm(argon2::Algorithm);

#[verifier::external_type_specification]
pub struct ExVersion(argon2::Version);

#[verifier::external_type_specification]
#[verifier::external_body]
pub struct ExB64Error(argon2::password_hash::errors::B64Error);

#[verifier::external_type_specification]
pub struct ExError(argon2::Error);

/// Largest length, in bytes, of a password, salt, secret or output that the
/// capability takes.
pub open spec fn max_len() -> nat {
    0xFFFF_FFFF
}

/// The first check of the capability that a request fails, if any: the cost
/// checks of its parameter constructor in their order, then the length of the
/// secret, of the output, of the password and of the salt.
pub open spec fn capability_rejection(
    m_cost: u32,
    t_cost: u32,
    p_cost: u32,
    secret: Option<Seq<u8>>,
    output_len: nat,
    password_len: nat,
    salt_len: nat,
) -> Option<argon2::Error> {
    if m_cost < 8 || m_cost < 8 * p_cost {
        Some(argon2::Error::MemoryTooLittle)
    } else if t_cost < 1 {
        Some(argon2::Error::TimeTooSmall)
    } else if p_cost < 1 {
        Some(argon2::Error::ThreadsTooFew)
    } else if p_cost > 0xFF_FFFF {
        Some(argon2::Error::ThreadsTooMany)
    } else if secret matches Some(k) && k.len() > max_len() {
        Some(argon2::Error::SecretTooLong)
    } else if output_len < 4 {
        Some(argon2::Error::OutputTooShort)
    } else if output_len > max_len() {
        Some(argon2::Error::OutputTooLong)
    } else if password_len > max_len() {
        Some(argon2::Error::PwdTooLong)
    } else if salt_len < 8 {
        Some(argon2::Error::SaltTooShort)
    } else if salt_len > max_len() {
        Some(argon2::Error::SaltTooLong)
    } else {
        None
    }
}

/// The secret's bytes, where there is one.
pub open spec fn secret_view(secret: Option<&[u8]>) -> Option<Seq<u8>> {
    match secret {
        Some(s) => Some(s@),
        None => None,
    }
}

/// The raw Argon2 tag of `output_len` bytes for these parameters and inputs.
pub uninterp spec fn argon2_tag(
    algorithm: argon2::Algorithm,
    version: argon2::Version,
    m_cost: u32,
    t_cost: u32,
    p_cost: u32,
    secret: Option<Seq<u8>>,
    password: Seq<u8>,
    salt: Seq<u8>,
    output_len: nat,
) -> Seq<u8>;

/// Relies on argon2's `Params::new` (with no output length of its own),
/// `Argon2::new` where there is no secret, `Argon2::new_with_secret` where
/// there is one, and `Argon2::hash_password_into`: each check fails in the
/// order of `capability_rejection` before `out` is written, and on success
/// `out` holds the tag, a function of the arguments alone. `p_cost * 8` is
/// computed in `u32` by the constructor, and the working memory of `m_cost`
/// blocks of 1 KiB is one allocation.
#[verifier::external_body]
pub(crate) fn argon2_hash_into(
    algorithm: argon2::Algorithm,
    version: argon2::Version,
    m_cost: u32,
    t_cost: u32,
    p_cost: u32,
    secret: Option<&[u8]>,
    password: &[u8],
    salt: &[u8],
    out: &mut [u8],
) -> (r: Result<(), argon2::Error>)
    requires
        p_cost <= 0x1FFF_FFFF,
        m_cost as int * 1024 <= isize::MAX as int,
    ensures
        final(out)@.len() == old(out)@.len(),
        r matches Err(e) ==> capability_rejection(
            m_cost,
            t_cost,
            p_cost,
            secret_view(secret),
            old(out)@.len(),
            password@.len(),
            salt@.len(),
        ) == Some(e) && final(out)@ == old(out)@,
        r is Ok ==> capability_rejection(
            m_cost,
            t_cost,
            p_cost,
            secret_view(secret),
            old(out)@.len(),
            password@.len(),
            salt@.len(),
        ) is None && final(out)@ == argon2_tag(
            algorithm,
            version,
            m_cost,
            t_cost,
            p_cost,
            secret_view(secret),
            password@,
            salt@,
            old(out)@.len(),
        ),
{
    let params = argon2::Params::new(m_cost, t_cost, p_cost, None)?;
    let hasher = match secret {
        Some(s) => argon2::Argon2::new_with_secret(s, algorithm, version, params)?,
        None => argon2::Argon2::new(algorithm, version, params),
    };
    hasher.hash_password_into(password, salt, out)
}

} // verus!
