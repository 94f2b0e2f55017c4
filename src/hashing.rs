//! The hash entry point: selectors decoded, inputs handed to the hashing
//! capability, and every failure turned into a fault.
use vstd::prelude::*;

use crate::capability::{argon2_hash_into, argon2_tag, capability_rejection, secret_view};
use crate::fault::{decimal, fault_text, Fault};
use crate::selectors::{algorithm_of, decode_algorithm, decode_version, version_of};

verus! {

/// Bytes of working memory that the capability allocates for `m_cost`
/// blocks of 1 KiB.
pub open spec fn working_memory(m_cost: u32) -> int {
    m_cost as int * 1024
}

/// The fault that stops a hash with these selectors, costs and input
/// lengths, if any: the selectors are checked first, then whether the working
/// memory can be addressed at all, then the capability's own checks.
pub open spec fn hash_fault(
    algorithm: u32,
    version: u32,
    m_cost: u32,
    t_cost: u32,
    p_cost: u32,
    secret: Option<Seq<u8>>,
    output_len: nat,
    password_len: nat,
    salt_len: nat,
) -> Option<Fault> {
    if algorithm_of(algorithm) is None {
        Some(Fault::InvalidAlgorithm(algorithm))
    } else if version_of(version) is None {
        Some(Fault::InvalidVersion(version))
    } else if working_memory(m_cost) > isize::MAX {
        Some(Fault::AllocationFailed(working_memory(m_cost) as u64))
    } else {
        match capability_rejection(
            m_cost,
            t_cost,
            p_cost,
            secret,
            output_len,
            password_len,
            salt_len,
        ) {
            Some(e) => Some(Fault::Rejected(e)),
            None => None,
        }
    }
}

/// What `hash` leaves in its output and returns, from the output as it was
/// (`before`) to the output as it is (`after`): the length never changes; a
/// fault leaves the output as it was; otherwise the call succeeds and the
/// output holds the raw tag of the selected algorithm and version.
pub open spec fn hash_post(
    password: Seq<u8>,
    salt: Seq<u8>,
    secret: Option<Seq<u8>>,
    algorithm: u32,
    version: u32,
    m_cost: u32,
    t_cost: u32,
    p_cost: u32,
    before: Seq<u8>,
    after: Seq<u8>,
    r: Result<(), Fault>,
) -> bool {
    let fault = hash_fault(
        algorithm,
        version,
        m_cost,
        t_cost,
        p_cost,
        secret,
        before.len(),
        password.len(),
        salt.len(),
    );
    &&& after.len() == before.len()
    &&& match fault {
        Some(f) => r == Err::<(), Fault>(f) && after == before,
        None => r == Ok::<(), Fault>(()) && after == argon2_tag(
            algorithm_of(algorithm)->0,
            version_of(version)->0,
            m_cost,
            t_cost,
            p_cost,
            secret,
            password,
            salt,
            before.len(),
        ),
    }
}

/// Hashes `password` with `salt`, keyed by `secret` where there is one, into
/// `output`: the whole of `output` receives the raw tag, whose length is the
/// output's. `algorithm` selects the data-dependent (`0`), data-independent
/// (`1`) or hybrid (`2`) variant, `version` the protocol version 0x10 (`0`) or
/// 0x13 (`1`); the costs go to the capability unchanged, which enforces its own
/// bounds. Every failure is a fault, and leaves `output` untouched.
pub fn hash(
    password: &[u8],
    salt: &[u8],
    secret: Option<&[u8]>,
    output: &mut [u8],
    algorithm: u32,
    version: u32,
    m_cost: u32,
    t_cost: u32,
    p_cost: u32,
) -> (r: Result<(), Fault>)
    ensures
        hash_post(
            password@,
            salt@,
            secret_view(secret),
            algorithm,
            version,
            m_cost,
            t_cost,
            p_cost,
            old(output)@,
            final(output)@,
            r,
        ),
{
    let algorithm = match decode_algorithm(algorithm) {
        Some(a) => a,
        None => {
            return Err(Fault::InvalidAlgorithm(algorithm));
        },
    };
    let version = match decode_version(version) {
        Some(v) => v,
        None => {
            return Err(Fault::InvalidVersion(version));
        },
    };
    let memory = m_cost as u64 * 1024;
    if memory > isize::MAX as u64 {
        return Err(Fault::AllocationFailed(memory));
    }
    if p_cost > 0x1FFF_FFFF {
        // No `m_cost` reaches eight blocks per lane.
        return Err(Fault::Rejected(argon2::Error::MemoryTooLittle));
    }
    match argon2_hash_into(
        algorithm,
        version,
        m_cost,
        t_cost,
        p_cost,
        secret,
        password,
        salt,
        output,
    ) {
        Ok(()) => Ok(()),
        Err(e) => Err(Fault::Rejected(e)),
    }
}

/// Hashing is a pure function of its inputs: two calls of `hash` with the
/// same password, salt, secret, selectors, costs and output length end
/// alike, and where they succeed they leave the same bytes, exactly as many
/// as the output had.
pub proof fn lemma_hash_is_pure(
    password: Seq<u8>,
    salt: Seq<u8>,
    secret: Option<Seq<u8>>,
    algorithm: u32,
    version: u32,
    m_cost: u32,
    t_cost: u32,
    p_cost: u32,
    before1: Seq<u8>,
    after1: Seq<u8>,
    r1: Result<(), Fault>,
    before2: Seq<u8>,
    after2: Seq<u8>,
    r2: Result<(), Fault>,
)
    requires
        hash_post(
            password,
            salt,
            secret,
            algorithm,
            version,
            m_cost,
            t_cost,
            p_cost,
            before1,
            after1,
            r1,
        ),
        hash_post(
            password,
            salt,
            secret,
            algorithm,
            version,
            m_cost,
            t_cost,
            p_cost,
            before2,
            after2,
            r2,
        ),
        before1.len() == before2.len(),
    ensures
        r1 == r2,
        r1 is Ok ==> after1 == after2 && after1.len() == before1.len(),
{
}

/// An algorithm selector outside `0`, `1` and `2` never lets `hash`
/// succeed: the call ends in the fault that names the selector, whose
/// message ends in the selector's decimal digits, and the output is left as
/// it was.
pub proof fn lemma_invalid_algorithm_is_reported(
    password: Seq<u8>,
    salt: Seq<u8>,
    secret: Option<Seq<u8>>,
    algorithm: u32,
    version: u32,
    m_cost: u32,
    t_cost: u32,
    p_cost: u32,
    before: Seq<u8>,
    after: Seq<u8>,
    r: Result<(), Fault>,
)
    requires
        algorithm > 2,
        hash_post(
            password,
            salt,
            secret,
            algorithm,
            version,
            m_cost,
            t_cost,
            p_cost,
            before,
            after,
            r,
        ),
    ensures
        r == Err::<(), Fault>(Fault::InvalidAlgorithm(algorithm)),
        after == before,
        ({
            let text = fault_text(Fault::InvalidAlgorithm(algorithm));
            let digits = decimal(algorithm as nat);
            text.subrange(text.len() - digits.len(), text.len() as int) == digits
        }),
{
    let text = fault_text(Fault::InvalidAlgorithm(algorithm));
    let digits = decimal(algorithm as nat);
    assert(text.subrange(text.len() - digits.len(), text.len() as int) =~= digits);
}

} // verus!
