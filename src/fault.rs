//! Faults and the diagnostic text that reports each of them to the host.
use vstd::prelude::*;
use vstd::string::StringSliceAdditionalSpecFns;

verus! {

/// Everything that stops a call of the module. Each fault is fatal to the
/// module instance: the host is told once, through its failure callback.
#[derive(Clone, Copy, Debug, PartialEq, Eq)]
pub enum Fault {
    /// An algorithm selector outside the closed enumeration.
    InvalidAlgorithm(u32),
    /// A version selector outside the closed enumeration.
    InvalidVersion(u32),
    /// The hashing capability refused its parameters or its inputs.
    Rejected(argon2::Error),
    /// A block of this many bytes cannot be had from the heap.
    AllocationFailed(u64),
}

/// The ASCII decimal digits of `n`, most significant first.
pub open spec fn decimal(n: nat) -> Seq<u8>
    decreases n,
{
    if n < 10 {
        seq![(48 + n) as u8]
    } else {
        decimal(n / 10).push((48 + n % 10) as u8)
    }
}

/// Why the hashing capability refused a request, in words.
pub open spec fn reason(e: argon2::Error) -> &'static str {
    match e {
        argon2::Error::AdTooLong => "associated data is too long",
        argon2::Error::AlgorithmInvalid => "algorithm identifier invalid",
        argon2::Error::B64Encoding(_) => "B64 encoding invalid",
        argon2::Error::KeyIdTooLong => "key ID is too long",
        argon2::Error::MemoryTooLittle => "memory cost is too small",
        argon2::Error::MemoryTooMuch => "memory cost is too large",
        argon2::Error::OutputTooShort => "output is too short",
        argon2::Error::OutputTooLong => "output is too long",
        argon2::Error::PwdTooLong => "password is too long",
        argon2::Error::SaltTooShort => "salt is too short",
        argon2::Error::SaltTooLong => "salt is too long",
        argon2::Error::SecretTooLong => "secret is too long",
        argon2::Error::ThreadsTooFew => "not enough threads",
        argon2::Error::ThreadsTooMany => "too many threads",
        argon2::Error::TimeTooSmall => "time cost is too small",
        argon2::Error::VersionInvalid => "invalid version",
    }
}

/// The message that reports `f` to the host.
pub open spec fn fault_text(f: Fault) -> Seq<u8> {
    match f {
        Fault::InvalidAlgorithm(code) => "Invalid algorithm: ".spec_bytes() + decimal(code as nat),
        Fault::InvalidVersion(code) => "Invalid version: ".spec_bytes() + decimal(code as nat),
        Fault::Rejected(e) => "Invalid hash input: ".spec_bytes() + reason(e).spec_bytes(),
        Fault::AllocationFailed(size) => "Memory allocation of ".spec_bytes() + decimal(size as nat)
            + " bytes failed".spec_bytes(),
    }
}

/// Appends the bytes of `s` to `buf`.
fn push_str(buf: &mut Vec<u8>, s: &str)
    ensures
        final(buf)@ == old(buf)@ + s.spec_bytes(),
{
    let bytes = s.as_bytes();
    let mut i: usize = 0;
    while i < bytes.len()
        invariant
            bytes@ == s.spec_bytes(),
            i <= bytes@.len(),
            buf@ == old(buf)@ + bytes@.subrange(0, i as int),
        decreases bytes@.len() - i,
    {
        buf.push(bytes[i]);
        i = i + 1;
        assert(bytes@.subrange(0, i as int) == bytes@.subrange(0, i - 1).push(bytes@[i - 1]));
    }
    assert(bytes@.subrange(0, i as int) == bytes@);
}

/// Appends the decimal digits of `n` to `buf`.
fn push_decimal(buf: &mut Vec<u8>, n: u64)
    ensures
        final(buf)@ == old(buf)@ + decimal(n as nat),
    decreases n,
{
    if n >= 10 {
        push_decimal(buf, n / 10);
    }
    buf.push((48 + n % 10) as u8);
    proof {
        if n >= 10 {
            assert(old(buf)@ + decimal(n as nat) == (old(buf)@ + decimal((n / 10) as nat)).push(
                (48 + n % 10) as u8,
            ));
        } else {
            assert(old(buf)@ + decimal(n as nat) == old(buf)@.push((48 + n % 10) as u8));
        }
    }
}

fn reason_of(e: &argon2::Error) -> (r: &'static str)
    ensures
        r == reason(*e),
{
    match e {
        argon2::Error::AdTooLong => "associated data is too long",
        argon2::Error::AlgorithmInvalid => "algorithm identifier invalid",
        argon2::Error::B64Encoding(_) => "B64 encoding invalid",
        argon2::Error::KeyIdTooLong => "key ID is too long",
        argon2::Error::MemoryTooLittle => "memory cost is too small",
        argon2::Error::MemoryTooMuch => "memory cost is too large",
        argon2::Error::OutputTooShort => "output is too short",
        argon2::Error::OutputTooLong => "output is too long",
        argon2::Error::PwdTooLong => "password is too long",
        argon2::Error::SaltTooShort => "salt is too short",
        argon2::Error::SaltTooLong => "salt is too long",
        argon2::Error::SecretTooLong => "secret is too long",
        argon2::Error::ThreadsTooFew => "not enough threads",
        argon2::Error::ThreadsTooMany => "too many threads",
        argon2::Error::TimeTooSmall => "time cost is too small",
        argon2::Error::VersionInvalid => "invalid version",
    }
}

impl Fault {
    /// The diagnostic message that reports this fault to the host, as bytes
    /// of ASCII text; the selector or size that caused it is spelled out in
    /// decimal.
    pub fn message(&self) -> (r: Vec<u8>)
        ensures
            r@ == fault_text(*self),
    {
        let mut buf: Vec<u8> = Vec::new();
        match self {
            Fault::InvalidAlgorithm(code) => {
                push_str(&mut buf, "Invalid algorithm: ");
                push_decimal(&mut buf, *code as u64);
            },
            Fault::InvalidVersion(code) => {
                push_str(&mut buf, "Invalid version: ");
                push_decimal(&mut buf, *code as u64);
            },
            Fault::Rejected(e) => {
                push_str(&mut buf, "Invalid hash input: ");
                push_str(&mut buf, reason_of(e));
            },
            Fault::AllocationFailed(size) => {
                push_str(&mut buf, "Memory allocation of ");
                push_decimal(&mut buf, *size);
                push_str(&mut buf, " bytes failed");
            },
        }
        buf
    }
}

} // verus!
