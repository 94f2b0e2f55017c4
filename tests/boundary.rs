use argon2_wasm::selectors::{decode_algorithm, decode_version};
use argon2_wasm::{block_layout, BlockLayout, Fault};

#[test]
fn algorithm_selectors() {
    assert_eq!(decode_algorithm(0), Some(argon2::Algorithm::Argon2d));
    assert_eq!(decode_algorithm(1), Some(argon2::Algorithm::Argon2i));
    assert_eq!(decode_algorithm(2), Some(argon2::Algorithm::Argon2id));
    assert_eq!(decode_algorithm(3), None);
    assert_eq!(decode_algorithm(u32::MAX), None);
}

#[test]
fn version_selectors() {
    assert_eq!(decode_version(0), Some(argon2::Version::V0x10));
    assert_eq!(decode_version(1), Some(argon2::Version::V0x13));
    assert_eq!(decode_version(2), None);
    assert_eq!(decode_version(0x13), None);
}

#[test]
fn word_aligned_blocks() {
    let word = core::mem::align_of::<usize>();
    for size in [0usize, 1, 7, 8, 4096, 19456 * 1024] {
        assert_eq!(block_layout(size), Ok(BlockLayout { size, align: word }));
    }
    let largest = isize::MAX as usize - (isize::MAX as usize % word);
    assert_eq!(block_layout(largest), Ok(BlockLayout { size: largest, align: word }));
}

#[test]
fn oversized_block_is_an_allocation_fault() {
    let word = core::mem::align_of::<usize>();
    let first_refused = isize::MAX as usize - (isize::MAX as usize % word) + 1;
    assert_eq!(block_layout(first_refused), Err(Fault::AllocationFailed(first_refused as u64)));
    let r = block_layout(usize::MAX);
    assert_eq!(r, Err(Fault::AllocationFailed(usize::MAX as u64)));
    let text = String::from_utf8(r.unwrap_err().message()).unwrap();
    assert_eq!(text, format!("Memory allocation of {} bytes failed", usize::MAX));
}

#[test]
fn release_layout_matches_allocation() {
    let mut freed_total: usize = 0;
    for size in [24usize, 1, 4096, 0, 333, 19456 * 1024] {
        let at_alloc = block_layout(size);
        let at_release = block_layout(size);
        assert_eq!(at_alloc, at_release);
        assert_eq!(at_alloc.unwrap().size, size);
        freed_total += size;
    }
    let last = block_layout(freed_total).unwrap();
    assert_eq!(last.size, freed_total);
}
