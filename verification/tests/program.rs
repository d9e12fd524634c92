//! End-to-end tests of the storage manager: one host-shaped input region per
//! scenario, one invocation, and a check of the resulting region and status.

use buffer_manager::entrypoint;
use buffer_manager::status::Status;

const SIGNER_HEADER: usize = 0x0008;
const SIGNER_KEY: usize = 0x0010;
const SIGNER_LAMPORTS: usize = 0x0050;
const BUFFER_OWNER: usize = 0x2890;
const BUFFER_LAMPORTS: usize = 0x28b0;
const BUFFER_SIZE: usize = 0x28b8;
const BUFFER_AUTH: usize = 0x28c0;
const BUFFER_DATA: usize = 0x28e0;
const IX_MIN_OFFSET: usize = 0x50c8;

fn set_u64(v: &mut Vec<u8>, off: usize, x: u64) {
    v[off..off + 8].copy_from_slice(&x.to_le_bytes());
}

fn get_u64(v: &Vec<u8>, off: usize) -> u64 {
    let mut b = [0u8; 8];
    b.copy_from_slice(&v[off..off + 8]);
    u64::from_le_bytes(b)
}

fn ix_offset(stored_len: usize) -> usize {
    (IX_MIN_OFFSET + stored_len + 7) / 8 * 8
}

/// Builds a well-formed input region: two accounts, valid signer flags, a
/// signer key, `stored_len` bytes of buffer data (each byte `0x11`), and the
/// instruction data `ix` (discriminator first) behind its length scalar.
fn region(stored_len: usize, ix: &[u8]) -> Vec<u8> {
    let off = ix_offset(stored_len);
    let len = off + 8 + if ix.is_empty() { 1 } else { ix.len() };
    let mut v = vec![0u8; len];
    set_u64(&mut v, 0, 2);
    v[SIGNER_HEADER..SIGNER_HEADER + 4].copy_from_slice(&0x0101ffu32.to_le_bytes());
    for j in 0..32 {
        v[SIGNER_KEY + j] = 0x40 + j as u8;
    }
    set_u64(&mut v, BUFFER_SIZE, stored_len as u64);
    for j in 0..stored_len {
        v[BUFFER_DATA + j] = 0x11;
    }
    set_u64(&mut v, off, ix.len() as u64);
    v[off + 8..off + 8 + ix.len()].copy_from_slice(ix);
    v
}

/// Copies the signer key into the stored authority, as a prior Init by the
/// same signer would have left it.
fn authorize(v: &mut Vec<u8>) {
    let key: Vec<u8> = v[SIGNER_KEY..SIGNER_KEY + 32].to_vec();
    v[BUFFER_AUTH..BUFFER_AUTH + 32].copy_from_slice(&key);
}

#[test]
fn wrong_account_count_rejected() {
    let mut v = region(0, &[0x00, 0xAA]);
    set_u64(&mut v, 0, 3);
    let before = v.clone();
    let status = entrypoint(&mut v);
    assert_eq!(status, Status::WrongAccountCount);
    assert_eq!(status.code(), 1);
    assert_eq!(status.log_line(), "Wrong number of accounts");
    assert_eq!(v, before);
}

#[test]
fn missing_signer_rejected() {
    let mut v = region(0, &[0x00, 0xAA]);
    v[SIGNER_HEADER..SIGNER_HEADER + 4].copy_from_slice(&0x0100ffu32.to_le_bytes());
    let before = v.clone();
    let status = entrypoint(&mut v);
    assert_eq!(status, Status::MissingSigner);
    assert_eq!(status.code(), 1);
    assert_eq!(status.log_line(), "Missing signer");
    assert_eq!(v, before);
}

#[test]
fn init_sets_authority_and_data() {
    let mut v = region(8, &[0x00, 0xAA, 0xBB, 0xCC]);
    let status = entrypoint(&mut v);
    assert_eq!(status, Status::Init);
    assert_eq!(status.code(), 0);
    assert_eq!(status.log_line(), "Init");
    assert_eq!(&v[BUFFER_AUTH..BUFFER_AUTH + 32], &v[SIGNER_KEY..SIGNER_KEY + 32]);
    assert_eq!(&v[BUFFER_DATA..BUFFER_DATA + 3], &[0xAA, 0xBB, 0xCC]);
    // the rest of the stored data is untouched
    assert_eq!(&v[BUFFER_DATA + 3..BUFFER_DATA + 8], &[0x11; 5]);
}

#[test]
fn init_ignores_prior_authority() {
    let mut v = region(0, &[0x00, 0xEE]);
    for j in 0..32 {
        v[BUFFER_AUTH + j] = 0xF0; // some unrelated prior authority
    }
    let status = entrypoint(&mut v);
    assert_eq!(status, Status::Init);
    assert_eq!(&v[BUFFER_AUTH..BUFFER_AUTH + 32], &v[SIGNER_KEY..SIGNER_KEY + 32]);
    assert_eq!(v[BUFFER_DATA], 0xEE);
}

#[test]
fn init_round_trip() {
    let mut ix = vec![0x00u8];
    let payload: Vec<u8> = (0..100u8).collect();
    ix.extend_from_slice(&payload);
    let mut v = region(16, &ix);
    let status = entrypoint(&mut v);
    assert_eq!(status, Status::Init);
    assert_eq!(&v[BUFFER_DATA..BUFFER_DATA + payload.len()], &payload[..]);
}

#[test]
fn assign_replaces_authority() {
    let mut ix = vec![0x01u8];
    ix.extend_from_slice(&[0x99u8; 32]);
    let mut v = region(4, &ix);
    authorize(&mut v);
    let status = entrypoint(&mut v);
    assert_eq!(status, Status::Assign);
    assert_eq!(status.code(), 0);
    assert_eq!(status.log_line(), "Assign");
    assert_eq!(&v[BUFFER_AUTH..BUFFER_AUTH + 32], &[0x99u8; 32]);
    // buffer data is untouched by Assign
    assert_eq!(&v[BUFFER_DATA..BUFFER_DATA + 4], &[0x11; 4]);
}

#[test]
fn assign_wrong_authority_rejected() {
    let mut ix = vec![0x01u8];
    ix.extend_from_slice(&[0x99u8; 32]);
    let mut v = region(0, &ix);
    // stored authority stays all-zero, which differs from the signer key
    let before = v.clone();
    let status = entrypoint(&mut v);
    assert_eq!(status, Status::InvalidAuthority);
    assert_eq!(status.code(), 1);
    assert_eq!(status.log_line(), "Invalid authority");
    assert_eq!(v, before);
}

#[test]
fn write_at_offset_zero() {
    let mut v = region(16, &[0x02, 0x00, 0x00, 0x00, 0xFF, 0xFF]);
    authorize(&mut v);
    let status = entrypoint(&mut v);
    assert_eq!(status, Status::Write);
    assert_eq!(status.code(), 0);
    assert_eq!(status.log_line(), "Write");
    assert_eq!(&v[BUFFER_DATA..BUFFER_DATA + 2], &[0xFF, 0xFF]);
    // exactly the two targeted bytes change
    assert_eq!(&v[BUFFER_DATA + 2..BUFFER_DATA + 16], &[0x11; 14]);
}

#[test]
fn write_touches_exactly_the_targeted_range() {
    let mut v = region(16, &[0x02, 0x02, 0x00, 0x00, 0xAB, 0xCD]);
    authorize(&mut v);
    let status = entrypoint(&mut v);
    assert_eq!(status, Status::Write);
    assert_eq!(&v[BUFFER_DATA..BUFFER_DATA + 2], &[0x11, 0x11]);
    assert_eq!(&v[BUFFER_DATA + 2..BUFFER_DATA + 4], &[0xAB, 0xCD]);
    assert_eq!(&v[BUFFER_DATA + 4..BUFFER_DATA + 16], &[0x11; 12]);
}

#[test]
fn write_with_empty_payload_changes_nothing() {
    let mut v = region(8, &[0x02, 0x00, 0x00, 0x00]);
    authorize(&mut v);
    let before = v.clone();
    let status = entrypoint(&mut v);
    assert_eq!(status, Status::Write);
    assert_eq!(status.code(), 0);
    assert_eq!(v, before);
}

#[test]
fn write_wrong_authority_rejected() {
    let mut v = region(16, &[0x02, 0x00, 0x00, 0x00, 0xFF, 0xFF]);
    let before = v.clone();
    let status = entrypoint(&mut v);
    assert_eq!(status, Status::InvalidAuthority);
    assert_eq!(v, before);
}

#[test]
fn close_transfers_lamports_and_resets() {
    let mut v = region(8, &[0x03]);
    authorize(&mut v);
    set_u64(&mut v, SIGNER_LAMPORTS, 100);
    set_u64(&mut v, BUFFER_LAMPORTS, 5000);
    for j in 0..32 {
        v[BUFFER_OWNER + j] = 0x77;
    }
    let status = entrypoint(&mut v);
    assert_eq!(status, Status::Close);
    assert_eq!(status.code(), 0);
    assert_eq!(status.log_line(), "Close");
    assert_eq!(get_u64(&v, SIGNER_LAMPORTS), 5100);
    assert_eq!(get_u64(&v, BUFFER_LAMPORTS), 0);
    assert_eq!(get_u64(&v, BUFFER_SIZE), 0);
    assert_eq!(&v[BUFFER_OWNER..BUFFER_OWNER + 32], &[0u8; 32]);
    // the authority field survives a Close
    assert_eq!(&v[BUFFER_AUTH..BUFFER_AUTH + 32], &v[SIGNER_KEY..SIGNER_KEY + 32]);
}

#[test]
fn close_twice_is_a_no_op_after_the_first() {
    // stored length 0, so the instruction block sits at the same offset for
    // the second invocation after Close zeroes the stored length
    let mut v = region(0, &[0x03]);
    authorize(&mut v);
    set_u64(&mut v, SIGNER_LAMPORTS, 100);
    set_u64(&mut v, BUFFER_LAMPORTS, 5000);
    let first = entrypoint(&mut v);
    assert_eq!(first, Status::Close);
    assert_eq!(get_u64(&v, SIGNER_LAMPORTS), 5100);
    let after_first = v.clone();
    // the authority gate still passes: authority was not cleared
    let second = entrypoint(&mut v);
    assert_eq!(second, Status::Close);
    assert_eq!(second.code(), 0);
    assert_eq!(get_u64(&v, SIGNER_LAMPORTS), 5100);
    assert_eq!(v, after_first);
}

#[test]
fn unknown_discriminator_rejected() {
    let mut v = region(8, &[0x09, 0xAA]);
    authorize(&mut v);
    let before = v.clone();
    let status = entrypoint(&mut v);
    assert_eq!(status, Status::InvalidInstruction);
    assert_eq!(status.code(), 1);
    assert_eq!(status.log_line(), "Invalid IX");
    assert_eq!(v, before);
}

#[test]
fn unknown_discriminator_still_behind_authority_gate() {
    let mut v = region(8, &[0x09, 0xAA]);
    // the stored authority differs from the signer key
    let before = v.clone();
    let status = entrypoint(&mut v);
    assert_eq!(status, Status::InvalidAuthority);
    assert_eq!(v, before);
}
