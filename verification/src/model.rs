//! The fixed layout of the host-supplied input region, and the spec-level
//! meaning of an invocation: which fields the region holds, when the region
//! is well formed, which branch an invocation selects, and what each
//! operation does to the region.
//!
//! All integers in the region are little-endian.  The region is only
//! structurally trustworthy when it carries exactly two accounts; the host
//! guarantees the layout below before every invocation.

use vstd::prelude::*;
use crate::bytes::{spec_align8, spec_u24_le, spec_u32_le, spec_u64_le};
use crate::status::Status;

verus! {

/// Instruction data is aligned to this boundary.
pub const ALIGNMENT: usize = 0x0008;

/// Width of a public key field.
pub const PUBKEY_LENGTH: usize = 0x0020;

/// Packed account flags meaning "transaction signer, writable, and not a
/// duplicate of another passed-in account".
pub const SIG_MUT_NODUP: u32 = 0x0101ff;

/// Offset of the account-count scalar.
pub const ACCOUNT_COUNT: usize = 0x0000;

/// Offset of the signer account's packed flags.
pub const SIGNER_HEADER: usize = 0x0008;

/// Offset of the signer account's public key.
pub const SIGNER_KEY: usize = 0x0010;

/// Offset of the signer account's lamport balance.
pub const SIGNER_LAMPORTS: usize = 0x0050;

/// Offset of the buffer account's owner field.
pub const BUFFER_OWNER: usize = 0x2890;

/// Offset of the buffer account's lamport balance.
pub const BUFFER_LAMPORTS: usize = 0x28b0;

/// Offset of the buffer account's stored-data length.
pub const BUFFER_SIZE: usize = 0x28b8;

/// Offset of the buffer account's authority public key.
pub const BUFFER_AUTH: usize = 0x28c0;

/// Offset of the buffer account's variable-length data.
pub const BUFFER_DATA: usize = 0x28e0;

/// Minimum offset of the instruction block, before the stored data and the
/// alignment padding are skipped.
pub const IX_MIN_OFFSET: usize = 0x50c8;

/// The account-count scalar.
pub open spec fn spec_account_count(s: Seq<u8>) -> int {
    spec_u64_le(s, ACCOUNT_COUNT as int)
}

/// The signer account's packed flags.
pub open spec fn spec_signer_flags(s: Seq<u8>) -> int {
    spec_u32_le(s, SIGNER_HEADER as int)
}

/// The buffer account's stored-data length.
pub open spec fn spec_stored_len(s: Seq<u8>) -> int {
    spec_u64_le(s, BUFFER_SIZE as int)
}

/// Offset of the instruction block: past the stored data, rounded up to the
/// alignment boundary.
pub open spec fn spec_ix_offset(s: Seq<u8>) -> int {
    spec_align8(IX_MIN_OFFSET + spec_stored_len(s))
}

/// The instruction-data length scalar (it counts the discriminator byte and
/// the payload).
pub open spec fn spec_ix_len(s: Seq<u8>) -> int {
    spec_u64_le(s, spec_ix_offset(s))
}

/// The discriminator byte selecting the operation.
pub open spec fn spec_discriminator(s: Seq<u8>) -> u8 {
    s[spec_ix_offset(s) + 8]
}

/// Offset of the first payload byte, just past the discriminator.
pub open spec fn spec_payload_start(s: Seq<u8>) -> int {
    spec_ix_offset(s) + 9
}

/// The destination offset of a Write, relative to the buffer data: the
/// 3-byte little-endian scalar leading its payload.
pub open spec fn spec_write_offset(s: Seq<u8>) -> int {
    spec_u24_le(s, spec_payload_start(s))
}

/// The signer's key byte-for-byte equals the buffer's stored authority.
pub open spec fn spec_auth_ok(s: Seq<u8>) -> bool {
    forall|j: int|
        0 <= j < PUBKEY_LENGTH
            ==> #[trigger] s[BUFFER_AUTH + j] == s[SIGNER_KEY + j]
}

/// Both structural guards pass: exactly two accounts, and the signer is a
/// writable, non-duplicate transaction signer.
pub open spec fn spec_guard_passes(s: Seq<u8>) -> bool {
    spec_account_count(s) == 2 && spec_signer_flags(s) == SIG_MUT_NODUP
}

/// The host's structural contract on the input region: the region is large
/// enough for every field the selected branch reads or writes, and the
/// arithmetic the branch performs stays in range.
///
/// A region that fails the account-count or signer-flags guard only needs to
/// hold those two header fields; past the guards, the instruction block must
/// lie inside the region, and the operation that will actually execute must
/// find its payload and its destination in range.
pub open spec fn region_wf(s: Seq<u8>) -> bool {
    &&& s.len() >= SIGNER_HEADER + 4
    &&& spec_guard_passes(s) ==> {
        &&& s.len() >= spec_payload_start(s)
        &&& s.len() >= spec_ix_offset(s) + 8 + spec_ix_len(s)
        &&& (spec_discriminator(s) == 0 ==> spec_ix_len(s) >= 1)
        &&& (spec_discriminator(s) == 1 && spec_auth_ok(s) ==> spec_ix_len(s) >= 1
            + PUBKEY_LENGTH)
        &&& (spec_discriminator(s) == 2 && spec_auth_ok(s) ==> spec_ix_len(s) >= 4
            && BUFFER_DATA + spec_write_offset(s) + spec_ix_len(s) - 4 <= s.len())
        &&& (spec_discriminator(s) == 3 && spec_auth_ok(s) ==> spec_u64_le(
            s,
            SIGNER_LAMPORTS as int,
        ) + spec_u64_le(s, BUFFER_LAMPORTS as int) <= u64::MAX)
    }
}

/// Which branch an invocation of the program on `s` takes: the guards in
/// order (account count, signer flags, then the authority gate for every
/// non-Init discriminator), then the dispatch on the discriminator.
pub open spec fn spec_status(s: Seq<u8>) -> Status {
    if spec_account_count(s) != 2 {
        Status::WrongAccountCount
    } else if spec_signer_flags(s) != SIG_MUT_NODUP {
        Status::MissingSigner
    } else if spec_discriminator(s) != 0 && !spec_auth_ok(s) {
        Status::InvalidAuthority
    } else if spec_discriminator(s) == 0 {
        Status::Init
    } else if spec_discriminator(s) == 1 {
        Status::Assign
    } else if spec_discriminator(s) == 2 {
        Status::Write
    } else if spec_discriminator(s) == 3 {
        Status::Close
    } else {
        Status::InvalidInstruction
    }
}

/// Init: the buffer authority becomes the signer key, and the instruction
/// payload minus its discriminator byte overwrites the front of the buffer
/// data; nothing else changes.
pub open spec fn init_effect(s: Seq<u8>, t: Seq<u8>) -> bool {
    let n = spec_ix_len(s) - 1;
    let ps = spec_payload_start(s);
    &&& t.len() == s.len()
    &&& (forall|j: int|
        0 <= j < PUBKEY_LENGTH ==> #[trigger] t[BUFFER_AUTH + j] == s[SIGNER_KEY + j])
    &&& (forall|j: int| 0 <= j < n ==> #[trigger] t[BUFFER_DATA + j] == s[ps + j])
    &&& (forall|k: int|
        0 <= k < s.len() && !(BUFFER_AUTH <= k < BUFFER_AUTH + PUBKEY_LENGTH) && !(BUFFER_DATA
            <= k < BUFFER_DATA + n) ==> t[k] == s[k])
}

/// Assign: the public key at the front of the payload becomes the buffer
/// authority; nothing else changes.
pub open spec fn assign_effect(s: Seq<u8>, t: Seq<u8>) -> bool {
    let ps = spec_payload_start(s);
    &&& t.len() == s.len()
    &&& (forall|j: int| 0 <= j < PUBKEY_LENGTH ==> #[trigger] t[BUFFER_AUTH + j] == s[ps + j])
    &&& (forall|k: int|
        0 <= k < s.len() && !(BUFFER_AUTH <= k < BUFFER_AUTH + PUBKEY_LENGTH) ==> t[k] == s[k])
}

/// Write: the payload past its 3-byte destination scalar overwrites exactly
/// the buffer data bytes `[o, o + n)`, where `o` is that scalar and `n` the
/// payload length minus the discriminator and the scalar; nothing else
/// changes.
pub open spec fn write_effect(s: Seq<u8>, t: Seq<u8>) -> bool {
    let o = spec_write_offset(s);
    let n = spec_ix_len(s) - 4;
    let ps = spec_payload_start(s);
    &&& t.len() == s.len()
    &&& (forall|j: int| 0 <= j < n ==> #[trigger] t[BUFFER_DATA + o + j] == s[ps + 3 + j])
    &&& (forall|k: int|
        0 <= k < s.len() && !(BUFFER_DATA + o <= k < BUFFER_DATA + o + n) ==> t[k] == s[k])
}

/// Close: the buffer's lamport balance moves onto the signer's, the buffer's
/// balance and stored length are zeroed, and the owner field is overwritten
/// with zero bytes; everything else — the authority field included — stays
/// as it was.
pub open spec fn close_effect(s: Seq<u8>, t: Seq<u8>) -> bool {
    &&& t.len() == s.len()
    &&& spec_u64_le(t, SIGNER_LAMPORTS as int) == spec_u64_le(s, SIGNER_LAMPORTS as int)
        + spec_u64_le(s, BUFFER_LAMPORTS as int)
    &&& spec_u64_le(t, BUFFER_LAMPORTS as int) == 0
    &&& spec_u64_le(t, BUFFER_SIZE as int) == 0
    &&& (forall|j: int| 0 <= j < PUBKEY_LENGTH ==> #[trigger] t[BUFFER_OWNER + j] == 0)
    &&& (forall|k: int|
        0 <= k < s.len() && !(SIGNER_LAMPORTS <= k < SIGNER_LAMPORTS + 8) && !(BUFFER_OWNER <= k
            < BUFFER_OWNER + PUBKEY_LENGTH) && !(BUFFER_LAMPORTS <= k < BUFFER_LAMPORTS + 8)
            && !(BUFFER_SIZE <= k < BUFFER_SIZE + 8) ==> t[k] == s[k])
}

} // verus!
