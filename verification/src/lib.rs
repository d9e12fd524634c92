//! A minimal account-based storage manager.
//!
//! The host runtime hands the program one contiguous input region holding an
//! account count, a signer account record, a buffer account record and an
//! instruction block.  The program validates the region, checks the signer's
//! authority over the buffer, and executes exactly one of four operations
//! (Init, Assign, Write, Close) in place, reporting the outcome as a status.

use vstd::prelude::*;

pub mod bytes;
pub mod laws;
pub mod model;
pub mod status;

use crate::bytes::{bytes_equal, fill_zero, read_bytes, read_u24_le, read_u32_le, read_u64_le,
    round_up8, write_bytes, write_u64_le, lemma_align8_bounds};
use crate::model::{ACCOUNT_COUNT, BUFFER_AUTH, BUFFER_DATA, BUFFER_LAMPORTS, BUFFER_OWNER,
    BUFFER_SIZE, IX_MIN_OFFSET, PUBKEY_LENGTH, SIGNER_HEADER, SIGNER_KEY, SIGNER_LAMPORTS,
    SIG_MUT_NODUP, assign_effect, close_effect, init_effect, region_wf, spec_status,
    spec_ix_len, spec_payload_start, spec_stored_len, spec_write_offset, write_effect};
use crate::status::Status;

verus! {

/// Runs one invocation on the host-supplied input region.
///
/// The guards run strictly before any mutation: a region with the wrong
/// account count or the wrong signer flags, a non-Init instruction whose
/// signer is not the stored authority, and an unknown discriminator all
/// leave the region untouched and report a failure.  Otherwise exactly one
/// operation executes, with the effect stated for its branch.
pub fn entrypoint(input: &mut Vec<u8>) -> (status: Status)
    requires
        region_wf(old(input)@),
    ensures
        final(input)@.len() == old(input)@.len(),
        status == spec_status(old(input)@),
        !status.spec_is_success() ==> final(input)@ == old(input)@,
        status == Status::Init ==> init_effect(old(input)@, final(input)@),
        status == Status::Assign ==> assign_effect(old(input)@, final(input)@),
        status == Status::Write ==> write_effect(old(input)@, final(input)@),
        status == Status::Close ==> close_effect(old(input)@, final(input)@),
{
    let ghost s = old(input)@;
    let _total_len: usize = input.len();

    let count: u64 = read_u64_le(input, ACCOUNT_COUNT);
    if count != 2 {
        return Status::WrongAccountCount;
    }
    let flags: u32 = read_u32_le(input, SIGNER_HEADER);
    if flags != SIG_MUT_NODUP {
        return Status::MissingSigner;
    }

    proof {
        lemma_align8_bounds(IX_MIN_OFFSET + spec_stored_len(s));
    }

    let stored_len64: u64 = read_u64_le(input, BUFFER_SIZE);
    let stored_len: usize = stored_len64 as usize;
    let offset: usize = round_up8(IX_MIN_OFFSET + stored_len);
    let ix_len64: u64 = read_u64_le(input, offset);
    let ix_len: usize = ix_len64 as usize;
    let disc: u8 = input[offset + 8];
    let payload_start: usize = offset + 9;

    if disc != 0 {
        if !bytes_equal(input, BUFFER_AUTH, SIGNER_KEY, PUBKEY_LENGTH) {
            return Status::InvalidAuthority;
        }
    }

    match disc {
        0 => {
            let key = read_bytes(input, SIGNER_KEY, PUBKEY_LENGTH);
            let payload = read_bytes(input, payload_start, ix_len - 1);
            write_bytes(input, BUFFER_AUTH, &key);
            write_bytes(input, BUFFER_DATA, &payload);
            proof {
                assert forall|j: int| 0 <= j < PUBKEY_LENGTH implies #[trigger] input@[
                    BUFFER_AUTH + j] == s[SIGNER_KEY + j] by {
                    assert(key@[j] == s[SIGNER_KEY + j]);
                    assert(input@[BUFFER_AUTH + j] == key@[j]);
                }
                assert forall|j: int| 0 <= j < spec_ix_len(s) - 1 implies #[trigger] input@[
                    BUFFER_DATA + j] == s[spec_payload_start(s) + j] by {
                    assert(payload@[j] == s[spec_payload_start(s) + j]);
                }
            }
            Status::Init
        },
        1 => {
            let new_authority = read_bytes(input, payload_start, PUBKEY_LENGTH);
            write_bytes(input, BUFFER_AUTH, &new_authority);
            proof {
                assert forall|j: int| 0 <= j < PUBKEY_LENGTH implies #[trigger] input@[
                    BUFFER_AUTH + j] == s[spec_payload_start(s) + j] by {
                    assert(new_authority@[j] == s[spec_payload_start(s) + j]);
                }
            }
            Status::Assign
        },
        2 => {
            let data_offset: u32 = read_u24_le(input, payload_start);
            let payload = read_bytes(input, payload_start + 3, ix_len - 4);
            write_bytes(input, BUFFER_DATA + data_offset as usize, &payload);
            proof {
                assert forall|j: int| 0 <= j < spec_ix_len(s) - 4 implies #[trigger] input@[
                    BUFFER_DATA + spec_write_offset(s) + j] == s[spec_payload_start(s) + 3
                    + j] by {
                    assert(payload@[j] == s[spec_payload_start(s) + 3 + j]);
                    assert(input@[BUFFER_DATA + data_offset as int + j] == payload@[j]);
                }
            }
            Status::Write
        },
        3 => {
            let lamports_buffer: u64 = read_u64_le(input, BUFFER_LAMPORTS);
            let lamports_signer: u64 = read_u64_le(input, SIGNER_LAMPORTS);
            write_u64_le(input, SIGNER_LAMPORTS, lamports_signer + lamports_buffer);
            write_u64_le(input, BUFFER_LAMPORTS, 0);
            write_u64_le(input, BUFFER_SIZE, 0);
            fill_zero(input, BUFFER_OWNER, PUBKEY_LENGTH);
            Status::Close
        },
        _ => Status::InvalidInstruction,
    }
}

} // verus!
