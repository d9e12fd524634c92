//! The guarantees that hold across invocations: which inputs the guards
//! reject, that Init succeeds unconditionally, what a repeated Close does,
//! and the Init round trip.
//!
//! Together with `entrypoint`'s own contract — a rejected invocation leaves
//! the region untouched, an executed operation has exactly its stated
//! effect — these pin the observable behaviour of the program.

use vstd::prelude::*;
use crate::bytes::{lemma_align8_bounds, spec_u64_le};
use crate::model::{BUFFER_AUTH, BUFFER_DATA, BUFFER_LAMPORTS, BUFFER_OWNER, BUFFER_SIZE,
    IX_MIN_OFFSET, PUBKEY_LENGTH, SIGNER_KEY, SIGNER_LAMPORTS, SIG_MUT_NODUP, close_effect,
    init_effect, region_wf, spec_account_count, spec_auth_ok, spec_discriminator,
    spec_guard_passes, spec_ix_len, spec_payload_start, spec_signer_flags, spec_status,
    spec_stored_len};
use crate::status::Status;

verus! {

/// An invocation with an account count other than 2 is rejected before the
/// dispatcher runs: the status is the account-count failure, and its return
/// code signals failure.
pub proof fn lemma_wrong_account_count(s: Seq<u8>)
    requires
        spec_account_count(s) != 2,
    ensures
        spec_status(s) == Status::WrongAccountCount,
        spec_status(s).spec_code() == 1,
{
}

/// An invocation whose signer flags are not the signer-writable-nonduplicate
/// pattern is rejected before the dispatcher runs.
pub proof fn lemma_missing_signer(s: Seq<u8>)
    requires
        spec_account_count(s) == 2,
        spec_signer_flags(s) != SIG_MUT_NODUP,
    ensures
        spec_status(s) == Status::MissingSigner,
        spec_status(s).spec_code() == 1,
{
}

/// Once the structural guards pass, Init always executes, whatever value the
/// stored authority happens to hold: the authority gate only applies to
/// non-Init discriminators.
pub proof fn lemma_init_always_succeeds(s: Seq<u8>)
    requires
        spec_guard_passes(s),
        spec_discriminator(s) == 0,
    ensures
        spec_status(s) == Status::Init,
        spec_status(s).spec_code() == 0,
{
}

/// For every non-Init discriminator — Assign, Write, Close, and unknown ones
/// alike — a signer whose key differs from the stored authority is turned
/// away with the authority failure.
pub proof fn lemma_authority_gate(s: Seq<u8>)
    requires
        spec_guard_passes(s),
        spec_discriminator(s) != 0,
        !spec_auth_ok(s),
    ensures
        spec_status(s) == Status::InvalidAuthority,
        spec_status(s).spec_code() == 1,
{
}

/// Close is idempotent on the lamport and length fields it zeroes, but it
/// does not retire the account's authority: the authority and signer key
/// bytes survive a Close unchanged, so a second Close by the same signer
/// still passes the authority gate — it re-zeroes the already-zero fields
/// and transfers nothing further to the signer.
pub proof fn lemma_close_repeat(s: Seq<u8>, t: Seq<u8>, u: Seq<u8>)
    requires
        s.len() >= BUFFER_DATA,
        close_effect(s, t),
        close_effect(t, u),
    ensures
        spec_auth_ok(t) == spec_auth_ok(s),
        spec_u64_le(t, BUFFER_LAMPORTS as int) == 0,
        spec_u64_le(u, SIGNER_LAMPORTS as int) == spec_u64_le(t, SIGNER_LAMPORTS as int),
        spec_u64_le(u, BUFFER_LAMPORTS as int) == 0,
        spec_u64_le(u, BUFFER_SIZE as int) == 0,
        forall|j: int| 0 <= j < PUBKEY_LENGTH ==> #[trigger] u[BUFFER_OWNER + j] == 0,
{
    assert forall|j: int|
        0 <= j < PUBKEY_LENGTH implies #[trigger] t[BUFFER_AUTH + j] == s[BUFFER_AUTH + j]
        && #[trigger] t[SIGNER_KEY + j] == s[SIGNER_KEY + j] by {
        assert(t[BUFFER_AUTH + j] == s[BUFFER_AUTH + j]);
        assert(t[SIGNER_KEY + j] == s[SIGNER_KEY + j]);
    }
    assert(spec_auth_ok(s) ==> spec_auth_ok(t)) by {
        if spec_auth_ok(s) {
            assert forall|j: int|
                0 <= j < PUBKEY_LENGTH implies #[trigger] t[BUFFER_AUTH + j] == t[SIGNER_KEY
                + j] by {
                assert(s[BUFFER_AUTH + j] == s[SIGNER_KEY + j]);
            }
        }
    }
    assert(spec_auth_ok(t) ==> spec_auth_ok(s)) by {
        if spec_auth_ok(t) {
            assert forall|j: int|
                0 <= j < PUBKEY_LENGTH implies #[trigger] s[BUFFER_AUTH + j] == s[SIGNER_KEY
                + j] by {
                assert(t[BUFFER_AUTH + j] == t[SIGNER_KEY + j]);
            }
        }
    }
}

/// Round trip: after an Init whose instruction payload is `P` (discriminator
/// byte included), the front of the buffer data reads back as exactly `P`
/// minus that leading discriminator byte.
pub proof fn lemma_init_round_trip(s: Seq<u8>, t: Seq<u8>)
    requires
        region_wf(s),
        spec_guard_passes(s),
        spec_discriminator(s) == 0,
        init_effect(s, t),
    ensures
        t.subrange(BUFFER_DATA as int, BUFFER_DATA + spec_ix_len(s) - 1) == s.subrange(
            spec_payload_start(s),
            spec_payload_start(s) + spec_ix_len(s) - 1,
        ),
{
    lemma_align8_bounds(IX_MIN_OFFSET + spec_stored_len(s));
    let n = spec_ix_len(s) - 1;
    assert forall|j: int|
        0 <= j < n implies #[trigger] t.subrange(BUFFER_DATA as int, BUFFER_DATA + n)[j]
        == s.subrange(spec_payload_start(s), spec_payload_start(s) + n)[j] by {
        assert(t[BUFFER_DATA + j] == s[spec_payload_start(s) + j]);
    }
    assert(t.subrange(BUFFER_DATA as int, BUFFER_DATA + n) =~= s.subrange(
        spec_payload_start(s),
        spec_payload_start(s) + n,
    ));
}

} // verus!
