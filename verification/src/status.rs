//! The outcome of one invocation, as reported back to the host.
//!
//! The host only consumes a scalar return code (zero for success, one for
//! failure); the variant itself also determines the diagnostic line that the
//! host's log stream receives.

use vstd::prelude::*;

verus! {

/// Which branch of the program an invocation took.
///
/// The first four variants are the successfully executed operations; the
/// last four are the guard rejections and the unknown-operation branch, all
/// of which leave the input region untouched.
#[derive(Clone, Copy, Debug, PartialEq, Eq, Structural)]
pub enum Status {
    Init,
    Assign,
    Write,
    Close,
    WrongAccountCount,
    MissingSigner,
    InvalidAuthority,
    InvalidInstruction,
}

impl Status {
    /// True of the four operation branches, which leave the host's default
    /// success interpretation in place.
    pub open spec fn spec_is_success(self) -> bool {
        match self {
            Status::Init => true,
            Status::Assign => true,
            Status::Write => true,
            Status::Close => true,
            Status::WrongAccountCount => false,
            Status::MissingSigner => false,
            Status::InvalidAuthority => false,
            Status::InvalidInstruction => false,
        }
    }

    /// The scalar return signal: 0 for success, 1 for every failure.
    pub open spec fn spec_code(self) -> u64 {
        if self.spec_is_success() {
            0
        } else {
            1
        }
    }

    pub fn code(&self) -> (r: u64)
        ensures
            r == self.spec_code(),
    {
        match self {
            Status::Init => 0,
            Status::Assign => 0,
            Status::Write => 0,
            Status::Close => 0,
            Status::WrongAccountCount => 1,
            Status::MissingSigner => 1,
            Status::InvalidAuthority => 1,
            Status::InvalidInstruction => 1,
        }
    }

    /// The diagnostic line emitted for this branch.
    pub open spec fn spec_log_line(self) -> Seq<char> {
        match self {
            Status::Init => "Init"@,
            Status::Assign => "Assign"@,
            Status::Write => "Write"@,
            Status::Close => "Close"@,
            Status::WrongAccountCount => "Wrong number of accounts"@,
            Status::MissingSigner => "Missing signer"@,
            Status::InvalidAuthority => "Invalid authority"@,
            Status::InvalidInstruction => "Invalid IX"@,
        }
    }

    pub fn log_line(&self) -> (r: &'static str)
        ensures
            r@ == self.spec_log_line(),
    {
        match self {
            Status::Init => "Init",
            Status::Assign => "Assign",
            Status::Write => "Write",
            Status::Close => "Close",
            Status::WrongAccountCount => "Wrong number of accounts",
            Status::MissingSigner => "Missing signer",
            Status::InvalidAuthority => "Invalid authority",
            Status::InvalidInstruction => "Invalid IX",
        }
    }
}

} // verus!
