//! Failures that the operating system reports.

use vstd::prelude::*;

verus! {

/// A failed system operation: its error number, if it has one, and its text.
#[derive(Debug, PartialEq, Eq)]
pub struct OsError {
    pub code: Option<i32>,
    pub text: String,
}

/// The error numbers that have a meaning of their own here.
#[derive(Debug, Clone, Copy, PartialEq, Eq, Structural)]
pub struct ErrnoCodes {
    pub no_device: i32,
    pub access_denied: i32,
    pub key_revoked: i32,
    pub cancelled: i32,
}

impl ErrnoCodes {
    /// The numbers are those of a system. The first two are the same on all;
    /// the others differ between families of processors.
    pub open spec fn known(self) -> bool {
        &&& self.no_device == 19
        &&& self.access_denied == 13
        &&& {
            ||| self.cancelled == 125 && self.key_revoked == 128
            ||| self.cancelled == 158 && self.key_revoked == 163
            ||| self.cancelled == 127 && self.key_revoked == 130
        }
    }
}

/// The constants `ENODEV`, `EACCES`, `EKEYREVOKED` and `ECANCELED` of
/// `nix::libc`. The first two are 19 and 13 on every system that has all four
/// and that `nix` supports. `ECANCELED` and `EKEYREVOKED` are 158 and 163 on
/// MIPS, 127 and 130 on SPARC, and 125 and 128 elsewhere; which of these the
/// program runs on is left unsaid.
#[verifier::external_body]
pub(crate) fn errno_codes() -> (codes: ErrnoCodes)
    ensures
        codes.known(),
{
    ErrnoCodes {
        no_device: nix::libc::ENODEV,
        access_denied: nix::libc::EACCES,
        key_revoked: nix::libc::EKEYREVOKED,
        cancelled: nix::libc::ECANCELED,
    }
}

/// What an error number says about an authorized display.
#[derive(Debug, Clone, Copy, PartialEq, Eq, Structural)]
pub enum ErrnoMeaning {
    NoDevice,
    AccessDenied,
    Revoked,
    Cancelled,
    Other,
}

pub open spec fn meaning_of(codes: ErrnoCodes, code: Option<i32>) -> ErrnoMeaning {
    match code {
        None => ErrnoMeaning::Other,
        Some(code) => if code == codes.no_device {
            ErrnoMeaning::NoDevice
        } else if code == codes.access_denied {
            ErrnoMeaning::AccessDenied
        } else if code == codes.key_revoked {
            ErrnoMeaning::Revoked
        } else if code == codes.cancelled {
            ErrnoMeaning::Cancelled
        } else {
            ErrnoMeaning::Other
        },
    }
}

/// The meaning of an error number, given the numbers of the system.
pub fn errno_meaning(codes: ErrnoCodes, code: Option<i32>) -> (meaning: ErrnoMeaning)
    ensures
        meaning == meaning_of(codes, code),
{
    match code {
        None => ErrnoMeaning::Other,
        Some(code) => if code == codes.no_device {
            ErrnoMeaning::NoDevice
        } else if code == codes.access_denied {
            ErrnoMeaning::AccessDenied
        } else if code == codes.key_revoked {
            ErrnoMeaning::Revoked
        } else if code == codes.cancelled {
            ErrnoMeaning::Cancelled
        } else {
            ErrnoMeaning::Other
        },
    }
}

/// Each number has its own meaning, and any other, or none, has none.
pub proof fn numbers_have_their_own_meaning(codes: ErrnoCodes, code: i32)
    requires
        codes.known(),
    ensures
        meaning_of(codes, Some(code)) is NoDevice <==> code == 19,
        meaning_of(codes, Some(code)) is AccessDenied <==> code == 13,
        meaning_of(codes, Some(code)) is Revoked <==> code == codes.key_revoked,
        meaning_of(codes, Some(code)) is Cancelled <==> code == codes.cancelled,
        meaning_of(codes, None) is Other,
        codes.key_revoked != codes.cancelled,
{
}

} // verus!
