//! The errors with which the program refuses an instruction.
use vstd::prelude::*;

verus! {

/// The program's own errors.  Their numbers start at 6000, after the
/// framework's own codes.
#[derive(Clone, Copy, Debug, PartialEq, Eq, Structural)]
pub enum DappError {
    /// The signer is not the configured authority.
    InvalidAuthority,
    /// The signer is not the event's creator.
    InvalidCreator,
    /// The digital access has reached its max supply.
    MaxSupplyReached,
}

impl DappError {
    pub open spec fn spec_code(self) -> u32 {
        match self {
            DappError::InvalidAuthority => 6000,
            DappError::InvalidCreator => 6001,
            DappError::MaxSupplyReached => 6002,
        }
    }

    /// The number under which the error is reported.
    pub fn code(&self) -> (res: u32)
        ensures
            res == self.spec_code(),
    {
        match self {
            DappError::InvalidAuthority => 6000,
            DappError::InvalidCreator => 6001,
            DappError::MaxSupplyReached => 6002,
        }
    }

    /// The message reported with the error.
    pub fn message(&self) -> (res: &'static str)
        ensures
            self is InvalidAuthority ==> res@ == "The signer authority is invalid"@,
            self is InvalidCreator ==> res@ == "The signer creator is invalid"@,
            self is MaxSupplyReached ==> res@ == "The digital access has reached its max supply"@,
    {
        match self {
            DappError::InvalidAuthority => "The signer authority is invalid",
            DappError::InvalidCreator => "The signer creator is invalid",
            DappError::MaxSupplyReached => "The digital access has reached its max supply",
        }
    }
}

/// Why an instruction was refused: one of the program's own errors, or a
/// check on the accounts or on the written state failing.
#[derive(Clone, Copy, Debug, PartialEq, Eq, Structural)]
pub enum ProgramError {
    /// A program error, reported under its own number.
    Custom(DappError),
    /// An account that must be writable was not passed as writable (2000).
    /// Where the account is still to be created, the runtime refuses the
    /// creation before this check is reached, with an error of its own.
    ConstraintMut,
    /// An account named by a field of another does not match it (2001).
    ConstraintHasOne,
    /// A stated condition on the accounts does not hold (2003).
    ConstraintRaw,
    /// An account is not at the address derived from its seeds (2006).
    ConstraintSeeds,
    /// An account is not at the address it must have (2012).
    ConstraintAddress,
    /// An account's new state does not fit in its space (3004).
    AccountDidNotSerialize,
    /// An account that must sign the transaction did not (3010).
    AccountNotSigner,
    /// A program account is not the program it must be (3008).
    InvalidProgramId,
    /// A token account is not the associated token account of its owner for
    /// its mint (3014).  Where that account does not exist yet, it is the
    /// associated token program that refuses to create it there.
    AccountNotAssociatedTokenAccount,
    /// A sysvar account is not the sysvar it must be (3015).
    AccountSysvarMismatch,
    /// No bump seed gives an address off the curve for the seeds; the
    /// address search aborts the instruction.
    BumpNotFound,
}

impl ProgramError {
    pub open spec fn spec_code(self) -> Option<u32> {
        match self {
            ProgramError::Custom(e) => Some(e.spec_code()),
            ProgramError::ConstraintMut => Some(2000),
            ProgramError::ConstraintHasOne => Some(2001),
            ProgramError::ConstraintRaw => Some(2003),
            ProgramError::ConstraintSeeds => Some(2006),
            ProgramError::ConstraintAddress => Some(2012),
            ProgramError::AccountDidNotSerialize => Some(3004),
            ProgramError::AccountNotSigner => Some(3010),
            ProgramError::InvalidProgramId => Some(3008),
            ProgramError::AccountNotAssociatedTokenAccount => Some(3014),
            ProgramError::AccountSysvarMismatch => Some(3015),
            ProgramError::BumpNotFound => None,
        }
    }

    /// The number under which the error is reported; an aborted address
    /// search has none.
    pub fn code(&self) -> (res: Option<u32>)
        ensures
            res == self.spec_code(),
    {
        match self {
            ProgramError::Custom(e) => Some(e.code()),
            ProgramError::ConstraintMut => Some(2000),
            ProgramError::ConstraintHasOne => Some(2001),
            ProgramError::ConstraintRaw => Some(2003),
            ProgramError::ConstraintSeeds => Some(2006),
            ProgramError::ConstraintAddress => Some(2012),
            ProgramError::AccountDidNotSerialize => Some(3004),
            ProgramError::AccountNotSigner => Some(3010),
            ProgramError::InvalidProgramId => Some(3008),
            ProgramError::AccountNotAssociatedTokenAccount => Some(3014),
            ProgramError::AccountSysvarMismatch => Some(3015),
            ProgramError::BumpNotFound => None,
        }
    }
}

/// The check on an account that must be writable.
pub open spec fn writable_check(is_writable: bool) -> Option<ProgramError> {
    if is_writable {
        None
    } else {
        Some(ProgramError::ConstraintMut)
    }
}

/// Checks that an account that must be writable was passed as writable.
pub fn check_writable(is_writable: bool) -> (res: Option<ProgramError>)
    ensures
        res == writable_check(is_writable),
{
    if is_writable {
        None
    } else {
        Some(ProgramError::ConstraintMut)
    }
}

/// The first error in a sequence of checks, in order; `None` when all pass.
pub open spec fn first_error(checks: Seq<Option<ProgramError>>) -> Option<ProgramError>
    decreases checks.len(),
{
    if checks.len() == 0 {
        None
    } else if checks[0] is Some {
        checks[0]
    } else {
        first_error(checks.drop_first())
    }
}

/// When the checks before `k` pass, the first error is that of check `k`
/// if it fails.
pub proof fn lemma_first_error_at(checks: Seq<Option<ProgramError>>, k: int)
    requires
        0 <= k < checks.len(),
        forall|j: int| 0 <= j < k ==> checks[j] is None,
        checks[k] is Some,
    ensures
        first_error(checks) == checks[k],
    decreases k,
{
    if k > 0 {
        lemma_first_error_at(checks.drop_first(), k - 1);
    }
}

/// When every check passes there is no error.
pub proof fn lemma_first_error_none(checks: Seq<Option<ProgramError>>)
    requires
        forall|j: int| 0 <= j < checks.len() ==> checks[j] is None,
    ensures
        first_error(checks) is None,
    decreases checks.len(),
{
    if checks.len() > 0 {
        lemma_first_error_none(checks.drop_first());
    }
}

/// When there is no error, every check passes.
pub proof fn lemma_first_error_none_each(checks: Seq<Option<ProgramError>>, k: int)
    requires
        first_error(checks) is None,
        0 <= k < checks.len(),
    ensures
        checks[k] is None,
    decreases k,
{
    if k > 0 {
        lemma_first_error_none_each(checks.drop_first(), k - 1);
    }
}

/// The first error of checks run one list after the other.
pub proof fn lemma_first_error_append(a: Seq<Option<ProgramError>>, b: Seq<Option<ProgramError>>)
    ensures
        first_error(a + b) == (if first_error(a) is Some {
            first_error(a)
        } else {
            first_error(b)
        }),
    decreases a.len(),
{
    if a.len() > 0 {
        assert((a + b).drop_first() =~= a.drop_first() + b);
        lemma_first_error_append(a.drop_first(), b);
    } else {
        assert(a + b =~= b);
    }
}

/// The check made when an account is written back at the end of an
/// instruction: its new state must fit in its space.
pub open spec fn write_check(fits: bool) -> Option<ProgramError> {
    if fits {
        None
    } else {
        Some(ProgramError::AccountDidNotSerialize)
    }
}

} // verus!
