use vstd::prelude::*;

verus! {

/// Why an instruction's accounts were rejected.
///
/// Each variant stands for the account-framework error of the same name.
#[derive(Debug, Clone, Copy, PartialEq, Eq, Structural)]
pub enum AccountError {
    /// An account that must be writable was passed read-only.
    ConstraintMut,
    /// A token account does not belong to the mint passed beside it.
    ConstraintHasOne,
    /// A balance condition on a token account does not hold.
    ConstraintRaw,
    /// An account's key is not the address derived from its seeds.
    ConstraintSeeds,
    /// An account's key is not the one fixed in the program.
    ConstraintAddress,
    /// A token account holds tokens of another mint.
    ConstraintTokenMint,
    /// A token account is held by another wallet.
    ConstraintTokenOwner,
    /// A mint has another mint authority.
    ConstraintMintMintAuthority,
    /// A mint has another freeze authority.
    ConstraintMintFreezeAuthority,
    /// A mint has a number of decimals other than the one required.
    ConstraintMintDecimals,
    /// A token or mint account is not owned by the token program.
    AccountOwnedByWrongProgram,
    /// A program account has another key than the program expected.
    InvalidProgramId,
    /// A program account is not executable.
    InvalidProgramExecutable,
    /// An account that must sign did not.
    AccountNotSigner,
    /// A token account is not the associated account of its wallet and mint.
    AccountNotAssociatedTokenAccount,
    /// A sysvar account has another key than the sysvar expected.
    AccountSysvarMismatch,
}

impl AccountError {
    /// The numeric code that the account framework gives this error.
    pub open spec fn spec_code(self) -> u32 {
        match self {
            AccountError::ConstraintMut => 2000,
            AccountError::ConstraintHasOne => 2001,
            AccountError::ConstraintRaw => 2003,
            AccountError::ConstraintSeeds => 2006,
            AccountError::ConstraintAddress => 2012,
            AccountError::ConstraintTokenMint => 2014,
            AccountError::ConstraintTokenOwner => 2015,
            AccountError::ConstraintMintMintAuthority => 2016,
            AccountError::ConstraintMintFreezeAuthority => 2017,
            AccountError::ConstraintMintDecimals => 2018,
            AccountError::AccountOwnedByWrongProgram => 3007,
            AccountError::InvalidProgramId => 3008,
            AccountError::InvalidProgramExecutable => 3009,
            AccountError::AccountNotSigner => 3010,
            AccountError::AccountNotAssociatedTokenAccount => 3014,
            AccountError::AccountSysvarMismatch => 3015,
        }
    }

    /// The numeric code that the account framework gives this error.
    pub fn code(&self) -> (r: u32)
        ensures
            r == self.spec_code(),
    {
        match self {
            AccountError::ConstraintMut => 2000,
            AccountError::ConstraintHasOne => 2001,
            AccountError::ConstraintRaw => 2003,
            AccountError::ConstraintSeeds => 2006,
            AccountError::ConstraintAddress => 2012,
            AccountError::ConstraintTokenMint => 2014,
            AccountError::ConstraintTokenOwner => 2015,
            AccountError::ConstraintMintMintAuthority => 2016,
            AccountError::ConstraintMintFreezeAuthority => 2017,
            AccountError::ConstraintMintDecimals => 2018,
            AccountError::AccountOwnedByWrongProgram => 3007,
            AccountError::InvalidProgramId => 3008,
            AccountError::InvalidProgramExecutable => 3009,
            AccountError::AccountNotSigner => 3010,
            AccountError::AccountNotAssociatedTokenAccount => 3014,
            AccountError::AccountSysvarMismatch => 3015,
        }
    }
}

} // verus!
