use vstd::prelude::*;
use crate::accounts::{AccountView, SendNft, SendToken};
use crate::error::AccountError;
use crate::keys::{keys_equal, token_program_id, token_program_key};

verus! {

/// A move of `amount` base units from one token account to another, signed
/// for by `authority`, to be carried out by the token program.
#[derive(Debug, Clone, Copy, PartialEq, Eq)]
pub struct TokenTransfer {
    pub from: [u8; 32],
    pub to: [u8; 32],
    pub authority: [u8; 32],
    pub amount: u64,
}

/// Whether an account is owned by the token program.
pub open spec fn owned_by_token_program(a: AccountView) -> bool {
    a.owner@ == token_program_key()
}

/// The first check that the accounts of a fungible transfer fail, if any:
/// first the kind of each account, field by field, then the constraints on
/// each, field by field.
pub open spec fn send_token_violation(a: SendToken) -> Option<AccountError> {
    if !a.source_authority.is_signer {
        Some(AccountError::AccountNotSigner)
    } else if !owned_by_token_program(a.source_token_account.account) {
        Some(AccountError::AccountOwnedByWrongProgram)
    } else if !owned_by_token_program(a.dest_token_account.account) {
        Some(AccountError::AccountOwnedByWrongProgram)
    } else if !owned_by_token_program(a.mint.account) {
        Some(AccountError::AccountOwnedByWrongProgram)
    } else if a.token_program.key@ != token_program_key() {
        Some(AccountError::InvalidProgramId)
    } else if !a.token_program.executable {
        Some(AccountError::InvalidProgramExecutable)
    } else if !a.source_authority.is_writable {
        Some(AccountError::ConstraintMut)
    } else if !a.source_token_account.account.is_writable {
        Some(AccountError::ConstraintMut)
    } else if a.source_token_account.mint@ != a.mint.account.key@ {
        Some(AccountError::ConstraintHasOne)
    } else if !a.dest_token_account.account.is_writable {
        Some(AccountError::ConstraintMut)
    } else {
        None
    }
}

/// The first check that the accounts of a non-fungible transfer fail, if any:
/// those of a fungible transfer, with both token accounts tied to the mint,
/// the source holding exactly one unit and the destination none.
pub open spec fn send_nft_violation(a: SendNft) -> Option<AccountError> {
    if !a.source_authority.is_signer {
        Some(AccountError::AccountNotSigner)
    } else if !owned_by_token_program(a.source_token_account.account) {
        Some(AccountError::AccountOwnedByWrongProgram)
    } else if !owned_by_token_program(a.dest_token_account.account) {
        Some(AccountError::AccountOwnedByWrongProgram)
    } else if !owned_by_token_program(a.mint.account) {
        Some(AccountError::AccountOwnedByWrongProgram)
    } else if a.token_program.key@ != token_program_key() {
        Some(AccountError::InvalidProgramId)
    } else if !a.token_program.executable {
        Some(AccountError::InvalidProgramExecutable)
    } else if !a.source_authority.is_writable {
        Some(AccountError::ConstraintMut)
    } else if !a.source_token_account.account.is_writable {
        Some(AccountError::ConstraintMut)
    } else if a.source_token_account.mint@ != a.mint.account.key@ {
        Some(AccountError::ConstraintHasOne)
    } else if a.source_token_account.amount != 1 {
        Some(AccountError::ConstraintRaw)
    } else if !a.dest_token_account.account.is_writable {
        Some(AccountError::ConstraintMut)
    } else if a.dest_token_account.mint@ != a.mint.account.key@ {
        Some(AccountError::ConstraintHasOne)
    } else if a.dest_token_account.amount != 0 {
        Some(AccountError::ConstraintRaw)
    } else {
        None
    }
}

/// The transfer of `amount` units from the source to the destination account.
pub open spec fn transfer_between(
    source: AccountView,
    dest: AccountView,
    authority: AccountView,
    amount: u64,
) -> TokenTransfer {
    TokenTransfer { from: source.key, to: dest.key, authority: authority.key, amount }
}

/// Checks the accounts of a transfer of fungible tokens and, where they pass,
/// gives the transfer to be made.
pub fn send_token(accounts: &SendToken, amount: u64) -> (r: Result<TokenTransfer, AccountError>)
    ensures
        r == (match send_token_violation(*accounts) {
            Some(e) => Err(e),
            None => Ok(
                transfer_between(
                    accounts.source_token_account.account,
                    accounts.dest_token_account.account,
                    accounts.source_authority,
                    amount,
                ),
            ),
        }),
{
    let token_id = token_program_id();
    if !accounts.source_authority.is_signer {
        return Err(AccountError::AccountNotSigner);
    }
    if !keys_equal(&accounts.source_token_account.account.owner, &token_id) {
        return Err(AccountError::AccountOwnedByWrongProgram);
    }
    if !keys_equal(&accounts.dest_token_account.account.owner, &token_id) {
        return Err(AccountError::AccountOwnedByWrongProgram);
    }
    if !keys_equal(&accounts.mint.account.owner, &token_id) {
        return Err(AccountError::AccountOwnedByWrongProgram);
    }
    if !keys_equal(&accounts.token_program.key, &token_id) {
        return Err(AccountError::InvalidProgramId);
    }
    if !accounts.token_program.executable {
        return Err(AccountError::InvalidProgramExecutable);
    }
    if !accounts.source_authority.is_writable {
        return Err(AccountError::ConstraintMut);
    }
    if !accounts.source_token_account.account.is_writable {
        return Err(AccountError::ConstraintMut);
    }
    if !keys_equal(&accounts.source_token_account.mint, &accounts.mint.account.key) {
        return Err(AccountError::ConstraintHasOne);
    }
    if !accounts.dest_token_account.account.is_writable {
        return Err(AccountError::ConstraintMut);
    }
    Ok(TokenTransfer {
        from: accounts.source_token_account.account.key,
        to: accounts.dest_token_account.account.key,
        authority: accounts.source_authority.key,
        amount,
    })
}

/// Checks the accounts of a transfer of one non-fungible token and, where
/// they pass, gives the transfer of its single unit.
pub fn send_nft(accounts: &SendNft) -> (r: Result<TokenTransfer, AccountError>)
    ensures
        r == (match send_nft_violation(*accounts) {
            Some(e) => Err(e),
            None => Ok(
                transfer_between(
                    accounts.source_token_account.account,
                    accounts.dest_token_account.account,
                    accounts.source_authority,
                    1,
                ),
            ),
        }),
{
    let token_id = token_program_id();
    if !accounts.source_authority.is_signer {
        return Err(AccountError::AccountNotSigner);
    }
    if !keys_equal(&accounts.source_token_account.account.owner, &token_id) {
        return Err(AccountError::AccountOwnedByWrongProgram);
    }
    if !keys_equal(&accounts.dest_token_account.account.owner, &token_id) {
        return Err(AccountError::AccountOwnedByWrongProgram);
    }
    if !keys_equal(&accounts.mint.account.owner, &token_id) {
        return Err(AccountError::AccountOwnedByWrongProgram);
    }
    if !keys_equal(&accounts.token_program.key, &token_id) {
        return Err(AccountError::InvalidProgramId);
    }
    if !accounts.token_program.executable {
        return Err(AccountError::InvalidProgramExecutable);
    }
    if !accounts.source_authority.is_writable {
        return Err(AccountError::ConstraintMut);
    }
    if !accounts.source_token_account.account.is_writable {
        return Err(AccountError::ConstraintMut);
    }
    if !keys_equal(&accounts.source_token_account.mint, &accounts.mint.account.key) {
        return Err(AccountError::ConstraintHasOne);
    }
    if accounts.source_token_account.amount != 1 {
        return Err(AccountError::ConstraintRaw);
    }
    if !accounts.dest_token_account.account.is_writable {
        return Err(AccountError::ConstraintMut);
    }
    if !keys_equal(&accounts.dest_token_account.mint, &accounts.mint.account.key) {
        return Err(AccountError::ConstraintHasOne);
    }
    if accounts.dest_token_account.amount != 0 {
        return Err(AccountError::ConstraintRaw);
    }
    Ok(TokenTransfer {
        from: accounts.source_token_account.account.key,
        to: accounts.dest_token_account.account.key,
        authority: accounts.source_authority.key,
        amount: 1,
    })
}

/// A fungible transfer passes only where the source authority signs and the
/// source token account belongs to the mint passed beside it.
pub proof fn lemma_send_token_checks_mint(a: SendToken)
    ensures
        send_token_violation(a) is None ==> {
            &&& a.source_authority.is_signer
            &&& a.source_token_account.mint@ == a.mint.account.key@
        },
{
}

/// A non-fungible transfer passes only from an account holding exactly one
/// unit of the mint to an empty account of the same mint, with the source
/// authority signing.
pub proof fn lemma_send_nft_moves_single_unit(a: SendNft)
    ensures
        send_nft_violation(a) is None ==> {
            &&& a.source_authority.is_signer
            &&& a.source_token_account.amount == 1
            &&& a.dest_token_account.amount == 0
            &&& a.source_token_account.mint@ == a.mint.account.key@
            &&& a.dest_token_account.mint@ == a.mint.account.key@
        },
{
}

} // verus!
