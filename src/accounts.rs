use vstd::prelude::*;

verus! {

/// What an instruction sees of any account it is handed.
#[derive(Debug, Clone, Copy, PartialEq, Eq)]
pub struct AccountView {
    /// The account's address.
    pub key: [u8; 32],
    /// The program that owns the account.
    pub owner: [u8; 32],
    /// Whether the transaction is signed by this account.
    pub is_signer: bool,
    /// Whether the transaction may write this account.
    pub is_writable: bool,
    /// Whether the account holds a program.
    pub executable: bool,
}

/// A token account: a balance of one mint held by one wallet.
#[derive(Debug, Clone, Copy, PartialEq, Eq)]
pub struct TokenAccountView {
    /// The account itself.
    pub account: AccountView,
    /// The mint whose tokens the account holds.
    pub mint: [u8; 32],
    /// The wallet that may move the tokens.
    pub holder: [u8; 32],
    /// The number of base units held.
    pub amount: u64,
}

/// A mint: the record of one token type.
#[derive(Debug, Clone, Copy, PartialEq, Eq)]
pub struct MintView {
    /// The account itself.
    pub account: AccountView,
    /// Who may mint new units, if anyone.
    pub mint_authority: Option<[u8; 32]>,
    /// Who may freeze token accounts of this mint, if anyone.
    pub freeze_authority: Option<[u8; 32]>,
    /// The number of decimal places of one unit.
    pub decimals: u8,
}

/// The accounts of a transfer of fungible tokens.
#[derive(Debug, Clone, Copy, PartialEq, Eq)]
pub struct SendToken {
    /// The wallet that signs for the source account.
    pub source_authority: AccountView,
    /// The account that the tokens leave.
    pub source_token_account: TokenAccountView,
    /// The account that receives the tokens.
    pub dest_token_account: TokenAccountView,
    /// The mint of the tokens.
    pub mint: MintView,
    /// The token program.
    pub token_program: AccountView,
}

/// The accounts of the creation of a non-fungible token, as they stand once
/// the new mint and the holder's associated token account exist.
#[derive(Debug, Clone, Copy, PartialEq, Eq)]
pub struct CreateNft {
    /// The creator: payer, mint authority and first holder.
    pub authority: AccountView,
    /// The new mint.
    pub mint: MintView,
    /// The metadata account to be written, at the address derived from the mint.
    pub metadata: AccountView,
    /// The creator's associated token account for the new mint.
    pub token_account: TokenAccountView,
    /// The system program.
    pub system_program: AccountView,
    /// The token program.
    pub token_program: AccountView,
    /// The associated token account program.
    pub associated_token_program: AccountView,
    /// The rent sysvar.
    pub rent: AccountView,
    /// The token metadata program.
    pub token_metadata_program: AccountView,
}

/// The accounts of a transfer of one non-fungible token.
#[derive(Debug, Clone, Copy, PartialEq, Eq)]
pub struct SendNft {
    /// The wallet that signs for the source account.
    pub source_authority: AccountView,
    /// The account that holds the token now.
    pub source_token_account: TokenAccountView,
    /// The empty account that receives it.
    pub dest_token_account: TokenAccountView,
    /// The mint of the token.
    pub mint: MintView,
    /// The token program.
    pub token_program: AccountView,
}

} // verus!
