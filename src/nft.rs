use vstd::prelude::*;
use crate::accounts::{AccountView, CreateNft};
use crate::error::AccountError;
use crate::keys::{
    associated_token_program_id, associated_token_program_key, find_program_address, keys_equal,
    metadata_program_id, metadata_program_key, opt_key_view, program_address_of, rent_sysvar_id,
    rent_sysvar_key, seeds_view, system_program_id, system_program_key, token_program_id,
    token_program_key,
};
use crate::transfer::owned_by_token_program;

verus! {

/// The creation of a mint's metadata account, to be carried out by the token
/// metadata program.
#[derive(Debug, PartialEq, Eq)]
pub struct MetadataCreation {
    pub metadata: [u8; 32],
    pub mint: [u8; 32],
    pub mint_authority: [u8; 32],
    pub payer: [u8; 32],
    pub update_authority: [u8; 32],
    pub name: String,
    pub symbol: String,
    pub uri: String,
    /// The royalty, in hundredths of a percent.
    pub seller_fee_basis_points: u16,
    pub is_mutable: bool,
    pub update_authority_is_signer: bool,
}

/// The issue of `amount` new units of a mint into a token account, signed for
/// by the mint authority, to be carried out by the token program.
#[derive(Debug, Clone, Copy, PartialEq, Eq)]
pub struct TokenMintTo {
    pub mint: [u8; 32],
    pub to: [u8; 32],
    pub authority: [u8; 32],
    pub amount: u64,
}

/// What creating a non-fungible token takes once its accounts pass: first its
/// metadata account, then its single unit, issued to the creator.
#[derive(Debug, PartialEq, Eq)]
pub struct NftCreation {
    pub metadata: MetadataCreation,
    pub mint_to: TokenMintTo,
}

/// The ASCII bytes of the word "metadata", the first seed of a metadata address.
pub open spec fn metadata_tag() -> Seq<u8> {
    seq![109, 101, 116, 97, 100, 97, 116, 97]
}

/// The seeds of a mint's metadata address under the token metadata program.
pub open spec fn metadata_seeds(mint: Seq<u8>) -> Seq<Seq<u8>> {
    seq![metadata_tag(), metadata_program_key(), mint]
}

/// The seeds of a wallet's associated token account for a mint, under the
/// associated token account program.
pub open spec fn associated_token_seeds(wallet: Seq<u8>, mint: Seq<u8>) -> Seq<Seq<u8>> {
    seq![wallet, token_program_key(), mint]
}

/// The address of a mint's metadata account, if one can be derived.
pub open spec fn metadata_address(mint: Seq<u8>) -> Option<Seq<u8>> {
    program_address_of(metadata_seeds(mint), metadata_program_key())
}

/// The address of a wallet's associated token account for a mint, if one can
/// be derived.
pub open spec fn associated_token_address(wallet: Seq<u8>, mint: Seq<u8>) -> Option<Seq<u8>> {
    program_address_of(associated_token_seeds(wallet, mint), associated_token_program_key())
}

/// Whether an optional authority is present and is the given key.
pub open spec fn is_authority(auth: Option<[u8; 32]>, key: [u8; 32]) -> bool {
    auth matches Some(k) && k@ == key@
}

/// Whether an account is the program with the given id.
pub open spec fn program_violation(a: AccountView, id: Seq<u8>) -> Option<AccountError> {
    if a.key@ != id {
        Some(AccountError::InvalidProgramId)
    } else if !a.executable {
        Some(AccountError::InvalidProgramExecutable)
    } else {
        None
    }
}

/// The first check that the accounts of an NFT creation fail, if any, given
/// the derived metadata and associated token addresses: first the kind of
/// each account, field by field, then the constraints on each, field by field.
pub open spec fn create_nft_violation(
    a: CreateNft,
    metadata_addr: Option<Seq<u8>>,
    associated_addr: Option<Seq<u8>>,
) -> Option<AccountError> {
    if !a.authority.is_signer {
        Some(AccountError::AccountNotSigner)
    } else if !owned_by_token_program(a.mint.account) {
        Some(AccountError::AccountOwnedByWrongProgram)
    } else if !owned_by_token_program(a.token_account.account) {
        Some(AccountError::AccountOwnedByWrongProgram)
    } else if program_violation(a.system_program, system_program_key()) is Some {
        program_violation(a.system_program, system_program_key())
    } else if program_violation(a.token_program, token_program_key()) is Some {
        program_violation(a.token_program, token_program_key())
    } else if program_violation(a.associated_token_program, associated_token_program_key()) is Some {
        program_violation(a.associated_token_program, associated_token_program_key())
    } else if a.rent.key@ != rent_sysvar_key() {
        Some(AccountError::AccountSysvarMismatch)
    } else if !a.authority.is_writable {
        Some(AccountError::ConstraintMut)
    } else if !is_authority(a.mint.mint_authority, a.authority.key) {
        Some(AccountError::ConstraintMintMintAuthority)
    } else if !is_authority(a.mint.freeze_authority, a.authority.key) {
        Some(AccountError::ConstraintMintFreezeAuthority)
    } else if a.mint.decimals != 0 {
        Some(AccountError::ConstraintMintDecimals)
    } else if !a.mint.account.is_writable {
        Some(AccountError::ConstraintMut)
    } else if metadata_addr != Some(a.metadata.key@) {
        Some(AccountError::ConstraintSeeds)
    } else if !a.metadata.is_writable {
        Some(AccountError::ConstraintMut)
    } else if a.token_account.mint@ != a.mint.account.key@ {
        Some(AccountError::ConstraintTokenMint)
    } else if a.token_account.holder@ != a.authority.key@ {
        Some(AccountError::ConstraintTokenOwner)
    } else if associated_addr != Some(a.token_account.account.key@) {
        Some(AccountError::AccountNotAssociatedTokenAccount)
    } else if !a.token_account.account.is_writable {
        Some(AccountError::ConstraintMut)
    } else if a.token_metadata_program.key@ != metadata_program_key() {
        Some(AccountError::ConstraintAddress)
    } else {
        None
    }
}

/// Whether `c` is the creation of the NFT that the accounts describe, named
/// `name`, with symbol `symbol` and metadata at `uri`: a mutable metadata
/// account without royalty, whose creator pays, signs and may update it, and
/// one unit issued into the creator's token account.
pub open spec fn is_nft_creation(
    c: NftCreation,
    a: CreateNft,
    name: Seq<char>,
    symbol: Seq<char>,
    uri: Seq<char>,
) -> bool {
    &&& c.metadata.metadata == a.metadata.key
    &&& c.metadata.mint == a.mint.account.key
    &&& c.metadata.mint_authority == a.authority.key
    &&& c.metadata.payer == a.authority.key
    &&& c.metadata.update_authority == a.authority.key
    &&& c.metadata.name@ == name
    &&& c.metadata.symbol@ == symbol
    &&& c.metadata.uri@ == uri
    &&& c.metadata.seller_fee_basis_points == 0
    &&& c.metadata.is_mutable
    &&& c.metadata.update_authority_is_signer
    &&& c.mint_to.mint == a.mint.account.key
    &&& c.mint_to.to == a.token_account.account.key
    &&& c.mint_to.authority == a.authority.key
    &&& c.mint_to.amount == 1
}

fn check_program(a: &AccountView, id: &[u8; 32]) -> (r: Result<(), AccountError>)
    ensures
        r == (match program_violation(*a, id@) {
            Some(e) => Err(e),
            None => Ok(()),
        }),
{
    if !keys_equal(&a.key, id) {
        Err(AccountError::InvalidProgramId)
    } else if !a.executable {
        Err(AccountError::InvalidProgramExecutable)
    } else {
        Ok(())
    }
}

fn holds_authority(auth: &Option<[u8; 32]>, key: &[u8; 32]) -> (r: bool)
    ensures
        r == is_authority(*auth, *key),
{
    match auth {
        Some(k) => keys_equal(k, key),
        None => false,
    }
}

fn key_matches(addr: &Option<[u8; 32]>, key: &[u8; 32]) -> (r: bool)
    ensures
        r == (opt_key_view(*addr) == Some(key@)),
{
    match addr {
        Some(k) => keys_equal(k, key),
        None => false,
    }
}

/// Checks the accounts of an NFT creation against the metadata address and
/// the associated token address derived for them (`None` where none could
/// be), and where they pass gives what is to be created.
pub fn check_create_nft(
    accounts: &CreateNft,
    metadata_addr: Option<[u8; 32]>,
    associated_addr: Option<[u8; 32]>,
    name: String,
    symbol: String,
    uri: String,
) -> (r: Result<NftCreation, AccountError>)
    ensures
        match create_nft_violation(*accounts, opt_key_view(metadata_addr), opt_key_view(associated_addr)) {
            Some(e) => r == Err::<NftCreation, AccountError>(e),
            None => r is Ok && is_nft_creation(r->Ok_0, *accounts, name@, symbol@, uri@),
        },
{
    let a = accounts;
    if !a.authority.is_signer {
        return Err(AccountError::AccountNotSigner);
    }
    let token_id = token_program_id();
    if !keys_equal(&a.mint.account.owner, &token_id) {
        return Err(AccountError::AccountOwnedByWrongProgram);
    }
    if !keys_equal(&a.token_account.account.owner, &token_id) {
        return Err(AccountError::AccountOwnedByWrongProgram);
    }
    let system_id = system_program_id();
    if let Err(e) = check_program(&a.system_program, &system_id) {
        return Err(e);
    }
    if let Err(e) = check_program(&a.token_program, &token_id) {
        return Err(e);
    }
    let associated_id = associated_token_program_id();
    if let Err(e) = check_program(&a.associated_token_program, &associated_id) {
        return Err(e);
    }
    let rent_id = rent_sysvar_id();
    if !keys_equal(&a.rent.key, &rent_id) {
        return Err(AccountError::AccountSysvarMismatch);
    }
    if !a.authority.is_writable {
        return Err(AccountError::ConstraintMut);
    }
    if !holds_authority(&a.mint.mint_authority, &a.authority.key) {
        return Err(AccountError::ConstraintMintMintAuthority);
    }
    if !holds_authority(&a.mint.freeze_authority, &a.authority.key) {
        return Err(AccountError::ConstraintMintFreezeAuthority);
    }
    if a.mint.decimals != 0 {
        return Err(AccountError::ConstraintMintDecimals);
    }
    if !a.mint.account.is_writable {
        return Err(AccountError::ConstraintMut);
    }
    if !key_matches(&metadata_addr, &a.metadata.key) {
        return Err(AccountError::ConstraintSeeds);
    }
    if !a.metadata.is_writable {
        return Err(AccountError::ConstraintMut);
    }
    if !keys_equal(&a.token_account.mint, &a.mint.account.key) {
        return Err(AccountError::ConstraintTokenMint);
    }
    if !keys_equal(&a.token_account.holder, &a.authority.key) {
        return Err(AccountError::ConstraintTokenOwner);
    }
    if !key_matches(&associated_addr, &a.token_account.account.key) {
        return Err(AccountError::AccountNotAssociatedTokenAccount);
    }
    if !a.token_account.account.is_writable {
        return Err(AccountError::ConstraintMut);
    }
    let metadata_id = metadata_program_id();
    if !keys_equal(&a.token_metadata_program.key, &metadata_id) {
        return Err(AccountError::ConstraintAddress);
    }
    let metadata = MetadataCreation {
        metadata: a.metadata.key,
        mint: a.mint.account.key,
        mint_authority: a.authority.key,
        payer: a.authority.key,
        update_authority: a.authority.key,
        name,
        symbol,
        uri,
        seller_fee_basis_points: 0,
        is_mutable: true,
        update_authority_is_signer: true,
    };
    let mint_to = TokenMintTo {
        mint: a.mint.account.key,
        to: a.token_account.account.key,
        authority: a.authority.key,
        amount: 1,
    };
    Ok(NftCreation { metadata, mint_to })
}

fn key_bytes(k: &[u8; 32]) -> (r: Vec<u8>)
    ensures
        r@ == k@,
{
    let mut v: Vec<u8> = Vec::new();
    let mut i: usize = 0;
    while i < 32
        invariant
            0 <= i <= 32,
            k@.len() == 32,
            v@ == k@.subrange(0, i as int),
        decreases 32 - i,
    {
        v.push(k[i]);
        i = i + 1;
    }
    proof {
        assert(k@.subrange(0, 32) =~= k@);
    }
    v
}

/// Derives the address of a mint's metadata account.
fn find_metadata_address(mint: &[u8; 32]) -> (r: Option<[u8; 32]>)
    ensures
        opt_key_view(r) == metadata_address(mint@),
{
    let mut tag: Vec<u8> = Vec::new();
    tag.push(109);
    tag.push(101);
    tag.push(116);
    tag.push(97);
    tag.push(100);
    tag.push(97);
    tag.push(116);
    tag.push(97);
    proof {
        assert(tag@ =~= metadata_tag());
    }
    let program = metadata_program_id();
    let mut seeds: Vec<Vec<u8>> = Vec::new();
    seeds.push(tag);
    seeds.push(key_bytes(&program));
    seeds.push(key_bytes(mint));
    proof {
        assert(seeds_view(seeds@) =~= metadata_seeds(mint@));
    }
    find_program_address(&seeds, &program)
}

/// Derives the address of a wallet's associated token account for a mint.
fn find_associated_token_address(wallet: &[u8; 32], mint: &[u8; 32]) -> (r: Option<[u8; 32]>)
    ensures
        opt_key_view(r) == associated_token_address(wallet@, mint@),
{
    let token_id = token_program_id();
    let mut seeds: Vec<Vec<u8>> = Vec::new();
    seeds.push(key_bytes(wallet));
    seeds.push(key_bytes(&token_id));
    seeds.push(key_bytes(mint));
    proof {
        assert(seeds_view(seeds@) =~= associated_token_seeds(wallet@, mint@));
    }
    let program = associated_token_program_id();
    find_program_address(&seeds, &program)
}

/// Checks the accounts of an NFT creation, the metadata account standing at
/// the address derived from the mint and the token account at the creator's
/// associated address for it, and where they pass gives what is to be
/// created: the NFT named `name`, with symbol `symbol` and metadata at `uri`.
pub fn create_nft(
    accounts: &CreateNft,
    name: String,
    symbol: String,
    uri: String,
) -> (r: Result<NftCreation, AccountError>)
    ensures
        match create_nft_violation(
            *accounts,
            metadata_address(accounts.mint.account.key@),
            associated_token_address(accounts.authority.key@, accounts.mint.account.key@),
        ) {
            Some(e) => r == Err::<NftCreation, AccountError>(e),
            None => r is Ok && is_nft_creation(r->Ok_0, *accounts, name@, symbol@, uri@),
        },
{
    let metadata_addr = find_metadata_address(&accounts.mint.account.key);
    let associated_addr = find_associated_token_address(&accounts.authority.key, &accounts.mint.account.key);
    check_create_nft(accounts, metadata_addr, associated_addr, name, symbol, uri)
}

/// An NFT creation passes only where the creator signs, holds both
/// authorities of a mint without decimals, and receives the unit in an
/// account of that mint that it holds.
pub proof fn lemma_create_nft_checks_authority(
    a: CreateNft,
    metadata_addr: Option<Seq<u8>>,
    associated_addr: Option<Seq<u8>>,
)
    ensures
        create_nft_violation(a, metadata_addr, associated_addr) is None ==> {
            &&& a.authority.is_signer
            &&& is_authority(a.mint.mint_authority, a.authority.key)
            &&& is_authority(a.mint.freeze_authority, a.authority.key)
            &&& a.mint.decimals == 0
            &&& metadata_addr == Some(a.metadata.key@)
            &&& a.token_account.mint@ == a.mint.account.key@
            &&& a.token_account.holder@ == a.authority.key@
            &&& associated_addr == Some(a.token_account.account.key@)
        },
{
}

} // verus!
