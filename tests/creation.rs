use anchor_lang::prelude::Pubkey;
use uptention::accounts::{AccountView, CreateNft, MintView, TokenAccountView};
use uptention::error::AccountError;
use uptention::nft::{check_create_nft, create_nft, NftCreation};

const CREATOR: [u8; 32] = [21; 32];
const MINT: [u8; 32] = [22; 32];

fn metadata_key(mint: [u8; 32]) -> [u8; 32] {
    mpl_token_metadata::accounts::Metadata::find_pda(&Pubkey::new_from_array(mint)).0.to_bytes()
}

fn associated_key(wallet: [u8; 32], mint: [u8; 32]) -> [u8; 32] {
    anchor_spl::associated_token::get_associated_token_address(
        &Pubkey::new_from_array(wallet),
        &Pubkey::new_from_array(mint),
    )
    .to_bytes()
}

fn plain(key: [u8; 32], owner: [u8; 32]) -> AccountView {
    AccountView { key, owner, is_signer: false, is_writable: true, executable: false }
}

fn program(key: [u8; 32]) -> AccountView {
    AccountView { key, owner: [0; 32], is_signer: false, is_writable: false, executable: true }
}

fn accounts() -> CreateNft {
    let token = anchor_spl::token::ID.to_bytes();
    CreateNft {
        authority: AccountView {
            key: CREATOR,
            owner: [0; 32],
            is_signer: true,
            is_writable: true,
            executable: false,
        },
        mint: MintView {
            account: plain(MINT, token),
            mint_authority: Some(CREATOR),
            freeze_authority: Some(CREATOR),
            decimals: 0,
        },
        metadata: plain(metadata_key(MINT), [0; 32]),
        token_account: TokenAccountView {
            account: plain(associated_key(CREATOR, MINT), token),
            mint: MINT,
            holder: CREATOR,
            amount: 0,
        },
        system_program: program(anchor_lang::system_program::ID.to_bytes()),
        token_program: program(token),
        associated_token_program: program(anchor_spl::associated_token::ID.to_bytes()),
        rent: AccountView {
            key: anchor_lang::solana_program::sysvar::rent::ID.to_bytes(),
            owner: [0; 32],
            is_signer: false,
            is_writable: false,
            executable: false,
        },
        token_metadata_program: program(mpl_token_metadata::ID.to_bytes()),
    }
}

fn create(a: &CreateNft) -> Result<NftCreation, AccountError> {
    create_nft(a, "Badge".to_string(), "BDG".to_string(), "https://example.org/b.json".to_string())
}

#[test]
fn create_nft_gives_metadata_and_one_unit() {
    let a = accounts();
    let c = create(&a).unwrap();
    assert_eq!(c.metadata.metadata, metadata_key(MINT));
    assert_eq!(c.metadata.mint, MINT);
    assert_eq!(c.metadata.mint_authority, CREATOR);
    assert_eq!(c.metadata.payer, CREATOR);
    assert_eq!(c.metadata.update_authority, CREATOR);
    assert_eq!(c.metadata.name, "Badge");
    assert_eq!(c.metadata.symbol, "BDG");
    assert_eq!(c.metadata.uri, "https://example.org/b.json");
    assert_eq!(c.metadata.seller_fee_basis_points, 0);
    assert!(c.metadata.is_mutable);
    assert!(c.metadata.update_authority_is_signer);
    assert_eq!(c.mint_to.mint, MINT);
    assert_eq!(c.mint_to.to, associated_key(CREATOR, MINT));
    assert_eq!(c.mint_to.authority, CREATOR);
    assert_eq!(c.mint_to.amount, 1);
}

#[test]
fn create_nft_rejects_metadata_at_another_address() {
    let mut a = accounts();
    a.metadata.key = [30; 32];
    assert_eq!(create(&a), Err(AccountError::ConstraintSeeds));
}

#[test]
fn create_nft_rejects_metadata_of_another_mint() {
    let mut a = accounts();
    a.metadata.key = metadata_key([23; 32]);
    assert_eq!(create(&a), Err(AccountError::ConstraintSeeds));
}

#[test]
fn create_nft_rejects_a_token_account_that_is_not_associated() {
    let mut a = accounts();
    a.token_account.account.key = [31; 32];
    assert_eq!(create(&a), Err(AccountError::AccountNotAssociatedTokenAccount));
}

#[test]
fn create_nft_rejects_a_token_account_of_another_mint_or_holder() {
    let mut a = accounts();
    a.token_account.mint = [23; 32];
    assert_eq!(create(&a), Err(AccountError::ConstraintTokenMint));
    let mut b = accounts();
    b.token_account.holder = [24; 32];
    assert_eq!(create(&b), Err(AccountError::ConstraintTokenOwner));
}

#[test]
fn create_nft_rejects_a_mint_with_other_settings() {
    let mut a = accounts();
    a.mint.decimals = 9;
    assert_eq!(create(&a), Err(AccountError::ConstraintMintDecimals));
    let mut b = accounts();
    b.mint.mint_authority = None;
    assert_eq!(create(&b), Err(AccountError::ConstraintMintMintAuthority));
    let mut c = accounts();
    c.mint.freeze_authority = Some([24; 32]);
    assert_eq!(create(&c), Err(AccountError::ConstraintMintFreezeAuthority));
}

#[test]
fn create_nft_needs_the_creator_to_sign() {
    let mut a = accounts();
    a.authority.is_signer = false;
    assert_eq!(create(&a), Err(AccountError::AccountNotSigner));
}

#[test]
fn create_nft_needs_the_right_programs() {
    let mut a = accounts();
    a.system_program.key = [1; 32];
    assert_eq!(create(&a), Err(AccountError::InvalidProgramId));
    let mut b = accounts();
    b.associated_token_program.executable = false;
    assert_eq!(create(&b), Err(AccountError::InvalidProgramExecutable));
    let mut c = accounts();
    c.rent.key = [2; 32];
    assert_eq!(create(&c), Err(AccountError::AccountSysvarMismatch));
    let mut d = accounts();
    d.token_metadata_program.key = [3; 32];
    assert_eq!(create(&d), Err(AccountError::ConstraintAddress));
    let mut e = accounts();
    e.mint.account.owner = [4; 32];
    assert_eq!(create(&e), Err(AccountError::AccountOwnedByWrongProgram));
}

#[test]
fn create_nft_needs_writable_accounts() {
    let mut a = accounts();
    a.metadata.is_writable = false;
    assert_eq!(create(&a), Err(AccountError::ConstraintMut));
    let mut b = accounts();
    b.mint.account.is_writable = false;
    assert_eq!(create(&b), Err(AccountError::ConstraintMut));
}

#[test]
fn check_create_nft_without_a_derived_address() {
    let a = accounts();
    let r = check_create_nft(
        &a,
        None,
        Some(associated_key(CREATOR, MINT)),
        "N".to_string(),
        "S".to_string(),
        "U".to_string(),
    );
    assert_eq!(r, Err(AccountError::ConstraintSeeds));
    let s = check_create_nft(
        &a,
        Some(metadata_key(MINT)),
        None,
        "N".to_string(),
        "S".to_string(),
        "U".to_string(),
    );
    assert_eq!(s, Err(AccountError::AccountNotAssociatedTokenAccount));
}

#[test]
fn check_create_nft_with_given_addresses() {
    let mut a = accounts();
    a.metadata.key = [40; 32];
    a.token_account.account.key = [41; 32];
    let c = check_create_nft(
        &a,
        Some([40; 32]),
        Some([41; 32]),
        "N".to_string(),
        "S".to_string(),
        "U".to_string(),
    )
    .unwrap();
    assert_eq!(c.metadata.metadata, [40; 32]);
    assert_eq!(c.mint_to.to, [41; 32]);
    assert_eq!(c.metadata.name, "N");
}
