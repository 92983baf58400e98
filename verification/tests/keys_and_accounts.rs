use solana_program::program_option::COption;
use solana_program::program_pack::Pack;
use spl_token_tools::account::{
    assert_is_valid_spl_token_account, assert_is_valid_spl_token_mint,
    assert_spl_token_mint_authority_is_signer, assert_spl_token_owner_is_signer,
    get_spl_token_mint, get_spl_token_mint_authority, get_spl_token_mint_supply,
    get_spl_token_owner, is_spl_token_account, is_spl_token_mint, unpack_coption_pubkey,
    AccountInfo,
};
use spl_token_tools::error::{GovernanceError, ToolError};
use spl_token_tools::keys::{keys_equal, token_program_for, TokenProgram};

fn spl_id() -> [u8; 32] {
    spl_token::id().to_bytes()
}

fn spl_2022_id() -> [u8; 32] {
    spl_token_2022::id().to_bytes()
}

fn token_account(owner_program: [u8; 32], mint: [u8; 32], owner: [u8; 32], state: u8) -> AccountInfo {
    let mut data = vec![0u8; 165];
    data[0..32].copy_from_slice(&mint);
    data[32..64].copy_from_slice(&owner);
    data[108] = state;
    AccountInfo { key: [9; 32], owner: owner_program, is_signer: false, data }
}

fn mint_account(owner_program: [u8; 32], authority: Option<[u8; 32]>, supply: u64, initialized: u8) -> AccountInfo {
    let mut data = vec![0u8; 82];
    if let Some(a) = authority {
        data[0] = 1;
        data[4..36].copy_from_slice(&a);
    }
    data[36..44].copy_from_slice(&supply.to_le_bytes());
    data[45] = initialized;
    AccountInfo { key: [8; 32], owner: owner_program, is_signer: false, data }
}

fn gov(e: GovernanceError) -> ToolError {
    ToolError::Governance(e)
}

#[test]
fn program_ids_match_the_crates() {
    assert_eq!(TokenProgram::SplToken.id(), spl_id());
    assert_eq!(TokenProgram::SplToken2022.id(), spl_2022_id());
    assert_eq!(
        spl_id(),
        [
            6, 221, 246, 225, 215, 101, 161, 147, 217, 203, 225, 70, 206, 235, 121, 172, 28, 180,
            133, 237, 95, 91, 55, 145, 58, 140, 245, 133, 126, 255, 0, 169
        ]
    );
    assert_eq!(
        spl_2022_id(),
        [
            6, 221, 246, 225, 238, 117, 143, 222, 24, 66, 93, 188, 228, 108, 205, 218, 182, 26,
            252, 77, 131, 185, 13, 39, 254, 189, 249, 40, 216, 161, 139, 252
        ]
    );
}

#[test]
fn token_program_selection() {
    assert_eq!(token_program_for(&spl_id()), Ok(TokenProgram::SplToken));
    assert_eq!(token_program_for(&spl_2022_id()), Ok(TokenProgram::SplToken2022));
    assert_eq!(
        token_program_for(&[1; 32]),
        Err(gov(GovernanceError::SplTokenMintWithInvalidOwner))
    );
}

#[test]
fn keys_compare_bytewise() {
    let a = [3u8; 32];
    let mut b = [3u8; 32];
    assert!(keys_equal(&a, &b));
    b[31] = 4;
    assert!(!keys_equal(&a, &b));
}

#[test]
fn valid_token_account_of_either_program() {
    let a = token_account(spl_id(), [1; 32], [2; 32], 1);
    assert_eq!(assert_is_valid_spl_token_account(&a), Ok(()));
    assert!(is_spl_token_account(&a));
    let b = token_account(spl_2022_id(), [1; 32], [2; 32], 2);
    assert_eq!(assert_is_valid_spl_token_account(&b), Ok(()));
}

#[test]
fn token_account_errors_in_order() {
    let empty = AccountInfo { key: [9; 32], owner: [7; 32], is_signer: false, data: vec![] };
    assert_eq!(
        assert_is_valid_spl_token_account(&empty),
        Err(gov(GovernanceError::SplTokenAccountDoesNotExist))
    );
    let wrong_owner = token_account([7; 32], [1; 32], [2; 32], 1);
    assert_eq!(
        assert_is_valid_spl_token_account(&wrong_owner),
        Err(gov(GovernanceError::SplTokenAccountWithInvalidOwner))
    );
    let mut short = token_account(spl_id(), [1; 32], [2; 32], 1);
    short.data.truncate(164);
    assert_eq!(
        assert_is_valid_spl_token_account(&short),
        Err(gov(GovernanceError::SplTokenInvalidTokenAccountData))
    );
    let uninit = token_account(spl_id(), [1; 32], [2; 32], 0);
    assert_eq!(
        assert_is_valid_spl_token_account(&uninit),
        Err(gov(GovernanceError::SplTokenAccountNotInitialized))
    );
    assert!(!is_spl_token_account(&uninit));
}

#[test]
fn token_account_fields() {
    let a = token_account(spl_id(), [1; 32], [2; 32], 1);
    assert_eq!(get_spl_token_mint(&a), Ok([1; 32]));
    assert_eq!(get_spl_token_owner(&a), Ok([2; 32]));
    let uninit = token_account(spl_id(), [1; 32], [2; 32], 0);
    assert_eq!(
        get_spl_token_owner(&uninit),
        Err(gov(GovernanceError::SplTokenAccountNotInitialized))
    );
    assert_eq!(
        get_spl_token_mint(&uninit),
        Err(gov(GovernanceError::SplTokenAccountNotInitialized))
    );
}

#[test]
fn token_account_layout_matches_spl_token() {
    let account = spl_token::state::Account {
        mint: solana_program::pubkey::Pubkey::new_from_array([4; 32]),
        owner: solana_program::pubkey::Pubkey::new_from_array([5; 32]),
        amount: 77,
        state: spl_token::state::AccountState::Initialized,
        ..Default::default()
    };
    let mut data = vec![0u8; spl_token::state::Account::LEN];
    account.pack_into_slice(&mut data);
    let info = AccountInfo { key: [9; 32], owner: spl_id(), is_signer: false, data };
    assert_eq!(get_spl_token_mint(&info), Ok([4; 32]));
    assert_eq!(get_spl_token_owner(&info), Ok([5; 32]));
}

#[test]
fn valid_mint_and_its_errors() {
    let m = mint_account(spl_id(), Some([3; 32]), 1000, 1);
    assert_eq!(assert_is_valid_spl_token_mint(&m), Ok(()));
    assert!(is_spl_token_mint(&m));
    let empty = AccountInfo { key: [8; 32], owner: spl_id(), is_signer: false, data: vec![] };
    assert_eq!(
        assert_is_valid_spl_token_mint(&empty),
        Err(gov(GovernanceError::SplTokenMintDoesNotExist))
    );
    let wrong_owner = mint_account([7; 32], None, 0, 1);
    assert_eq!(
        assert_is_valid_spl_token_mint(&wrong_owner),
        Err(gov(GovernanceError::SplTokenMintWithInvalidOwner))
    );
    let mut long = mint_account(spl_id(), None, 0, 1);
    long.data.push(0);
    assert_eq!(
        assert_is_valid_spl_token_mint(&long),
        Err(gov(GovernanceError::SplTokenInvalidMintAccountData))
    );
    let uninit = mint_account(spl_2022_id(), None, 0, 0);
    assert_eq!(
        assert_is_valid_spl_token_mint(&uninit),
        Err(gov(GovernanceError::SplTokenMintNotInitialized))
    );
    assert!(!is_spl_token_mint(&uninit));
}

#[test]
fn token_account_is_not_a_mint() {
    let a = token_account(spl_id(), [1; 32], [2; 32], 1);
    assert!(is_spl_token_account(&a));
    assert!(!is_spl_token_mint(&a));
    let m = mint_account(spl_id(), None, 5, 1);
    assert!(is_spl_token_mint(&m));
    assert!(!is_spl_token_account(&m));
}

#[test]
fn mint_supply_reads_little_endian() {
    let m = mint_account(spl_id(), None, 0x0102_0304_0506_0708, 1);
    assert_eq!(get_spl_token_mint_supply(&m), Ok(0x0102_0304_0506_0708));
    let max = mint_account(spl_id(), None, u64::MAX, 1);
    assert_eq!(get_spl_token_mint_supply(&max), Ok(u64::MAX));
    let uninit = mint_account(spl_id(), None, 5, 0);
    assert_eq!(
        get_spl_token_mint_supply(&uninit),
        Err(gov(GovernanceError::SplTokenMintNotInitialized))
    );
}

#[test]
fn mint_layout_matches_spl_token() {
    let mint = spl_token::state::Mint {
        mint_authority: COption::Some(solana_program::pubkey::Pubkey::new_from_array([6; 32])),
        supply: 123_456_789,
        decimals: 6,
        is_initialized: true,
        freeze_authority: COption::None,
    };
    let mut data = vec![0u8; spl_token::state::Mint::LEN];
    mint.pack_into_slice(&mut data);
    let info = AccountInfo { key: [8; 32], owner: spl_id(), is_signer: false, data };
    assert_eq!(get_spl_token_mint_supply(&info), Ok(123_456_789));
    assert_eq!(get_spl_token_mint_authority(&info), Ok(Some([6; 32])));
}

#[test]
fn coption_pubkey_tags() {
    let mut raw = [0u8; 36];
    assert_eq!(unpack_coption_pubkey(&raw), Ok(None));
    raw[0] = 1;
    raw[4..].copy_from_slice(&[7; 32]);
    assert_eq!(unpack_coption_pubkey(&raw), Ok(Some([7; 32])));
    raw[0] = 2;
    assert_eq!(unpack_coption_pubkey(&raw), Err(ToolError::InvalidAccountData));
    raw[0] = 1;
    raw[2] = 1;
    assert_eq!(unpack_coption_pubkey(&raw), Err(ToolError::InvalidAccountData));
}

#[test]
fn mint_authority_reader() {
    let none = mint_account(spl_id(), None, 0, 1);
    assert_eq!(get_spl_token_mint_authority(&none), Ok(None));
    let some = mint_account(spl_id(), Some([3; 32]), 0, 1);
    assert_eq!(get_spl_token_mint_authority(&some), Ok(Some([3; 32])));
    let mut bad = mint_account(spl_id(), None, 0, 1);
    bad.data[0] = 5;
    assert_eq!(get_spl_token_mint_authority(&bad), Err(ToolError::InvalidAccountData));
}

#[test]
fn mint_authority_must_match_and_sign() {
    let m = mint_account(spl_id(), Some([3; 32]), 0, 1);
    let signer = AccountInfo { key: [3; 32], owner: [0; 32], is_signer: true, data: vec![] };
    assert_eq!(assert_spl_token_mint_authority_is_signer(&m, &signer), Ok(()));
    let not_signer = AccountInfo { key: [3; 32], owner: [0; 32], is_signer: false, data: vec![] };
    assert_eq!(
        assert_spl_token_mint_authority_is_signer(&m, &not_signer),
        Err(gov(GovernanceError::MintAuthorityMustSign))
    );
    let other = AccountInfo { key: [4; 32], owner: [0; 32], is_signer: true, data: vec![] };
    assert_eq!(
        assert_spl_token_mint_authority_is_signer(&m, &other),
        Err(gov(GovernanceError::InvalidMintAuthority))
    );
    let no_authority = mint_account(spl_id(), None, 0, 1);
    assert_eq!(
        assert_spl_token_mint_authority_is_signer(&no_authority, &signer),
        Err(gov(GovernanceError::MintHasNoAuthority))
    );
    let invalid = mint_account([1; 32], Some([3; 32]), 0, 1);
    assert_eq!(
        assert_spl_token_mint_authority_is_signer(&invalid, &signer),
        Err(gov(GovernanceError::SplTokenMintWithInvalidOwner))
    );
}

#[test]
fn token_owner_must_match_and_sign() {
    let a = token_account(spl_id(), [1; 32], [2; 32], 1);
    let owner = AccountInfo { key: [2; 32], owner: [0; 32], is_signer: true, data: vec![] };
    assert_eq!(assert_spl_token_owner_is_signer(&a, &owner), Ok(()));
    let not_signer = AccountInfo { key: [2; 32], owner: [0; 32], is_signer: false, data: vec![] };
    assert_eq!(
        assert_spl_token_owner_is_signer(&a, &not_signer),
        Err(gov(GovernanceError::TokenOwnerMustSign))
    );
    let other = AccountInfo { key: [3; 32], owner: [0; 32], is_signer: true, data: vec![] };
    assert_eq!(
        assert_spl_token_owner_is_signer(&a, &other),
        Err(gov(GovernanceError::InvalidTokenOwner))
    );
    let empty = AccountInfo { key: [9; 32], owner: spl_id(), is_signer: false, data: vec![] };
    assert_eq!(
        assert_spl_token_owner_is_signer(&empty, &owner),
        Err(gov(GovernanceError::SplTokenAccountDoesNotExist))
    );
}
