use solana_program::pubkey::Pubkey as SolPubkey;
use spl_token_tools::account::AccountInfo;
use spl_token_tools::address::signer_seeds;
use spl_token_tools::cpi::{
    burn_spl_tokens_signed, create_spl_token_account_signed, mint_spl_tokens_to,
    set_spl_token_account_authority, transfer_spl_tokens, transfer_spl_tokens_signed,
    try_burn_spl_tokens_signed, try_create_spl_token_account_signed,
    try_transfer_spl_tokens_signed,
};
use spl_token_tools::error::{GovernanceError, ToolError};
use spl_token_tools::instruction::{AuthorityType, Instruction};

fn spl_id() -> [u8; 32] {
    spl_token::id().to_bytes()
}

fn spl_2022_id() -> [u8; 32] {
    spl_token_2022::id().to_bytes()
}

fn account(key: [u8; 32]) -> AccountInfo {
    AccountInfo { key, owner: [0; 32], is_signer: false, data: vec![] }
}

fn owned(key: [u8; 32], owner: [u8; 32]) -> AccountInfo {
    AccountInfo { key, owner, is_signer: false, data: vec![] }
}

fn same(ours: &Instruction, theirs: &solana_program::instruction::Instruction) -> bool {
    ours.program_id == theirs.program_id.to_bytes()
        && ours.data == theirs.data
        && ours.accounts.len() == theirs.accounts.len()
        && ours.accounts.iter().zip(theirs.accounts.iter()).all(|(a, b)| {
            a.pubkey == b.pubkey.to_bytes() && a.is_signer == b.is_signer && a.is_writable == b.is_writable
        })
}

fn pk(b: [u8; 32]) -> SolPubkey {
    SolPubkey::new_from_array(b)
}

fn derived(seeds: &[Vec<u8>], program: [u8; 32]) -> ([u8; 32], u8) {
    let refs: Vec<&[u8]> = seeds.iter().map(|s| s.as_slice()).collect();
    let (k, b) = SolPubkey::find_program_address(&refs, &pk(program));
    (k.to_bytes(), b)
}

#[test]
fn transfer_builds_spl_token_transfer() {
    let call = transfer_spl_tokens(&account([1; 32]), &account([2; 32]), &account([3; 32]), 500, &account(spl_id())).unwrap();
    let expected =
        spl_token::instruction::transfer(&spl_token::id(), &pk([1; 32]), &pk([2; 32]), &pk([3; 32]), &[], 500).unwrap();
    assert!(same(&call.instruction, &expected));
    assert_eq!(call.instruction.data, vec![3, 0xf4, 1, 0, 0, 0, 0, 0, 0]);
    assert_eq!(call.account_keys, vec![spl_id(), [3; 32], [1; 32], [2; 32]]);
    assert!(call.signer_seeds.is_none());
}

#[test]
fn transfer_refuses_unknown_token_program() {
    let r = transfer_spl_tokens(&account([1; 32]), &account([2; 32]), &account([3; 32]), 5, &account([7; 32]));
    assert_eq!(r.err(), Some(ToolError::Governance(GovernanceError::SplTokenMintWithInvalidOwner)));
}

#[test]
fn mint_to_builds_spl_token_mint_to() {
    let mint = owned([4; 32], spl_id());
    let call = mint_spl_tokens_to(&mint, &account([5; 32]), &account([6; 32]), 0x0102, &account(spl_id())).unwrap();
    let expected =
        spl_token::instruction::mint_to(&spl_token::id(), &pk([4; 32]), &pk([5; 32]), &pk([6; 32]), &[], 0x0102).unwrap();
    assert!(same(&call.instruction, &expected));
    assert_eq!(call.instruction.data, vec![7, 2, 1, 0, 0, 0, 0, 0, 0]);
    assert_eq!(call.account_keys, vec![spl_id(), [6; 32], [4; 32], [5; 32]]);
    let bad_mint = owned([4; 32], [9; 32]);
    assert_eq!(
        mint_spl_tokens_to(&bad_mint, &account([5; 32]), &account([6; 32]), 1, &account(spl_id())).err(),
        Some(ToolError::Governance(GovernanceError::SplTokenMintWithInvalidOwner))
    );
}

#[test]
fn seeds_beyond_the_limits_find_no_address() {
    let program = [11u8; 32];
    let too_many: Vec<Vec<u8>> = (0..16).map(|i| vec![i as u8]).collect();
    let fifteen: Vec<Vec<u8>> = (0..15).map(|i| vec![i as u8]).collect();
    let too_long = vec![vec![0u8; 33]];
    let longest = vec![vec![0u8; 32]];
    for (seeds, found) in [(too_many, false), (fifteen, true), (too_long, false), (longest, true)] {
        let r = try_transfer_spl_tokens_signed(
            &account([1; 32]),
            &account([2; 32]),
            &account([3; 32]),
            &seeds,
            &program,
            1,
            &account(spl_id()),
        );
        assert_eq!(r.is_some(), found);
    }
}

#[test]
fn token_2022_signed_transfer_cannot_be_planned() {
    let seeds = vec![b"treasury".to_vec()];
    let program = [12u8; 32];
    let (authority, _) = derived(&seeds, program);
    let r = try_transfer_spl_tokens_signed(
        &account([1; 32]),
        &account([2; 32]),
        &account(authority),
        &seeds,
        &program,
        42,
        &account(spl_2022_id()),
    );
    assert!(r.is_none());
    let r = try_transfer_spl_tokens_signed(
        &account([1; 32]),
        &account([2; 32]),
        &account([3; 32]),
        &seeds,
        &program,
        42,
        &account(spl_2022_id()),
    );
    assert_eq!(r.unwrap().err(), Some(ToolError::InvalidSeeds));
    let mint_2022 = owned([4; 32], spl_2022_id());
    let r = try_burn_spl_tokens_signed(&account([1; 32]), &mint_2022, &account(authority), &seeds, &program, 1, &account(spl_2022_id()));
    assert!(r.is_none());
}

#[test]
fn signer_seeds_append_bump() {
    let seeds = vec![b"abc".to_vec(), vec![], vec![9; 32]];
    assert_eq!(signer_seeds(&seeds, 254), vec![b"abc".to_vec(), vec![], vec![9; 32], vec![254]]);
    assert_eq!(signer_seeds(&[], 7), vec![vec![7]]);
}

#[test]
fn signed_transfer_with_derived_authority() {
    let seeds = vec![b"treasury".to_vec()];
    let program = [12u8; 32];
    let (authority, bump) = derived(&seeds, program);
    let call = transfer_spl_tokens_signed(
        &account([1; 32]),
        &account([2; 32]),
        &account(authority),
        &seeds,
        &program,
        42,
        &account(spl_id()),
    )
    .unwrap();
    let expected =
        spl_token::instruction::transfer(&spl_token::id(), &pk([1; 32]), &pk([2; 32]), &pk(authority), &[], 42).unwrap();
    assert!(same(&call.instruction, &expected));
    assert_eq!(call.signer_seeds, Some(vec![b"treasury".to_vec(), vec![bump]]));
    assert_eq!(call.account_keys, vec![spl_id(), authority, [1; 32], [2; 32]]);
}

#[test]
fn signed_transfer_refuses_other_authority() {
    let seeds = vec![b"treasury".to_vec()];
    let r = transfer_spl_tokens_signed(
        &account([1; 32]),
        &account([2; 32]),
        &account([3; 32]),
        &seeds,
        &[12u8; 32],
        42,
        &account(spl_id()),
    );
    assert_eq!(r.err(), Some(ToolError::InvalidSeeds));
    let r2 = try_transfer_spl_tokens_signed(
        &account([1; 32]),
        &account([2; 32]),
        &account([3; 32]),
        &seeds,
        &[12u8; 32],
        42,
        &account([5; 32]),
    );
    assert_eq!(r2.unwrap().err(), Some(ToolError::Governance(GovernanceError::SplTokenMintWithInvalidOwner)));
}

#[test]
fn try_signed_transfer_without_bump_seed() {
    let too_many: Vec<Vec<u8>> = (0..16).map(|i| vec![i as u8]).collect();
    let r = try_transfer_spl_tokens_signed(
        &account([1; 32]),
        &account([2; 32]),
        &account([3; 32]),
        &too_many,
        &[12u8; 32],
        42,
        &account(spl_id()),
    );
    assert!(r.is_none());
}

#[test]
fn signed_burn_with_derived_authority() {
    let seeds = vec![b"burner".to_vec(), vec![0]];
    let program = [13u8; 32];
    let (authority, bump) = derived(&seeds, program);
    let mint = owned([4; 32], spl_id());
    let call = burn_spl_tokens_signed(&account([1; 32]), &mint, &account(authority), &seeds, &program, 9, &account(spl_id()))
        .unwrap();
    let expected =
        spl_token::instruction::burn(&spl_token::id(), &pk([1; 32]), &pk([4; 32]), &pk(authority), &[], 9).unwrap();
    assert!(same(&call.instruction, &expected));
    assert_eq!(call.instruction.data, vec![8, 9, 0, 0, 0, 0, 0, 0, 0]);
    assert_eq!(call.signer_seeds, Some(vec![b"burner".to_vec(), vec![0], vec![bump]]));
    assert_eq!(call.account_keys, vec![spl_id(), [1; 32], [4; 32], authority]);
    let wrong = burn_spl_tokens_signed(&account([1; 32]), &mint, &account([3; 32]), &seeds, &program, 9, &account(spl_id()));
    assert_eq!(wrong.err(), Some(ToolError::InvalidSeeds));
    let too_long = vec![vec![0u8; 40]];
    assert!(try_burn_spl_tokens_signed(&account([1; 32]), &mint, &account([3; 32]), &too_long, &program, 9, &account(spl_id()))
        .is_none());
}

#[test]
fn set_authority_for_spl_token_and_token_2022() {
    let call = set_spl_token_account_authority(
        &account([1; 32]),
        &account([2; 32]),
        &[3; 32],
        AuthorityType::AccountOwner,
        &account(spl_id()),
    )
    .unwrap();
    let expected = spl_token::instruction::set_authority(
        &spl_token::id(),
        &pk([1; 32]),
        Some(&pk([3; 32])),
        spl_token::instruction::AuthorityType::AccountOwner,
        &pk([2; 32]),
        &[],
    )
    .unwrap();
    assert!(same(&call.instruction, &expected));
    let mut data = vec![6, 2, 1];
    data.extend_from_slice(&[3; 32]);
    assert_eq!(call.instruction.data, data);
    assert_eq!(call.account_keys, vec![[1; 32], [2; 32], spl_id()]);
    let r = set_spl_token_account_authority(
        &account([1; 32]),
        &account([2; 32]),
        &[3; 32],
        AuthorityType::MintTokens,
        &account(spl_2022_id()),
    );
    assert_eq!(r.err(), Some(ToolError::IncorrectProgramId));
    let r = set_spl_token_account_authority(
        &account([1; 32]),
        &account([2; 32]),
        &[3; 32],
        AuthorityType::MintTokens,
        &account([4; 32]),
    );
    assert_eq!(r.err(), Some(ToolError::Governance(GovernanceError::SplTokenMintWithInvalidOwner)));
}

#[test]
fn authority_type_bytes() {
    for (t, b) in [
        (AuthorityType::MintTokens, 0u8),
        (AuthorityType::FreezeAccount, 1),
        (AuthorityType::AccountOwner, 2),
        (AuthorityType::CloseAccount, 3),
    ] {
        let call = set_spl_token_account_authority(&account([1; 32]), &account([2; 32]), &[3; 32], t, &account(spl_id()))
            .unwrap();
        assert_eq!(call.instruction.data[1], b);
    }
}

#[test]
fn create_token_account_at_derived_address() {
    let seeds = vec![b"token-holding".to_vec(), vec![5; 32]];
    let program = [14u8; 32];
    let (address, bump) = derived(&seeds, program);
    let mint = owned([4; 32], spl_id());
    let plan = create_spl_token_account_signed(
        &account([1; 32]),
        &account(address),
        &seeds,
        &mint,
        &account([6; 32]),
        &program,
        &account([0; 32]),
        &account(spl_id()),
        &account([7; 32]),
        2_039_280,
    )
    .unwrap();
    #[allow(deprecated)]
    let expected_create =
        solana_program::system_instruction::create_account(&pk([1; 32]), &pk(address), 2_039_280, 165, &spl_token::id());
    assert!(same(&plan.create_account.instruction, &expected_create));
    let mut data = vec![0, 0, 0, 0];
    data.extend_from_slice(&2_039_280u64.to_le_bytes());
    data.extend_from_slice(&165u64.to_le_bytes());
    data.extend_from_slice(&spl_id());
    assert_eq!(plan.create_account.instruction.data, data);
    assert_eq!(plan.create_account.account_keys, vec![[1; 32], address, [0; 32]]);
    assert_eq!(plan.create_account.signer_seeds, Some(vec![seeds[0].clone(), seeds[1].clone(), vec![bump]]));
    let init = plan.initialize_account.unwrap();
    let expected_init =
        spl_token::instruction::initialize_account(&spl_token::id(), &pk(address), &pk([4; 32]), &pk([6; 32])).unwrap();
    assert!(same(&init.instruction, &expected_init));
    assert_eq!(init.instruction.data, vec![1]);
    assert_eq!(init.account_keys, vec![[1; 32], address, [6; 32], [4; 32], spl_id(), [7; 32]]);
}

#[test]
fn create_token_account_funds_at_least_one_lamport() {
    let seeds = vec![b"x".to_vec()];
    let program = [15u8; 32];
    let (address, _) = derived(&seeds, program);
    let mint = owned([4; 32], spl_id());
    let plan = create_spl_token_account_signed(
        &account([1; 32]),
        &account(address),
        &seeds,
        &mint,
        &account([6; 32]),
        &program,
        &account([0; 32]),
        &account(spl_id()),
        &account([7; 32]),
        0,
    )
    .unwrap();
    assert_eq!(&plan.create_account.instruction.data[4..12], &1u64.to_le_bytes());
}

#[test]
fn create_token_account_errors() {
    let seeds = vec![b"x".to_vec()];
    let program = [15u8; 32];
    let (address, _) = derived(&seeds, program);
    let bad_mint = owned([4; 32], [1; 32]);
    let r = create_spl_token_account_signed(
        &account([1; 32]),
        &account(address),
        &seeds,
        &bad_mint,
        &account([6; 32]),
        &program,
        &account([0; 32]),
        &account(spl_id()),
        &account([7; 32]),
        10,
    );
    assert_eq!(r.err(), Some(ToolError::Governance(GovernanceError::SplTokenMintWithInvalidOwner)));
    let mint = owned([4; 32], spl_id());
    let r = create_spl_token_account_signed(
        &account([1; 32]),
        &account([2; 32]),
        &seeds,
        &mint,
        &account([6; 32]),
        &program,
        &account([0; 32]),
        &account(spl_id()),
        &account([7; 32]),
        10,
    );
    assert_eq!(r.err(), Some(ToolError::InvalidSeeds));
    let mint_2022 = owned([4; 32], spl_2022_id());
    let plan = create_spl_token_account_signed(
        &account([1; 32]),
        &account(address),
        &seeds,
        &mint_2022,
        &account([6; 32]),
        &program,
        &account([0; 32]),
        &account(spl_2022_id()),
        &account([7; 32]),
        10,
    )
    .unwrap();
    assert_eq!(&plan.create_account.instruction.data[20..52], &spl_2022_id());
    assert_eq!(plan.initialize_account.err(), Some(ToolError::IncorrectProgramId));
    let too_many: Vec<Vec<u8>> = (0..16).map(|i| vec![i as u8]).collect();
    let none = try_create_spl_token_account_signed(
        &account([1; 32]),
        &account(address),
        &too_many,
        &mint,
        &account([6; 32]),
        &program,
        &account([0; 32]),
        &account(spl_id()),
        &account([7; 32]),
        10,
    );
    assert!(none.is_none());
    let some = try_create_spl_token_account_signed(
        &account([1; 32]),
        &account(address),
        &too_many,
        &bad_mint,
        &account([6; 32]),
        &program,
        &account([0; 32]),
        &account(spl_id()),
        &account([7; 32]),
        10,
    );
    assert_eq!(some.unwrap().err(), Some(ToolError::Governance(GovernanceError::SplTokenMintWithInvalidOwner)));
}

fn metas(ix: &Instruction) -> Vec<([u8; 32], bool, bool)> {
    ix.accounts.iter().map(|m| (m.pubkey, m.is_signer, m.is_writable)).collect()
}

#[test]
fn planned_instructions_name_their_accounts() {
    let t = transfer_spl_tokens(&account([1; 32]), &account([2; 32]), &account([3; 32]), 1, &account(spl_id())).unwrap();
    assert_eq!(t.instruction.program_id, spl_id());
    assert_eq!(metas(&t.instruction), vec![([1; 32], false, true), ([2; 32], false, true), ([3; 32], true, false)]);
    let mint = owned([4; 32], spl_id());
    let m = mint_spl_tokens_to(&mint, &account([5; 32]), &account([6; 32]), 1, &account(spl_id())).unwrap();
    assert_eq!(metas(&m.instruction), vec![([4; 32], false, true), ([5; 32], false, true), ([6; 32], true, false)]);
    let s = set_spl_token_account_authority(&account([1; 32]), &account([2; 32]), &[3; 32], AuthorityType::CloseAccount, &account(spl_id()))
        .unwrap();
    assert_eq!(metas(&s.instruction), vec![([1; 32], false, true), ([2; 32], true, false)]);

    let seeds = vec![b"meta".to_vec()];
    let program = [16u8; 32];
    let (address, _) = derived(&seeds, program);
    let b = burn_spl_tokens_signed(&account([1; 32]), &mint, &account(address), &seeds, &program, 1, &account(spl_id())).unwrap();
    assert_eq!(metas(&b.instruction), vec![([1; 32], false, true), ([4; 32], false, true), (address, true, false)]);
    let plan = create_spl_token_account_signed(
        &account([1; 32]),
        &account(address),
        &seeds,
        &mint,
        &account([6; 32]),
        &program,
        &account([0; 32]),
        &account(spl_id()),
        &account([7; 32]),
        5,
    )
    .unwrap();
    assert_eq!(plan.create_account.instruction.program_id, [0; 32]);
    assert_eq!(metas(&plan.create_account.instruction), vec![([1; 32], true, true), (address, true, true)]);
    let rent_sysvar = [
        6, 167, 213, 23, 25, 44, 92, 81, 33, 140, 201, 76, 61, 74, 241, 127, 88, 218, 238, 8, 155, 161, 253, 68, 227, 219,
        217, 138, 0, 0, 0, 0,
    ];
    assert_eq!(rent_sysvar, solana_program::sysvar::rent::id().to_bytes());
    let init = plan.initialize_account.unwrap();
    assert_eq!(
        metas(&init.instruction),
        vec![(address, false, true), ([4; 32], false, false), ([6; 32], false, false), (rent_sysvar, false, false)]
    );
}

#[test]
fn signed_transfer_is_plain_transfer_with_seeds() {
    let seeds = vec![b"vault".to_vec(), vec![1, 2]];
    let program = [17u8; 32];
    let (authority, bump) = derived(&seeds, program);
    let signed = transfer_spl_tokens_signed(
        &account([1; 32]),
        &account([2; 32]),
        &account(authority),
        &seeds,
        &program,
        1_000_000,
        &account(spl_id()),
    )
    .unwrap();
    let plain =
        transfer_spl_tokens(&account([1; 32]), &account([2; 32]), &account(authority), 1_000_000, &account(spl_id())).unwrap();
    assert_eq!(metas(&signed.instruction), metas(&plain.instruction));
    assert_eq!(signed.instruction.data, plain.instruction.data);
    assert_eq!(signed.instruction.program_id, plain.instruction.program_id);
    assert_eq!(signed.account_keys, plain.account_keys);
    assert_eq!(signed.signer_seeds, Some(vec![b"vault".to_vec(), vec![1, 2], vec![bump]]));
    assert_eq!(u64::from_le_bytes(signed.instruction.data[1..9].try_into().unwrap()), 1_000_000);
}
