//! The cross-program invocations with which the governance program creates
//! token accounts and moves, mints, burns and re-authorises tokens. Each
//! function checks its accounts and returns the invocation to perform: the
//! instruction, the accounts to hand to it (by key, in order), and, for a
//! program-derived authority, the seeds with which the program signs.

use vstd::prelude::*;

use crate::account::{spec_token_account_len, token_account_len, AccountInfo};
use crate::address::{
    check_program_address, program_address, try_find_program_address, signer_seeds,
    spec_check_program_address, spec_signer_seeds,
};
use crate::error::ToolError;
use crate::instruction::{
    spec_burn, spec_create_account, spec_initialize_account, spec_mint_to, spec_set_authority,
    spec_transfer, spl_burn, spl_initialize_account, spl_mint_to, spl_set_authority, spl_transfer,
    system_create_account, AuthorityType, Instruction, InstructionView,
};
use crate::keys::{
    keys_equal, spec_spl_token_id, spec_spl_token_2022_id, spec_token_program_for, token_program_for, Pubkey,
    TokenProgram,
};

verus! {

/// One invocation of another program.
pub struct CpiCall {
    /// The instruction to invoke.
    pub instruction: Instruction,
    /// The keys of the accounts to hand to the invocation, in order.
    pub account_keys: Vec<Pubkey>,
    /// The seeds with which the program signs, for a signed invocation.
    pub signer_seeds: Option<Vec<Vec<u8>>>,
}

/// The abstract value of a [`CpiCall`].
pub struct CpiCallView {
    pub instruction: InstructionView,
    pub account_keys: Seq<Seq<u8>>,
    pub signer_seeds: Option<Seq<Seq<u8>>>,
}

impl View for CpiCall {
    type V = CpiCallView;

    open spec fn view(&self) -> CpiCallView {
        CpiCallView {
            instruction: self.instruction@,
            account_keys: self.account_keys@.map_values(|k: Pubkey| k@),
            signer_seeds: self.signer_seeds.deep_view(),
        }
    }
}

/// The abstract value of an invocation, or of the error reported in its place.
pub open spec fn call_result_view(r: Result<CpiCall, ToolError>) -> Result<CpiCallView, ToolError> {
    match r {
        Ok(c) => Ok(c@),
        Err(e) => Err(e),
    }
}

/// An invocation that hands the accounts `account_keys` to `instruction`.
pub open spec fn call_view(
    instruction: InstructionView,
    account_keys: Seq<Seq<u8>>,
    signer_seeds: Option<Seq<Seq<u8>>>,
) -> CpiCallView {
    CpiCallView { instruction, account_keys, signer_seeds }
}

/// Builds an invocation and shows its abstract value.
fn make_call(instruction: Instruction, account_keys: Vec<Pubkey>, signer_seeds: Option<Vec<Vec<u8>>>) -> (c: CpiCall)
    ensures
        c@ == call_view(
            instruction@,
            account_keys@.map_values(|k: Pubkey| k@),
            signer_seeds.deep_view(),
        ),
{
    CpiCall { instruction, account_keys, signer_seeds }
}

/// The keys of the accounts, as byte sequences.
pub open spec fn key_views(keys: Seq<Pubkey>) -> Seq<Seq<u8>> {
    keys.map_values(|k: Pubkey| k@)
}

// ---------------------------------------------------------------------------
// Transfer

/// What [`transfer_spl_tokens`] returns: the token program is the one whose
/// id is the key of `spl_token`; the transfer is handed the token program,
/// the authority, the source and the destination.
pub open spec fn spec_transfer_spl_tokens(
    source: AccountInfo,
    destination: AccountInfo,
    authority: AccountInfo,
    amount: u64,
    spl_token: AccountInfo,
) -> Result<CpiCallView, ToolError> {
    match spec_token_program_for(spl_token.key@) {
        Err(e) => Err(e),
        Ok(p) => Ok(
            call_view(
                spec_transfer(p.spec_id(), source.key@, destination.key@, authority.key@, amount),
                seq![spl_token.key@, authority.key@, source.key@, destination.key@],
                None,
            ),
        ),
    }
}

/// Plans a transfer of `amount` tokens from `source_info` to
/// `destination_info`, signed by `authority_info`, through the token program
/// `spl_token_info`.
pub fn transfer_spl_tokens(
    source_info: &AccountInfo,
    destination_info: &AccountInfo,
    authority_info: &AccountInfo,
    amount: u64,
    spl_token_info: &AccountInfo,
) -> (r: Result<CpiCall, ToolError>)
    requires
        spl_token_info.key@ != spec_spl_token_2022_id(),
    ensures
        call_result_view(r) == spec_transfer_spl_tokens(
            *source_info,
            *destination_info,
            *authority_info,
            amount,
            *spl_token_info,
        ),
{
    let program = match token_program_for(&spl_token_info.key) {
        Ok(p) => p,
        Err(e) => return Err(e),
    };
    let program_id = program.id();
    let instruction = match spl_transfer(
        &program_id,
        &source_info.key,
        &destination_info.key,
        &authority_info.key,
        amount,
    ) {
        Ok(ix) => ix,
        Err(e) => {
            assert(false);
            return Err(e);
        },
    };
    let keys = vec![spl_token_info.key, authority_info.key, source_info.key, destination_info.key];
    let c = make_call(instruction, keys, None);
    assert(key_views(keys@) =~= seq![spl_token_info.key@, authority_info.key@, source_info.key@, destination_info.key@]);
    Ok(c)
}

// ---------------------------------------------------------------------------
// Mint

/// What [`mint_spl_tokens_to`] returns: the token program is the owner of the
/// mint; the mint-to is handed the token program account, the mint
/// authority, the mint and the destination.
pub open spec fn spec_mint_spl_tokens_to(
    mint: AccountInfo,
    destination: AccountInfo,
    mint_authority: AccountInfo,
    amount: u64,
    spl_token: AccountInfo,
) -> Result<CpiCallView, ToolError> {
    match spec_token_program_for(mint.owner@) {
        Err(e) => Err(e),
        Ok(p) => Ok(
            call_view(
                spec_mint_to(p.spec_id(), mint.key@, destination.key@, mint_authority.key@, amount),
                seq![spl_token.key@, mint_authority.key@, mint.key@, destination.key@],
                None,
            ),
        ),
    }
}

/// Plans minting `amount` tokens of `mint_info` to `destination_info`,
/// signed by the mint authority, through the program that owns the mint.
pub fn mint_spl_tokens_to(
    mint_info: &AccountInfo,
    destination_info: &AccountInfo,
    mint_authority_info: &AccountInfo,
    amount: u64,
    spl_token_info: &AccountInfo,
) -> (r: Result<CpiCall, ToolError>)
    requires
        mint_info.owner@ != spec_spl_token_2022_id(),
    ensures
        call_result_view(r) == spec_mint_spl_tokens_to(
            *mint_info,
            *destination_info,
            *mint_authority_info,
            amount,
            *spl_token_info,
        ),
{
    let program = match token_program_for(&mint_info.owner) {
        Ok(p) => p,
        Err(e) => return Err(e),
    };
    let program_id = program.id();
    let instruction = match spl_mint_to(
        &program_id,
        &mint_info.key,
        &destination_info.key,
        &mint_authority_info.key,
        amount,
    ) {
        Ok(ix) => ix,
        Err(e) => {
            assert(false);
            return Err(e);
        },
    };
    let keys = vec![spl_token_info.key, mint_authority_info.key, mint_info.key, destination_info.key];
    let c = make_call(instruction, keys, None);
    assert(key_views(keys@) =~= seq![spl_token_info.key@, mint_authority_info.key@, mint_info.key@, destination_info.key@]);
    Ok(c)
}

// ---------------------------------------------------------------------------
// Transfer signed by a program-derived authority

/// What [`transfer_spl_tokens_signed`] returns: the token program is the one
/// whose id is the key of `spl_token`; the authority must be the address
/// derived from the seeds under `program_id`, and the program signs with the
/// seeds and the bump seed.
pub open spec fn spec_transfer_spl_tokens_signed(
    source: AccountInfo,
    destination: AccountInfo,
    authority: AccountInfo,
    authority_seeds: Seq<Seq<u8>>,
    program_id: Seq<u8>,
    amount: u64,
    spl_token: AccountInfo,
) -> Result<CpiCallView, ToolError> {
    match spec_token_program_for(spl_token.key@) {
        Err(e) => Err(e),
        Ok(p) => match spec_check_program_address(authority_seeds, program_id, authority.key@) {
            Err(e) => Err(e),
            Ok(bump) => Ok(
                call_view(
                    spec_transfer(p.spec_id(), source.key@, destination.key@, authority.key@, amount),
                    seq![spl_token.key@, authority.key@, source.key@, destination.key@],
                    Some(spec_signer_seeds(authority_seeds, bump)),
                ),
            ),
        },
    }
}

/// The inputs on which the transfer signed by a derived authority can be
/// planned: once the token program is known, a bump seed must exist, and
/// where the derived address is the authority, the token program must be
/// SPL Token.
pub open spec fn transfer_signed_plannable(
    authority: AccountInfo,
    authority_seeds: Seq<Seq<u8>>,
    program_id: Seq<u8>,
    spl_token: AccountInfo,
) -> bool {
    spec_token_program_for(spl_token.key@) is Ok ==> {
        &&& program_address(authority_seeds, program_id) is Some
        &&& program_address(authority_seeds, program_id).unwrap().0 == authority.key@
            ==> spl_token.key@ != spec_spl_token_2022_id()
    }
}

/// Plans a transfer of `amount` tokens from `source_info` to
/// `destination_info` whose authority is the address derived from
/// `authority_seeds` under `program_id`, signed by the program with those
/// seeds and the bump seed.
pub fn transfer_spl_tokens_signed(
    source_info: &AccountInfo,
    destination_info: &AccountInfo,
    authority_info: &AccountInfo,
    authority_seeds: &[Vec<u8>],
    program_id: &Pubkey,
    amount: u64,
    spl_token_info: &AccountInfo,
) -> (r: Result<CpiCall, ToolError>)
    requires
        transfer_signed_plannable(*authority_info, authority_seeds.deep_view(), program_id@, *spl_token_info),
    ensures
        call_result_view(r) == spec_transfer_spl_tokens_signed(
            *source_info,
            *destination_info,
            *authority_info,
            authority_seeds.deep_view(),
            program_id@,
            amount,
            *spl_token_info,
        ),
{
    let program = match token_program_for(&spl_token_info.key) {
        Ok(p) => p,
        Err(e) => return Err(e),
    };
    let bump = match check_program_address(authority_seeds, program_id, &authority_info.key) {
        Ok(b) => b,
        Err(e) => return Err(e),
    };
    let token_program_id = program.id();
    let instruction = match spl_transfer(
        &token_program_id,
        &source_info.key,
        &destination_info.key,
        &authority_info.key,
        amount,
    ) {
        Ok(ix) => ix,
        Err(e) => {
            assert(false);
            return Err(e);
        },
    };
    let seeds = signer_seeds(authority_seeds, bump);
    let keys = vec![spl_token_info.key, authority_info.key, source_info.key, destination_info.key];
    let c = make_call(instruction, keys, Some(seeds));
    assert(key_views(keys@) =~= seq![spl_token_info.key@, authority_info.key@, source_info.key@, destination_info.key@]);
    Ok(c)
}

/// Plans the signed transfer where [`transfer_spl_tokens_signed`] can plan
/// it: `None` where the token program is known and either no bump seed gives
/// a derived address, or the derived address is the authority but the token
/// program is Token-2022 (whose transfer SPL Token's builder refuses); the
/// plan of [`transfer_spl_tokens_signed`] otherwise.
pub fn try_transfer_spl_tokens_signed(
    source_info: &AccountInfo,
    destination_info: &AccountInfo,
    authority_info: &AccountInfo,
    authority_seeds: &[Vec<u8>],
    program_id: &Pubkey,
    amount: u64,
    spl_token_info: &AccountInfo,
) -> (r: Option<Result<CpiCall, ToolError>>)
    ensures
        r is None <==> !transfer_signed_plannable(
            *authority_info,
            authority_seeds.deep_view(),
            program_id@,
            *spl_token_info,
        ),
        r matches Some(p) ==> call_result_view(p) == spec_transfer_spl_tokens_signed(
            *source_info,
            *destination_info,
            *authority_info,
            authority_seeds.deep_view(),
            program_id@,
            amount,
            *spl_token_info,
        ),
{
    if token_program_for(&spl_token_info.key).is_ok() {
        match try_find_program_address(authority_seeds, program_id) {
            None => return None,
            Some((address, _)) => {
                assert(address.deep_view() =~= address@);
                let spl_2022 = crate::keys::spl_token_2022_id();
                if keys_equal(&address, &authority_info.key) && keys_equal(&spl_token_info.key, &spl_2022) {
                    return None;
                }
            },
        }
    }
    Some(
        transfer_spl_tokens_signed(
            source_info,
            destination_info,
            authority_info,
            authority_seeds,
            program_id,
            amount,
            spl_token_info,
        ),
    )
}

// ---------------------------------------------------------------------------
// Burn signed by a program-derived authority

/// What [`burn_spl_tokens_signed`] returns: the token program is the owner
/// of the mint; the authority must be the address derived from the seeds
/// under `program_id`, and the program signs with the seeds and the bump seed.
pub open spec fn spec_burn_spl_tokens_signed(
    token_account: AccountInfo,
    token_mint: AccountInfo,
    authority: AccountInfo,
    authority_seeds: Seq<Seq<u8>>,
    program_id: Seq<u8>,
    amount: u64,
    spl_token: AccountInfo,
) -> Result<CpiCallView, ToolError> {
    match spec_token_program_for(token_mint.owner@) {
        Err(e) => Err(e),
        Ok(p) => match spec_check_program_address(authority_seeds, program_id, authority.key@) {
            Err(e) => Err(e),
            Ok(bump) => Ok(
                call_view(
                    spec_burn(p.spec_id(), token_account.key@, token_mint.key@, authority.key@, amount),
                    seq![spl_token.key@, token_account.key@, token_mint.key@, authority.key@],
                    Some(spec_signer_seeds(authority_seeds, bump)),
                ),
            ),
        },
    }
}

/// The inputs on which the burn signed by a derived authority can be
/// planned: once the token program is known, a bump seed must exist, and
/// where the derived address is the authority, the mint must be owned by
/// SPL Token.
pub open spec fn burn_signed_plannable(
    token_mint: AccountInfo,
    authority: AccountInfo,
    authority_seeds: Seq<Seq<u8>>,
    program_id: Seq<u8>,
) -> bool {
    spec_token_program_for(token_mint.owner@) is Ok ==> {
        &&& program_address(authority_seeds, program_id) is Some
        &&& program_address(authority_seeds, program_id).unwrap().0 == authority.key@
            ==> token_mint.owner@ != spec_spl_token_2022_id()
    }
}

/// Plans burning `amount` tokens of `token_mint_info` from
/// `token_account_info` whose authority is the address derived from
/// `authority_seeds` under `program_id`, signed by the program with those
/// seeds and the bump seed.
pub fn burn_spl_tokens_signed(
    token_account_info: &AccountInfo,
    token_mint_info: &AccountInfo,
    authority_info: &AccountInfo,
    authority_seeds: &[Vec<u8>],
    program_id: &Pubkey,
    amount: u64,
    spl_token_info: &AccountInfo,
) -> (r: Result<CpiCall, ToolError>)
    requires
        burn_signed_plannable(*token_mint_info, *authority_info, authority_seeds.deep_view(), program_id@),
    ensures
        call_result_view(r) == spec_burn_spl_tokens_signed(
            *token_account_info,
            *token_mint_info,
            *authority_info,
            authority_seeds.deep_view(),
            program_id@,
            amount,
            *spl_token_info,
        ),
{
    let program = match token_program_for(&token_mint_info.owner) {
        Ok(p) => p,
        Err(e) => return Err(e),
    };
    let bump = match check_program_address(authority_seeds, program_id, &authority_info.key) {
        Ok(b) => b,
        Err(e) => return Err(e),
    };
    let token_program_id = program.id();
    let instruction = match spl_burn(
        &token_program_id,
        &token_account_info.key,
        &token_mint_info.key,
        &authority_info.key,
        amount,
    ) {
        Ok(ix) => ix,
        Err(e) => {
            assert(false);
            return Err(e);
        },
    };
    let seeds = signer_seeds(authority_seeds, bump);
    let keys = vec![spl_token_info.key, token_account_info.key, token_mint_info.key, authority_info.key];
    let c = make_call(instruction, keys, Some(seeds));
    assert(key_views(keys@) =~= seq![spl_token_info.key@, token_account_info.key@, token_mint_info.key@, authority_info.key@]);
    Ok(c)
}

/// Plans the signed burn where [`burn_spl_tokens_signed`] can plan it:
/// `None` where the mint's token program is known and either no bump seed
/// gives a derived address, or the derived address is the authority but the
/// mint is owned by Token-2022 (whose burn SPL Token's builder refuses); the
/// plan of [`burn_spl_tokens_signed`] otherwise.
pub fn try_burn_spl_tokens_signed(
    token_account_info: &AccountInfo,
    token_mint_info: &AccountInfo,
    authority_info: &AccountInfo,
    authority_seeds: &[Vec<u8>],
    program_id: &Pubkey,
    amount: u64,
    spl_token_info: &AccountInfo,
) -> (r: Option<Result<CpiCall, ToolError>>)
    ensures
        r is None <==> !burn_signed_plannable(
            *token_mint_info,
            *authority_info,
            authority_seeds.deep_view(),
            program_id@,
        ),
        r matches Some(p) ==> call_result_view(p) == spec_burn_spl_tokens_signed(
            *token_account_info,
            *token_mint_info,
            *authority_info,
            authority_seeds.deep_view(),
            program_id@,
            amount,
            *spl_token_info,
        ),
{
    if token_program_for(&token_mint_info.owner).is_ok() {
        match try_find_program_address(authority_seeds, program_id) {
            None => return None,
            Some((address, _)) => {
                assert(address.deep_view() =~= address@);
                let spl_2022 = crate::keys::spl_token_2022_id();
                if keys_equal(&address, &authority_info.key) && keys_equal(&token_mint_info.owner, &spl_2022) {
                    return None;
                }
            },
        }
    }
    Some(
        burn_spl_tokens_signed(
            token_account_info,
            token_mint_info,
            authority_info,
            authority_seeds,
            program_id,
            amount,
            spl_token_info,
        ),
    )
}

// ---------------------------------------------------------------------------
// Set authority

/// What [`set_spl_token_account_authority`] returns: the token program is the
/// one whose id is the key of `spl_token`; SPL Token builds the instruction
/// and Token-2022 is refused by the instruction builder with
/// `IncorrectProgramId`.
pub open spec fn spec_set_spl_token_account_authority(
    account: AccountInfo,
    account_authority: AccountInfo,
    new_account_authority: Seq<u8>,
    authority_type: AuthorityType,
    spl_token: AccountInfo,
) -> Result<CpiCallView, ToolError> {
    match spec_token_program_for(spl_token.key@) {
        Err(e) => Err(e),
        Ok(TokenProgram::SplToken2022) => Err(ToolError::IncorrectProgramId),
        Ok(p) => Ok(
            call_view(
                spec_set_authority(
                    p.spec_id(),
                    account.key@,
                    new_account_authority,
                    authority_type,
                    account_authority.key@,
                ),
                seq![account.key@, account_authority.key@, spl_token.key@],
                None,
            ),
        ),
    }
}

/// Plans setting the authority of kind `authority_type` of a token account
/// or mint to `new_account_authority`, signed by its current authority.
pub fn set_spl_token_account_authority(
    account_info: &AccountInfo,
    account_authority: &AccountInfo,
    new_account_authority: &Pubkey,
    authority_type: AuthorityType,
    spl_token_info: &AccountInfo,
) -> (r: Result<CpiCall, ToolError>)
    ensures
        call_result_view(r) == spec_set_spl_token_account_authority(
            *account_info,
            *account_authority,
            new_account_authority@,
            authority_type,
            *spl_token_info,
        ),
{
    let program = match token_program_for(&spl_token_info.key) {
        Ok(p) => p,
        Err(e) => return Err(e),
    };
    let program_id = program.id();
    let instruction = match spl_set_authority(
        &program_id,
        &account_info.key,
        new_account_authority,
        authority_type,
        &account_authority.key,
    ) {
        Ok(ix) => ix,
        Err(e) => return Err(e),
    };
    let keys = vec![account_info.key, account_authority.key, spl_token_info.key];
    let c = make_call(instruction, keys, None);
    assert(key_views(keys@) =~= seq![account_info.key@, account_authority.key@, spl_token_info.key@]);
    Ok(c)
}

// ---------------------------------------------------------------------------
// Create a token account at a program-derived address

/// The two invocations that create a token account: the System program
/// creates the account (signed by the program for the derived address), and
/// the token program initializes it, unless the initialize instruction could
/// not be built, whose error then ends the operation once the account is
/// created.
pub struct CreateAccountPlan {
    pub create_account: CpiCall,
    pub initialize_account: Result<CpiCall, ToolError>,
}

/// The abstract value of a [`CreateAccountPlan`].
pub struct CreateAccountPlanView {
    pub create_account: CpiCallView,
    pub initialize_account: Result<CpiCallView, ToolError>,
}

/// The abstract value of a plan, or of the error reported in its place.
pub open spec fn plan_result_view(r: Result<CreateAccountPlan, ToolError>) -> Result<
    CreateAccountPlanView,
    ToolError,
> {
    match r {
        Ok(p) => Ok(
            CreateAccountPlanView {
                create_account: p.create_account@,
                initialize_account: call_result_view(p.initialize_account),
            },
        ),
        Err(e) => Err(e),
    }
}

/// The lamports that the new account is funded with: the rent-exempt minimum,
/// but at least one lamport.
pub open spec fn spec_funding_lamports(rent_minimum_balance: u64) -> u64 {
    if rent_minimum_balance < 1 {
        1
    } else {
        rent_minimum_balance
    }
}

/// What [`create_spl_token_account_signed`] returns: the token program is the
/// owner of the mint; the new account must be the address derived from the
/// seeds under `program_id`; the System program creates it with the size of
/// a token account, owned by the token program and funded by the payer; and
/// SPL Token initializes it, while Token-2022 is refused by the initialize
/// instruction builder with `IncorrectProgramId`.
pub open spec fn spec_create_spl_token_account_signed(
    payer: AccountInfo,
    token_account: AccountInfo,
    token_account_address_seeds: Seq<Seq<u8>>,
    token_mint: AccountInfo,
    token_account_owner: AccountInfo,
    program_id: Seq<u8>,
    system: AccountInfo,
    spl_token: AccountInfo,
    rent_sysvar: AccountInfo,
    rent_minimum_balance: u64,
) -> Result<CreateAccountPlanView, ToolError> {
    match spec_token_program_for(token_mint.owner@) {
        Err(e) => Err(e),
        Ok(p) => match spec_check_program_address(
            token_account_address_seeds,
            program_id,
            token_account.key@,
        ) {
            Err(e) => Err(e),
            Ok(bump) => Ok(
                CreateAccountPlanView {
                    create_account: call_view(
                        spec_create_account(
                            payer.key@,
                            token_account.key@,
                            spec_funding_lamports(rent_minimum_balance),
                            spec_token_account_len() as u64,
                            p.spec_id(),
                        ),
                        seq![payer.key@, token_account.key@, system.key@],
                        Some(spec_signer_seeds(token_account_address_seeds, bump)),
                    ),
                    initialize_account: if p == TokenProgram::SplToken {
                        Ok(
                            call_view(
                                spec_initialize_account(
                                    p.spec_id(),
                                    token_account.key@,
                                    token_mint.key@,
                                    token_account_owner.key@,
                                ),
                                seq![
                                    payer.key@,
                                    token_account.key@,
                                    token_account_owner.key@,
                                    token_mint.key@,
                                    spl_token.key@,
                                    rent_sysvar.key@,
                                ],
                                None,
                            ),
                        )
                    } else {
                        Err(ToolError::IncorrectProgramId)
                    },
                },
            ),
        },
    }
}

/// Plans creating and initializing an SPL Token account at the address
/// derived from `token_account_address_seeds` under `program_id`, for the
/// mint `token_mint_info` and owner `token_account_owner_info`, funded by
/// `payer_info` with `rent_minimum_balance` (the rent-exempt minimum for a
/// token account), and at least one lamport.
pub fn create_spl_token_account_signed(
    payer_info: &AccountInfo,
    token_account_info: &AccountInfo,
    token_account_address_seeds: &[Vec<u8>],
    token_mint_info: &AccountInfo,
    token_account_owner_info: &AccountInfo,
    program_id: &Pubkey,
    system_info: &AccountInfo,
    spl_token_info: &AccountInfo,
    rent_sysvar_info: &AccountInfo,
    rent_minimum_balance: u64,
) -> (r: Result<CreateAccountPlan, ToolError>)
    requires
        spec_token_program_for(token_mint_info.owner@) is Ok ==> program_address(
            token_account_address_seeds.deep_view(),
            program_id@,
        ) is Some,
    ensures
        plan_result_view(r) == spec_create_spl_token_account_signed(
            *payer_info,
            *token_account_info,
            token_account_address_seeds.deep_view(),
            *token_mint_info,
            *token_account_owner_info,
            program_id@,
            *system_info,
            *spl_token_info,
            *rent_sysvar_info,
            rent_minimum_balance,
        ),
{
    let program = match token_program_for(&token_mint_info.owner) {
        Ok(p) => p,
        Err(e) => return Err(e),
    };
    let token_program_id = program.id();
    let lamports = if rent_minimum_balance < 1 {
        1
    } else {
        rent_minimum_balance
    };
    let space = token_account_len() as u64;
    let create_instruction = system_create_account(
        &payer_info.key,
        &token_account_info.key,
        lamports,
        space,
        &token_program_id,
    );
    let bump = match check_program_address(token_account_address_seeds, program_id, &token_account_info.key) {
        Ok(b) => b,
        Err(e) => return Err(e),
    };
    let seeds = signer_seeds(token_account_address_seeds, bump);
    let create_keys = vec![payer_info.key, token_account_info.key, system_info.key];
    let create_account = make_call(create_instruction, create_keys, Some(seeds));
    assert(key_views(create_keys@) =~= seq![payer_info.key@, token_account_info.key@, system_info.key@]);
    let initialize_account = match spl_initialize_account(
        &token_program_id,
        &token_account_info.key,
        &token_mint_info.key,
        &token_account_owner_info.key,
    ) {
        Ok(ix) => {
            let init_keys = vec![
                payer_info.key,
                token_account_info.key,
                token_account_owner_info.key,
                token_mint_info.key,
                spl_token_info.key,
                rent_sysvar_info.key,
            ];
            let c = make_call(ix, init_keys, None);
            assert(key_views(init_keys@) =~= seq![
                payer_info.key@,
                token_account_info.key@,
                token_account_owner_info.key@,
                token_mint_info.key@,
                spl_token_info.key@,
                rent_sysvar_info.key@,
            ]);
            Ok(c)
        },
        Err(e) => Err(e),
    };
    Ok(CreateAccountPlan { create_account, initialize_account })
}

/// Plans creating the token account where a bump seed exists: `None` where
/// the mint's token program is known but no bump seed gives a derived
/// address, the plan of [`create_spl_token_account_signed`] otherwise.
pub fn try_create_spl_token_account_signed(
    payer_info: &AccountInfo,
    token_account_info: &AccountInfo,
    token_account_address_seeds: &[Vec<u8>],
    token_mint_info: &AccountInfo,
    token_account_owner_info: &AccountInfo,
    program_id: &Pubkey,
    system_info: &AccountInfo,
    spl_token_info: &AccountInfo,
    rent_sysvar_info: &AccountInfo,
    rent_minimum_balance: u64,
) -> (r: Option<Result<CreateAccountPlan, ToolError>>)
    ensures
        r is None <==> (spec_token_program_for(token_mint_info.owner@) is Ok && program_address(
            token_account_address_seeds.deep_view(),
            program_id@,
        ) is None),
        r matches Some(p) ==> plan_result_view(p) == spec_create_spl_token_account_signed(
            *payer_info,
            *token_account_info,
            token_account_address_seeds.deep_view(),
            *token_mint_info,
            *token_account_owner_info,
            program_id@,
            *system_info,
            *spl_token_info,
            *rent_sysvar_info,
            rent_minimum_balance,
        ),
{
    if token_program_for(&token_mint_info.owner).is_ok() && try_find_program_address(
        token_account_address_seeds,
        program_id,
    ).is_none() {
        return None;
    }
    Some(
        create_spl_token_account_signed(
            payer_info,
            token_account_info,
            token_account_address_seeds,
            token_mint_info,
            token_account_owner_info,
            program_id,
            system_info,
            spl_token_info,
            rent_sysvar_info,
            rent_minimum_balance,
        ),
    )
}

// ---------------------------------------------------------------------------
// Laws

/// A transfer signed by a derived authority is the plain transfer of the
/// same accounts and amount, with the program's signer seeds added.
pub proof fn lemma_signed_transfer_is_transfer_with_seeds(
    source: AccountInfo,
    destination: AccountInfo,
    authority: AccountInfo,
    authority_seeds: Seq<Seq<u8>>,
    program_id: Seq<u8>,
    amount: u64,
    spl_token: AccountInfo,
)
    ensures
        spec_transfer_spl_tokens_signed(
            source,
            destination,
            authority,
            authority_seeds,
            program_id,
            amount,
            spl_token,
        ) matches Ok(c) ==> spec_transfer_spl_tokens(source, destination, authority, amount, spl_token)
            == Ok::<CpiCallView, ToolError>(call_view(c.instruction, c.account_keys, None)),
{
}

/// A transfer signed by a derived authority is planned only where the
/// authority is the address derived from the seeds, and the program signs
/// with those seeds followed by the bump seed that derives it.
pub proof fn lemma_signed_transfer_authority_is_derived(
    source: AccountInfo,
    destination: AccountInfo,
    authority: AccountInfo,
    authority_seeds: Seq<Seq<u8>>,
    program_id: Seq<u8>,
    amount: u64,
    spl_token: AccountInfo,
)
    requires
        program_address(authority_seeds, program_id) is Some,
    ensures
        spec_transfer_spl_tokens_signed(
            source,
            destination,
            authority,
            authority_seeds,
            program_id,
            amount,
            spl_token,
        ) matches Ok(c) ==> {
            &&& c.signer_seeds matches Some(s)
            &&& s.drop_last() == authority_seeds
            &&& s.last().len() == 1
            &&& program_address(authority_seeds, program_id) == Some((authority.key@, s.last()[0]))
        },
{
    if let Ok(c) = spec_transfer_spl_tokens_signed(
        source,
        destination,
        authority,
        authority_seeds,
        program_id,
        amount,
        spl_token,
    ) {
        let s = c.signer_seeds.unwrap();
        assert(s.drop_last() =~= authority_seeds);
    }
}

/// A burn signed by a derived authority is planned only where the authority
/// is the address derived from the seeds, and the program signs with those
/// seeds followed by the bump seed that derives it.
pub proof fn lemma_signed_burn_authority_is_derived(
    token_account: AccountInfo,
    token_mint: AccountInfo,
    authority: AccountInfo,
    authority_seeds: Seq<Seq<u8>>,
    program_id: Seq<u8>,
    amount: u64,
    spl_token: AccountInfo,
)
    requires
        program_address(authority_seeds, program_id) is Some,
    ensures
        spec_burn_spl_tokens_signed(
            token_account,
            token_mint,
            authority,
            authority_seeds,
            program_id,
            amount,
            spl_token,
        ) matches Ok(c) ==> {
            &&& c.signer_seeds matches Some(s)
            &&& s.drop_last() == authority_seeds
            &&& s.last().len() == 1
            &&& program_address(authority_seeds, program_id) == Some((authority.key@, s.last()[0]))
            &&& c.instruction.program_id == token_mint.owner@
        },
{
    if let Ok(c) = spec_burn_spl_tokens_signed(
        token_account,
        token_mint,
        authority,
        authority_seeds,
        program_id,
        amount,
        spl_token,
    ) {
        let s = c.signer_seeds.unwrap();
        assert(s.drop_last() =~= authority_seeds);
    }
}

/// A token account is created only at the address derived from the seeds;
/// the program signs the creation with those seeds followed by the bump seed
/// that derives it, and the new account belongs to the program that owns the
/// mint.
pub proof fn lemma_created_account_is_derived(
    payer: AccountInfo,
    token_account: AccountInfo,
    token_account_address_seeds: Seq<Seq<u8>>,
    token_mint: AccountInfo,
    token_account_owner: AccountInfo,
    program_id: Seq<u8>,
    system: AccountInfo,
    spl_token: AccountInfo,
    rent_sysvar: AccountInfo,
    rent_minimum_balance: u64,
)
    requires
        program_address(token_account_address_seeds, program_id) is Some,
    ensures
        spec_create_spl_token_account_signed(
            payer,
            token_account,
            token_account_address_seeds,
            token_mint,
            token_account_owner,
            program_id,
            system,
            spl_token,
            rent_sysvar,
            rent_minimum_balance,
        ) matches Ok(plan) ==> {
            &&& plan.create_account.signer_seeds matches Some(s)
            &&& s.drop_last() == token_account_address_seeds
            &&& s.last().len() == 1
            &&& program_address(token_account_address_seeds, program_id) == Some(
                (token_account.key@, s.last()[0]),
            )
            &&& plan.create_account.instruction.data.subrange(52 - 32, 52) == token_mint.owner@
            &&& plan.create_account.instruction.data.len() == 52
        },
{
    if let Ok(plan) = spec_create_spl_token_account_signed(
        payer,
        token_account,
        token_account_address_seeds,
        token_mint,
        token_account_owner,
        program_id,
        system,
        spl_token,
        rent_sysvar,
        rent_minimum_balance,
    ) {
        let s = plan.create_account.signer_seeds.unwrap();
        assert(s.drop_last() =~= token_account_address_seeds);
        let d = plan.create_account.instruction.data;
        assert(d.subrange(52 - 32, 52) =~= token_mint.owner@);
    }
}

/// Every planned transfer, mint and authority change goes to the token
/// program that the accounts name: the key of the token program account for
/// transfers and authority changes, the owner of the mint for mints.
pub proof fn lemma_plans_target_token_program(
    a: AccountInfo,
    b: AccountInfo,
    c: AccountInfo,
    amount: u64,
    new_authority: Seq<u8>,
    authority_type: AuthorityType,
    spl_token: AccountInfo,
)
    ensures
        spec_transfer_spl_tokens(a, b, c, amount, spl_token) matches Ok(call) ==> call.instruction.program_id
            == spl_token.key@,
        spec_mint_spl_tokens_to(a, b, c, amount, spl_token) matches Ok(call) ==> call.instruction.program_id
            == a.owner@,
        spec_set_spl_token_account_authority(a, b, new_authority, authority_type, spl_token) matches Ok(
            call,
        ) ==> call.instruction.program_id == spl_token.key@,
{
}

/// The amount of a planned transfer, mint or burn reads back from its
/// instruction data, after the one-byte instruction tag.
pub proof fn lemma_planned_amount_reads_back(
    a: AccountInfo,
    b: AccountInfo,
    c: AccountInfo,
    authority_seeds: Seq<Seq<u8>>,
    program_id: Seq<u8>,
    amount: u64,
    spl_token: AccountInfo,
)
    ensures
        spec_transfer_spl_tokens(a, b, c, amount, spl_token) matches Ok(call) ==> crate::account::spec_le_u64(
            call.instruction.data.subrange(1, 9),
        ) == amount,
        spec_mint_spl_tokens_to(a, b, c, amount, spl_token) matches Ok(call) ==> crate::account::spec_le_u64(
            call.instruction.data.subrange(1, 9),
        ) == amount,
        spec_burn_spl_tokens_signed(a, b, c, authority_seeds, program_id, amount, spl_token) matches Ok(
            call,
        ) ==> crate::account::spec_le_u64(call.instruction.data.subrange(1, 9)) == amount,
{
    crate::instruction::lemma_u64_le_roundtrip(amount);
    let bytes = crate::instruction::spec_u64_le_bytes(amount);
    assert((seq![3u8] + bytes).subrange(1, 9) =~= bytes);
    assert((seq![7u8] + bytes).subrange(1, 9) =~= bytes);
    assert((seq![8u8] + bytes).subrange(1, 9) =~= bytes);
}

/// The eight bytes that follow a one-byte instruction tag hold `amount`,
/// least significant first.
proof fn lemma_tagged_amount(tag: u8, amount: u64)
    ensures
        (seq![tag] + crate::instruction::spec_u64_le_bytes(amount)).len() == 9,
        (seq![tag] + crate::instruction::spec_u64_le_bytes(amount))[0] == tag,
        crate::account::spec_le_u64((seq![tag] + crate::instruction::spec_u64_le_bytes(amount)).subrange(1, 9))
            == amount,
{
    crate::instruction::lemma_u64_le_roundtrip(amount);
    let bytes = crate::instruction::spec_u64_le_bytes(amount);
    assert((seq![tag] + bytes).subrange(1, 9) =~= bytes);
}

/// A transfer is planned exactly when the token program account is SPL Token
/// or Token-2022; the planned instruction goes to that program, moves `amount`
/// (tag 3, then the amount little-endian) from the source (written) to the
/// destination (written) under the authority (signing, read-only), and is
/// handed the token program, authority, source and destination, unsigned.
pub proof fn law_transfer_plan(
    source: AccountInfo,
    destination: AccountInfo,
    authority: AccountInfo,
    amount: u64,
    spl_token: AccountInfo,
)
    ensures
        spec_transfer_spl_tokens(source, destination, authority, amount, spl_token) is Ok
            <==> (spl_token.key@ == spec_spl_token_id() || spl_token.key@ == spec_spl_token_2022_id()),
        spec_transfer_spl_tokens(source, destination, authority, amount, spl_token) matches Ok(c) ==> {
            &&& c.instruction.program_id == spl_token.key@
            &&& c.instruction.accounts == seq![
                (source.key@, false, true),
                (destination.key@, false, true),
                (authority.key@, true, false),
            ]
            &&& c.instruction.data.len() == 9
            &&& c.instruction.data[0] == 3
            &&& crate::account::spec_le_u64(c.instruction.data.subrange(1, 9)) == amount
            &&& c.account_keys == seq![spl_token.key@, authority.key@, source.key@, destination.key@]
            &&& c.signer_seeds is None
        },
{
    lemma_tagged_amount(3, amount);
}

/// A mint-to is planned exactly when the mint is owned by SPL Token or
/// Token-2022; the planned instruction goes to the mint's owner, mints
/// `amount` (tag 7, then the amount little-endian) of the mint (written) to
/// the destination (written) under the mint authority (signing, read-only),
/// and is handed the token program, mint authority, mint and destination,
/// unsigned.
pub proof fn law_mint_to_plan(
    mint: AccountInfo,
    destination: AccountInfo,
    mint_authority: AccountInfo,
    amount: u64,
    spl_token: AccountInfo,
)
    ensures
        spec_mint_spl_tokens_to(mint, destination, mint_authority, amount, spl_token) is Ok <==> (mint.owner@
            == spec_spl_token_id() || mint.owner@ == spec_spl_token_2022_id()),
        spec_mint_spl_tokens_to(mint, destination, mint_authority, amount, spl_token) matches Ok(c) ==> {
            &&& c.instruction.program_id == mint.owner@
            &&& c.instruction.accounts == seq![
                (mint.key@, false, true),
                (destination.key@, false, true),
                (mint_authority.key@, true, false),
            ]
            &&& c.instruction.data.len() == 9
            &&& c.instruction.data[0] == 7
            &&& crate::account::spec_le_u64(c.instruction.data.subrange(1, 9)) == amount
            &&& c.account_keys == seq![spl_token.key@, mint_authority.key@, mint.key@, destination.key@]
            &&& c.signer_seeds is None
        },
{
    lemma_tagged_amount(7, amount);
}

/// A transfer signed by a derived authority is planned exactly when the
/// token program account is SPL Token or Token-2022 and the address derived
/// from the seeds under `program_id` is the authority (whatever the seeds,
/// within the runtime's limits); the instruction is the transfer of `amount`
/// from the source to the destination under that authority, handed the same
/// accounts as an unsigned transfer, and signed with the seeds followed by
/// the bump seed that derives the authority.
pub proof fn law_transfer_signed_plan(
    source: AccountInfo,
    destination: AccountInfo,
    authority: AccountInfo,
    authority_seeds: Seq<Seq<u8>>,
    program_id: Seq<u8>,
    amount: u64,
    spl_token: AccountInfo,
)
    requires
        program_address(authority_seeds, program_id) is Some,
    ensures
        spec_transfer_spl_tokens_signed(
            source,
            destination,
            authority,
            authority_seeds,
            program_id,
            amount,
            spl_token,
        ) is Ok <==> ((spl_token.key@ == spec_spl_token_id() || spl_token.key@ == spec_spl_token_2022_id())
            && program_address(authority_seeds, program_id).unwrap().0 == authority.key@),
        (spl_token.key@ == spec_spl_token_id() || spl_token.key@ == spec_spl_token_2022_id())
            && program_address(authority_seeds, program_id).unwrap().0 != authority.key@
            ==> spec_transfer_spl_tokens_signed(
            source,
            destination,
            authority,
            authority_seeds,
            program_id,
            amount,
            spl_token,
        ) == Err::<CpiCallView, ToolError>(ToolError::InvalidSeeds),
        spec_transfer_spl_tokens_signed(
            source,
            destination,
            authority,
            authority_seeds,
            program_id,
            amount,
            spl_token,
        ) matches Ok(c) ==> {
            &&& c.instruction.program_id == spl_token.key@
            &&& c.instruction.accounts == seq![
                (source.key@, false, true),
                (destination.key@, false, true),
                (authority.key@, true, false),
            ]
            &&& c.instruction.data.len() == 9
            &&& c.instruction.data[0] == 3
            &&& crate::account::spec_le_u64(c.instruction.data.subrange(1, 9)) == amount
            &&& c.account_keys == seq![spl_token.key@, authority.key@, source.key@, destination.key@]
            &&& c.signer_seeds == Some(
                authority_seeds.push(seq![program_address(authority_seeds, program_id).unwrap().1]),
            )
        },
{
    lemma_tagged_amount(3, amount);
}

/// A burn signed by a derived authority is planned exactly when the mint is
/// owned by SPL Token or Token-2022 and the address derived from the seeds
/// under `program_id` is the authority; the instruction goes to the mint's
/// owner and burns `amount` (tag 8, then the amount little-endian) from the
/// given token account (written) of the mint (written) under that authority
/// (signing, read-only), is handed the token program, token account, mint
/// and authority, and is signed with the seeds followed by the bump seed.
pub proof fn law_burn_signed_plan(
    token_account: AccountInfo,
    token_mint: AccountInfo,
    authority: AccountInfo,
    authority_seeds: Seq<Seq<u8>>,
    program_id: Seq<u8>,
    amount: u64,
    spl_token: AccountInfo,
)
    requires
        program_address(authority_seeds, program_id) is Some,
    ensures
        spec_burn_spl_tokens_signed(
            token_account,
            token_mint,
            authority,
            authority_seeds,
            program_id,
            amount,
            spl_token,
        ) is Ok <==> ((token_mint.owner@ == spec_spl_token_id() || token_mint.owner@
            == spec_spl_token_2022_id()) && program_address(authority_seeds, program_id).unwrap().0
            == authority.key@),
        (token_mint.owner@ == spec_spl_token_id() || token_mint.owner@ == spec_spl_token_2022_id())
            && program_address(authority_seeds, program_id).unwrap().0 != authority.key@
            ==> spec_burn_spl_tokens_signed(
            token_account,
            token_mint,
            authority,
            authority_seeds,
            program_id,
            amount,
            spl_token,
        ) == Err::<CpiCallView, ToolError>(ToolError::InvalidSeeds),
        spec_burn_spl_tokens_signed(
            token_account,
            token_mint,
            authority,
            authority_seeds,
            program_id,
            amount,
            spl_token,
        ) matches Ok(c) ==> {
            &&& c.instruction.program_id == token_mint.owner@
            &&& c.instruction.accounts == seq![
                (token_account.key@, false, true),
                (token_mint.key@, false, true),
                (authority.key@, true, false),
            ]
            &&& c.instruction.data.len() == 9
            &&& c.instruction.data[0] == 8
            &&& crate::account::spec_le_u64(c.instruction.data.subrange(1, 9)) == amount
            &&& c.account_keys == seq![spl_token.key@, token_account.key@, token_mint.key@, authority.key@]
            &&& c.signer_seeds == Some(
                authority_seeds.push(seq![program_address(authority_seeds, program_id).unwrap().1]),
            )
        },
{
    lemma_tagged_amount(8, amount);
}

/// An authority change is planned exactly when the token program account is
/// SPL Token (Token-2022 is refused with `IncorrectProgramId`); the
/// instruction goes to SPL Token, has the data `[6, kind, 1]` followed by
/// exactly the 32 bytes of the new authority, touches the account (written)
/// under its current authority (signing, read-only), and is handed the
/// account, its authority and the token program, unsigned.
pub proof fn law_set_authority_plan(
    account: AccountInfo,
    account_authority: AccountInfo,
    new_account_authority: Seq<u8>,
    authority_type: AuthorityType,
    spl_token: AccountInfo,
)
    requires
        new_account_authority.len() == 32,
    ensures
        spec_set_spl_token_account_authority(
            account,
            account_authority,
            new_account_authority,
            authority_type,
            spl_token,
        ) is Ok <==> spl_token.key@ == spec_spl_token_id(),
        spl_token.key@ == spec_spl_token_2022_id() ==> spec_set_spl_token_account_authority(
            account,
            account_authority,
            new_account_authority,
            authority_type,
            spl_token,
        ) == Err::<CpiCallView, ToolError>(ToolError::IncorrectProgramId),
        spec_set_spl_token_account_authority(
            account,
            account_authority,
            new_account_authority,
            authority_type,
            spl_token,
        ) matches Ok(c) ==> {
            &&& c.instruction.program_id == spec_spl_token_id()
            &&& c.instruction.accounts == seq![(account.key@, false, true), (account_authority.key@, true, false)]
            &&& c.instruction.data.len() == 35
            &&& c.instruction.data[0] == 6
            &&& c.instruction.data[1] == match authority_type {
                AuthorityType::MintTokens => 0u8,
                AuthorityType::FreezeAccount => 1u8,
                AuthorityType::AccountOwner => 2u8,
                AuthorityType::CloseAccount => 3u8,
            }
            &&& c.instruction.data[2] == 1
            &&& c.instruction.data.subrange(3, 35) == new_account_authority
            &&& c.account_keys == seq![account.key@, account_authority.key@, spl_token.key@]
            &&& c.signer_seeds is None
        },
{
    crate::keys::lemma_token_program_ids_differ();
    if let Ok(c) = spec_set_spl_token_account_authority(
        account,
        account_authority,
        new_account_authority,
        authority_type,
        spl_token,
    ) {
        assert(c.instruction.data.subrange(3, 35) =~= new_account_authority);
    }
}

/// A token account is created exactly when the mint is owned by SPL Token or
/// Token-2022 and the address derived from the seeds under `program_id` is
/// the token account. The System program then creates it: funded by the
/// payer (signing, written) with the rent-exempt minimum but at least one
/// lamport, with 165 bytes, owned by the mint's token program, signed for by
/// the program with the seeds followed by the bump seed. SPL Token then
/// initializes it for exactly the given mint and owner (both read-only, not
/// signing) with the rent sysvar; a Token-2022 mint is refused there with
/// `IncorrectProgramId`.
pub proof fn law_create_account_plan(
    payer: AccountInfo,
    token_account: AccountInfo,
    token_account_address_seeds: Seq<Seq<u8>>,
    token_mint: AccountInfo,
    token_account_owner: AccountInfo,
    program_id: Seq<u8>,
    system: AccountInfo,
    spl_token: AccountInfo,
    rent_sysvar: AccountInfo,
    rent_minimum_balance: u64,
)
    requires
        program_address(token_account_address_seeds, program_id) is Some,
    ensures
        spec_create_spl_token_account_signed(
            payer,
            token_account,
            token_account_address_seeds,
            token_mint,
            token_account_owner,
            program_id,
            system,
            spl_token,
            rent_sysvar,
            rent_minimum_balance,
        ) is Ok <==> ((token_mint.owner@ == spec_spl_token_id() || token_mint.owner@
            == spec_spl_token_2022_id()) && program_address(token_account_address_seeds, program_id).unwrap().0
            == token_account.key@),
        spec_create_spl_token_account_signed(
            payer,
            token_account,
            token_account_address_seeds,
            token_mint,
            token_account_owner,
            program_id,
            system,
            spl_token,
            rent_sysvar,
            rent_minimum_balance,
        ) matches Ok(plan) ==> {
            &&& plan.create_account.instruction.program_id == Seq::new(32, |i: int| 0u8)
            &&& plan.create_account.instruction.accounts == seq![
                (payer.key@, true, true),
                (token_account.key@, true, true),
            ]
            &&& plan.create_account.instruction.data.len() == 52
            &&& plan.create_account.instruction.data.subrange(0, 4) == seq![0u8, 0, 0, 0]
            &&& crate::account::spec_le_u64(plan.create_account.instruction.data.subrange(4, 12)) == (
            if rent_minimum_balance == 0 {
                1
            } else {
                rent_minimum_balance as int
            })
            &&& crate::account::spec_le_u64(plan.create_account.instruction.data.subrange(12, 20)) == 165
            &&& plan.create_account.instruction.data.subrange(20, 52) == token_mint.owner@
            &&& plan.create_account.account_keys == seq![payer.key@, token_account.key@, system.key@]
            &&& plan.create_account.signer_seeds == Some(
                token_account_address_seeds.push(
                    seq![program_address(token_account_address_seeds, program_id).unwrap().1],
                ),
            )
            &&& (plan.initialize_account is Ok <==> token_mint.owner@ == spec_spl_token_id())
            &&& plan.initialize_account is Err ==> plan.initialize_account == Err::<CpiCallView, ToolError>(
                ToolError::IncorrectProgramId,
            )
            &&& plan.initialize_account matches Ok(init) ==> {
                &&& init.instruction.program_id == spec_spl_token_id()
                &&& init.instruction.accounts == seq![
                    (token_account.key@, false, true),
                    (token_mint.key@, false, false),
                    (token_account_owner.key@, false, false),
                    (crate::instruction::spec_rent_sysvar_id(), false, false),
                ]
                &&& init.instruction.data == seq![1u8]
                &&& init.account_keys == seq![
                    payer.key@,
                    token_account.key@,
                    token_account_owner.key@,
                    token_mint.key@,
                    spl_token.key@,
                    rent_sysvar.key@,
                ]
                &&& init.signer_seeds is None
            }
        },
{
    crate::keys::lemma_token_program_ids_differ();
    let lamports = spec_funding_lamports(rent_minimum_balance);
    crate::instruction::lemma_u64_le_roundtrip(lamports);
    crate::instruction::lemma_u64_le_roundtrip(165u64);
    if let Ok(plan) = spec_create_spl_token_account_signed(
        payer,
        token_account,
        token_account_address_seeds,
        token_mint,
        token_account_owner,
        program_id,
        system,
        spl_token,
        rent_sysvar,
        rent_minimum_balance,
    ) {
        let d = plan.create_account.instruction.data;
        let l = crate::instruction::spec_u64_le_bytes(lamports);
        let sp = crate::instruction::spec_u64_le_bytes(165u64);
        assert(d.subrange(0, 4) =~= seq![0u8, 0, 0, 0]);
        assert(d.subrange(4, 12) =~= l);
        assert(d.subrange(12, 20) =~= sp);
        assert(d.subrange(20, 52) =~= token_mint.owner@);
    }
}

} // verus!
