//! Instructions for other programs, and the SPL Token and System program
//! instruction builders that the helpers call.

use vstd::prelude::*;

use solana_program::program_error::ProgramError;
use spl_token::instruction::AuthorityType as SplAuthorityType;

use crate::error::ToolError;
use crate::keys::{spec_spl_token_id, Pubkey};

verus! {

/// An account that an instruction reads or writes.
pub struct AccountMeta {
    pub pubkey: Pubkey,
    pub is_signer: bool,
    pub is_writable: bool,
}

impl View for AccountMeta {
    type V = (Seq<u8>, bool, bool);

    /// The key, whether it must sign, whether it is written.
    open spec fn view(&self) -> (Seq<u8>, bool, bool) {
        (self.pubkey@, self.is_signer, self.is_writable)
    }
}

/// What an SPL Token instruction builder returns.
pub type BuiltInstruction = Result<Instruction, ToolError>;

/// An instruction for another program: the program, the accounts it
/// touches, and its data.
pub struct Instruction {
    pub program_id: Pubkey,
    pub accounts: Vec<AccountMeta>,
    pub data: Vec<u8>,
}

/// The abstract value of an [`Instruction`].
pub struct InstructionView {
    pub program_id: Seq<u8>,
    pub accounts: Seq<(Seq<u8>, bool, bool)>,
    pub data: Seq<u8>,
}

impl View for Instruction {
    type V = InstructionView;

    open spec fn view(&self) -> InstructionView {
        InstructionView {
            program_id: self.program_id@,
            accounts: self.accounts@.map_values(|m: AccountMeta| m@),
            data: self.data@,
        }
    }
}

/// The kinds of authority that an SPL Token account or mint has.
#[derive(Clone, Copy, Debug, PartialEq, Eq, Structural)]
pub enum AuthorityType {
    /// Authority to mint new tokens.
    MintTokens,
    /// Authority to freeze any account of the mint.
    FreezeAccount,
    /// Owner of a token account.
    AccountOwner,
    /// Authority to close a token account.
    CloseAccount,
}

/// The byte with which SPL Token encodes an authority type.
pub open spec fn spec_authority_type_byte(t: AuthorityType) -> u8 {
    match t {
        AuthorityType::MintTokens => 0,
        AuthorityType::FreezeAccount => 1,
        AuthorityType::AccountOwner => 2,
        AuthorityType::CloseAccount => 3,
    }
}

/// The bytes of the System program id (`11111111111111111111111111111111`).
pub open spec fn spec_system_program_id() -> Seq<u8> {
    Seq::new(32, |i: int| 0u8)
}

/// The bytes of the rent sysvar id (`SysvarRent111111111111111111111111111111111`).
pub open spec fn spec_rent_sysvar_id() -> Seq<u8> {
    seq![
        6u8, 167, 213, 23, 25, 44, 92, 81, 33, 140, 201, 76, 61, 74, 241, 127,
        88, 218, 238, 8, 155, 161, 253, 68, 227, 219, 217, 138, 0, 0, 0, 0,
    ]
}

/// The eight bytes of `v`, least significant first.
pub open spec fn spec_u64_le_bytes(v: u64) -> Seq<u8> {
    seq![
        (v % 0x100) as u8,
        (v / 0x100 % 0x100) as u8,
        (v / 0x1_0000 % 0x100) as u8,
        (v / 0x100_0000 % 0x100) as u8,
        (v / 0x1_0000_0000 % 0x100) as u8,
        (v / 0x100_0000_0000 % 0x100) as u8,
        (v / 0x1_0000_0000_0000 % 0x100) as u8,
        (v / 0x100_0000_0000_0000 % 0x100) as u8,
    ]
}

/// An account that the instruction writes.
pub open spec fn writable(key: Seq<u8>, is_signer: bool) -> (Seq<u8>, bool, bool) {
    (key, is_signer, true)
}

/// An account that the instruction only reads.
pub open spec fn readonly(key: Seq<u8>, is_signer: bool) -> (Seq<u8>, bool, bool) {
    (key, is_signer, false)
}

/// The System program's `CreateAccount` instruction: `from` pays `lamports`
/// to the new account `to`, which gets `space` bytes and is owned by `owner`.
pub open spec fn spec_create_account(
    from: Seq<u8>,
    to: Seq<u8>,
    lamports: u64,
    space: u64,
    owner: Seq<u8>,
) -> InstructionView {
    InstructionView {
        program_id: spec_system_program_id(),
        accounts: seq![writable(from, true), writable(to, true)],
        data: seq![0u8, 0, 0, 0] + spec_u64_le_bytes(lamports) + spec_u64_le_bytes(space) + owner,
    }
}

/// SPL Token's `InitializeAccount` instruction.
pub open spec fn spec_initialize_account(
    program_id: Seq<u8>,
    account: Seq<u8>,
    mint: Seq<u8>,
    owner: Seq<u8>,
) -> InstructionView {
    InstructionView {
        program_id,
        accounts: seq![
            writable(account, false),
            readonly(mint, false),
            readonly(owner, false),
            readonly(spec_rent_sysvar_id(), false),
        ],
        data: seq![1u8],
    }
}

/// SPL Token's `Transfer` instruction with a single signing authority.
pub open spec fn spec_transfer(
    program_id: Seq<u8>,
    source: Seq<u8>,
    destination: Seq<u8>,
    authority: Seq<u8>,
    amount: u64,
) -> InstructionView {
    InstructionView {
        program_id,
        accounts: seq![writable(source, false), writable(destination, false), readonly(authority, true)],
        data: seq![3u8] + spec_u64_le_bytes(amount),
    }
}

/// SPL Token's `MintTo` instruction with a single signing mint authority.
pub open spec fn spec_mint_to(
    program_id: Seq<u8>,
    mint: Seq<u8>,
    account: Seq<u8>,
    authority: Seq<u8>,
    amount: u64,
) -> InstructionView {
    InstructionView {
        program_id,
        accounts: seq![writable(mint, false), writable(account, false), readonly(authority, true)],
        data: seq![7u8] + spec_u64_le_bytes(amount),
    }
}

/// SPL Token's `Burn` instruction with a single signing authority.
pub open spec fn spec_burn(
    program_id: Seq<u8>,
    account: Seq<u8>,
    mint: Seq<u8>,
    authority: Seq<u8>,
    amount: u64,
) -> InstructionView {
    InstructionView {
        program_id,
        accounts: seq![writable(account, false), writable(mint, false), readonly(authority, true)],
        data: seq![8u8] + spec_u64_le_bytes(amount),
    }
}

/// SPL Token's `SetAuthority` instruction that sets a new authority, with a
/// single signing current authority.
pub open spec fn spec_set_authority(
    program_id: Seq<u8>,
    owned: Seq<u8>,
    new_authority: Seq<u8>,
    authority_type: AuthorityType,
    owner: Seq<u8>,
) -> InstructionView {
    InstructionView {
        program_id,
        accounts: seq![writable(owned, false), readonly(owner, true)],
        data: seq![6u8, spec_authority_type_byte(authority_type), 1u8] + new_authority,
    }
}

/// `solana_program::system_instruction::create_account`: the contract states
/// the instruction that the source builds (its bincode data: the variant
/// index 0 as a little-endian `u32`, then lamports, space and owner).
#[verifier::external_body]
#[allow(deprecated)]
pub(crate) fn system_create_account(
    from: &Pubkey,
    to: &Pubkey,
    lamports: u64,
    space: u64,
    owner: &Pubkey,
) -> (ix: Instruction)
    ensures
        ix@ == spec_create_account(from@, to@, lamports, space, owner@),
{
    let ix = solana_program::system_instruction::create_account(&(*from).into(), &(*to).into(), lamports, space, &(*owner).into());
    Instruction {
        program_id: ix.program_id.to_bytes(),
        accounts: ix.accounts.iter().map(|m| AccountMeta { pubkey: m.pubkey.to_bytes(), is_signer: m.is_signer, is_writable: m.is_writable }).collect(),
        data: ix.data,
    }
}

/// `spl_token::instruction::initialize_account`: it fails with
/// `IncorrectProgramId` unless `program_id` is SPL Token's id, and otherwise
/// builds the instruction that the contract states.
#[verifier::external_body]
pub(crate) fn spl_initialize_account(
    program_id: &Pubkey,
    account: &Pubkey,
    mint: &Pubkey,
    owner: &Pubkey,
) -> (r: BuiltInstruction)
    ensures
        (r is Ok) == (program_id@ == spec_spl_token_id()),
        r matches Ok(ix) ==> ix@ == spec_initialize_account(program_id@, account@, mint@, owner@),
        r matches Err(e) ==> e == ToolError::IncorrectProgramId,
{
    match spl_token::instruction::initialize_account(&(*program_id).into(), &(*account).into(), &(*mint).into(), &(*owner).into()) {
        Ok(ix) => Ok(Instruction {
            program_id: ix.program_id.to_bytes(),
            accounts: ix.accounts.iter().map(|m| AccountMeta { pubkey: m.pubkey.to_bytes(), is_signer: m.is_signer, is_writable: m.is_writable }).collect(),
            data: ix.data,
        }),
        Err(ProgramError::IncorrectProgramId) => Err(ToolError::IncorrectProgramId),
        Err(e) => Err(ToolError::Program(e)),
    }
}

/// `spl_token::instruction::transfer` with no multisig signers: it fails with
/// `IncorrectProgramId` unless `program_id` is SPL Token's id, and otherwise
/// builds the instruction that the contract states.
#[verifier::external_body]
pub(crate) fn spl_transfer(
    program_id: &Pubkey,
    source: &Pubkey,
    destination: &Pubkey,
    authority: &Pubkey,
    amount: u64,
) -> (r: BuiltInstruction)
    ensures
        (r is Ok) == (program_id@ == spec_spl_token_id()),
        r matches Ok(ix) ==> ix@ == spec_transfer(program_id@, source@, destination@, authority@, amount),
        r matches Err(e) ==> e == ToolError::IncorrectProgramId,
{
    match spl_token::instruction::transfer(&(*program_id).into(), &(*source).into(), &(*destination).into(), &(*authority).into(), &[], amount) {
        Ok(ix) => Ok(Instruction {
            program_id: ix.program_id.to_bytes(),
            accounts: ix.accounts.iter().map(|m| AccountMeta { pubkey: m.pubkey.to_bytes(), is_signer: m.is_signer, is_writable: m.is_writable }).collect(),
            data: ix.data,
        }),
        Err(ProgramError::IncorrectProgramId) => Err(ToolError::IncorrectProgramId),
        Err(e) => Err(ToolError::Program(e)),
    }
}

/// `spl_token::instruction::mint_to` with no multisig signers: it fails with
/// `IncorrectProgramId` unless `program_id` is SPL Token's id, and otherwise
/// builds the instruction that the contract states.
#[verifier::external_body]
pub(crate) fn spl_mint_to(
    program_id: &Pubkey,
    mint: &Pubkey,
    account: &Pubkey,
    authority: &Pubkey,
    amount: u64,
) -> (r: BuiltInstruction)
    ensures
        (r is Ok) == (program_id@ == spec_spl_token_id()),
        r matches Ok(ix) ==> ix@ == spec_mint_to(program_id@, mint@, account@, authority@, amount),
        r matches Err(e) ==> e == ToolError::IncorrectProgramId,
{
    match spl_token::instruction::mint_to(&(*program_id).into(), &(*mint).into(), &(*account).into(), &(*authority).into(), &[], amount) {
        Ok(ix) => Ok(Instruction {
            program_id: ix.program_id.to_bytes(),
            accounts: ix.accounts.iter().map(|m| AccountMeta { pubkey: m.pubkey.to_bytes(), is_signer: m.is_signer, is_writable: m.is_writable }).collect(),
            data: ix.data,
        }),
        Err(ProgramError::IncorrectProgramId) => Err(ToolError::IncorrectProgramId),
        Err(e) => Err(ToolError::Program(e)),
    }
}

/// `spl_token::instruction::burn` with no multisig signers: it fails with
/// `IncorrectProgramId` unless `program_id` is SPL Token's id, and otherwise
/// builds the instruction that the contract states.
#[verifier::external_body]
pub(crate) fn spl_burn(
    program_id: &Pubkey,
    account: &Pubkey,
    mint: &Pubkey,
    authority: &Pubkey,
    amount: u64,
) -> (r: BuiltInstruction)
    ensures
        (r is Ok) == (program_id@ == spec_spl_token_id()),
        r matches Ok(ix) ==> ix@ == spec_burn(program_id@, account@, mint@, authority@, amount),
        r matches Err(e) ==> e == ToolError::IncorrectProgramId,
{
    match spl_token::instruction::burn(&(*program_id).into(), &(*account).into(), &(*mint).into(), &(*authority).into(), &[], amount) {
        Ok(ix) => Ok(Instruction {
            program_id: ix.program_id.to_bytes(),
            accounts: ix.accounts.iter().map(|m| AccountMeta { pubkey: m.pubkey.to_bytes(), is_signer: m.is_signer, is_writable: m.is_writable }).collect(),
            data: ix.data,
        }),
        Err(ProgramError::IncorrectProgramId) => Err(ToolError::IncorrectProgramId),
        Err(e) => Err(ToolError::Program(e)),
    }
}

/// `spl_token::instruction::set_authority` with a new authority and no
/// multisig signers: it fails with `IncorrectProgramId` unless `program_id`
/// is SPL Token's id, and otherwise builds the instruction that the contract
/// states.
#[verifier::external_body]
pub(crate) fn spl_set_authority(
    program_id: &Pubkey,
    owned: &Pubkey,
    new_authority: &Pubkey,
    authority_type: AuthorityType,
    owner: &Pubkey,
) -> (r: BuiltInstruction)
    ensures
        (r is Ok) == (program_id@ == spec_spl_token_id()),
        r matches Ok(ix) ==> ix@ == spec_set_authority(program_id@, owned@, new_authority@, authority_type, owner@),
        r matches Err(e) ==> e == ToolError::IncorrectProgramId,
{
    let kind = match authority_type {
        AuthorityType::MintTokens => SplAuthorityType::MintTokens,
        AuthorityType::FreezeAccount => SplAuthorityType::FreezeAccount,
        AuthorityType::AccountOwner => SplAuthorityType::AccountOwner,
        AuthorityType::CloseAccount => SplAuthorityType::CloseAccount,
    };
    match spl_token::instruction::set_authority(&(*program_id).into(), &(*owned).into(), Some(&(*new_authority).into()), kind, &(*owner).into(), &[]) {
        Ok(ix) => Ok(Instruction {
            program_id: ix.program_id.to_bytes(),
            accounts: ix.accounts.iter().map(|m| AccountMeta { pubkey: m.pubkey.to_bytes(), is_signer: m.is_signer, is_writable: m.is_writable }).collect(),
            data: ix.data,
        }),
        Err(ProgramError::IncorrectProgramId) => Err(ToolError::IncorrectProgramId),
        Err(e) => Err(ToolError::Program(e)),
    }
}

/// The eight bytes of an amount, read back least significant first, give
/// the amount again.
pub proof fn lemma_u64_le_roundtrip(v: u64)
    ensures
        crate::account::spec_le_u64(spec_u64_le_bytes(v)) == v,
{
    assert(v == v % 0x100 + v / 0x100 % 0x100 * 0x100 + v / 0x1_0000 % 0x100 * 0x1_0000
        + v / 0x100_0000 % 0x100 * 0x100_0000 + v / 0x1_0000_0000 % 0x100 * 0x1_0000_0000
        + v / 0x100_0000_0000 % 0x100 * 0x100_0000_0000
        + v / 0x1_0000_0000_0000 % 0x100 * 0x1_0000_0000_0000
        + v / 0x100_0000_0000_0000 % 0x100 * 0x100_0000_0000_0000) by (bit_vector);
}

} // verus!
