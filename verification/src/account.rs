//! The parts of an account that the token helpers read, the byte layout of
//! SPL Token accounts and mints, and the checks and readers over it.

use vstd::prelude::*;

use crate::error::{GovernanceError, ToolError};
use crate::keys::{
    is_token_program_id, keys_equal, spec_spl_token_2022_id, spec_spl_token_id, spl_token_2022_id,
    spl_token_id, Pubkey,
};

verus! {

/// What the helpers read of an account handed to the program: its address,
/// the program that owns it, whether it signed the transaction, and its data.
pub struct AccountInfo {
    pub key: Pubkey,
    pub owner: Pubkey,
    pub is_signer: bool,
    pub data: Vec<u8>,
}

/// Offset of the mint in a token account (`mint(32), owner(32), amount(8), ...`).
pub const TOKEN_ACCOUNT_MINT_OFFSET: usize = 0;
/// Offset of the owner in a token account.
pub const TOKEN_ACCOUNT_OWNER_OFFSET: usize = 32;
/// Offset of the state byte in a token account
/// (`mint(32), owner(32), amount(8), delegate(36), state(1), ...`).
pub const TOKEN_ACCOUNT_STATE_OFFSET: usize = 108;
/// Offset of the optional mint authority in a mint (`authority(36), supply(8), decimals(1), is_initialized(1), ...`).
pub const MINT_AUTHORITY_OFFSET: usize = 0;
/// Offset of the supply in a mint.
pub const MINT_SUPPLY_OFFSET: usize = 36;
/// Offset of the is-initialized byte in a mint.
pub const MINT_IS_INITIALIZED_OFFSET: usize = 45;

/// The packed size of an SPL Token account.
pub open spec fn spec_token_account_len() -> nat {
    165
}

/// The packed size of an SPL Token mint.
pub open spec fn spec_mint_len() -> nat {
    82
}

/// `spl_token::state::Account::LEN`, which the crate's source sets to 165.
#[verifier::external_body]
pub(crate) fn token_account_len() -> (len: usize)
    ensures
        len == spec_token_account_len(),
{
    <spl_token::state::Account as solana_program::program_pack::Pack>::LEN
}

/// `spl_token::state::Mint::LEN`, which the crate's source sets to 82.
#[verifier::external_body]
fn mint_len() -> (len: usize)
    ensures
        len == spec_mint_len(),
{
    <spl_token::state::Mint as solana_program::program_pack::Pack>::LEN
}

/// The unsigned number that the bytes `s[0..8]` hold, least significant first.
pub open spec fn spec_le_u64(s: Seq<u8>) -> int {
    s[0] as int + s[1] as int * 0x100 + s[2] as int * 0x1_0000 + s[3] as int * 0x100_0000
        + s[4] as int * 0x1_0000_0000 + s[5] as int * 0x100_0000_0000
        + s[6] as int * 0x1_0000_0000_0000 + s[7] as int * 0x100_0000_0000_0000
}

/// The optional key that a 36-byte `COption<Pubkey>` encoding holds: a
/// 4-byte tag (`0` for none, `1` for some, little-endian) and the key.
pub open spec fn spec_unpack_coption_pubkey(s: Seq<u8>) -> Result<Option<Seq<u8>>, ToolError> {
    if s[1] != 0 || s[2] != 0 || s[3] != 0 {
        Err(ToolError::InvalidAccountData)
    } else if s[0] == 0 {
        Ok(None)
    } else if s[0] == 1 {
        Ok(Some(s.subrange(4, 36)))
    } else {
        Err(ToolError::InvalidAccountData)
    }
}

/// Wraps a governance error.
pub open spec fn gov(e: GovernanceError) -> ToolError {
    ToolError::Governance(e)
}

/// The outcome of checking that `a` is an initialized SPL Token account of
/// SPL Token or Token-2022; the first failing check decides the error.
pub open spec fn spec_token_account_check(a: AccountInfo) -> Result<(), ToolError> {
    if a.data@.len() == 0 {
        Err(gov(GovernanceError::SplTokenAccountDoesNotExist))
    } else if !is_token_program_id(a.owner@) {
        Err(gov(GovernanceError::SplTokenAccountWithInvalidOwner))
    } else if a.data@.len() != spec_token_account_len() {
        Err(gov(GovernanceError::SplTokenInvalidTokenAccountData))
    } else if a.data@[TOKEN_ACCOUNT_STATE_OFFSET as int] == 0 {
        Err(gov(GovernanceError::SplTokenAccountNotInitialized))
    } else {
        Ok(())
    }
}

/// The outcome of checking that `a` is an initialized SPL Token mint of
/// SPL Token or Token-2022; the first failing check decides the error.
pub open spec fn spec_mint_check(a: AccountInfo) -> Result<(), ToolError> {
    if a.data@.len() == 0 {
        Err(gov(GovernanceError::SplTokenMintDoesNotExist))
    } else if !is_token_program_id(a.owner@) {
        Err(gov(GovernanceError::SplTokenMintWithInvalidOwner))
    } else if a.data@.len() != spec_mint_len() {
        Err(gov(GovernanceError::SplTokenInvalidMintAccountData))
    } else if a.data@[MINT_IS_INITIALIZED_OFFSET as int] == 0 {
        Err(gov(GovernanceError::SplTokenMintNotInitialized))
    } else {
        Ok(())
    }
}

/// The mint that the token account `a` holds, once `a` is a valid token account.
pub open spec fn spec_token_mint(a: AccountInfo) -> Result<Seq<u8>, ToolError> {
    match spec_token_account_check(a) {
        Err(e) => Err(e),
        Ok(_) => Ok(a.data@.subrange(TOKEN_ACCOUNT_MINT_OFFSET as int, TOKEN_ACCOUNT_MINT_OFFSET + 32)),
    }
}

/// The owner that the token account `a` holds, once `a` is a valid token account.
pub open spec fn spec_token_owner(a: AccountInfo) -> Result<Seq<u8>, ToolError> {
    match spec_token_account_check(a) {
        Err(e) => Err(e),
        Ok(_) => Ok(a.data@.subrange(TOKEN_ACCOUNT_OWNER_OFFSET as int, TOKEN_ACCOUNT_OWNER_OFFSET + 32)),
    }
}

/// The supply that the mint `a` holds, once `a` is a valid mint.
pub open spec fn spec_mint_supply(a: AccountInfo) -> Result<int, ToolError> {
    match spec_mint_check(a) {
        Err(e) => Err(e),
        Ok(_) => Ok(spec_le_u64(a.data@.subrange(MINT_SUPPLY_OFFSET as int, MINT_SUPPLY_OFFSET + 8))),
    }
}

/// The optional mint authority that the mint `a` holds, once `a` is a valid mint.
pub open spec fn spec_mint_authority(a: AccountInfo) -> Result<Option<Seq<u8>>, ToolError> {
    match spec_mint_check(a) {
        Err(e) => Err(e),
        Ok(_) => spec_unpack_coption_pubkey(
            a.data@.subrange(MINT_AUTHORITY_OFFSET as int, MINT_AUTHORITY_OFFSET + 36),
        ),
    }
}

/// The outcome of checking that `authority` is the mint authority of `mint`
/// and signed.
pub open spec fn spec_mint_authority_is_signer(mint: AccountInfo, authority: AccountInfo) -> Result<
    (),
    ToolError,
> {
    match spec_mint_authority(mint) {
        Err(e) => Err(e),
        Ok(None) => Err(gov(GovernanceError::MintHasNoAuthority)),
        Ok(Some(k)) => if k != authority.key@ {
            Err(gov(GovernanceError::InvalidMintAuthority))
        } else if !authority.is_signer {
            Err(gov(GovernanceError::MintAuthorityMustSign))
        } else {
            Ok(())
        },
    }
}

/// The outcome of checking that `owner` owns the token account `token` and signed.
pub open spec fn spec_token_owner_is_signer(token: AccountInfo, owner: AccountInfo) -> Result<
    (),
    ToolError,
> {
    match spec_token_owner(token) {
        Err(e) => Err(e),
        Ok(k) => if k != owner.key@ {
            Err(gov(GovernanceError::InvalidTokenOwner))
        } else if !owner.is_signer {
            Err(gov(GovernanceError::TokenOwnerMustSign))
        } else {
            Ok(())
        },
    }
}

/// Copies `N` bytes of `data` from `offset` into an array.
fn read_array<const N: usize>(data: &Vec<u8>, offset: usize) -> (out: [u8; N])
    requires
        offset + N <= data@.len(),
    ensures
        out@ == data@.subrange(offset as int, offset + N),
{
    let len = data.len();
    let mut out = [0u8; N];
    let mut i: usize = 0;
    while i < N
        invariant
            0 <= i <= N,
            len == data@.len(),
            offset + N <= data@.len(),
            out@.len() == N,
            forall|j: int| 0 <= j < i ==> out@[j] == data@[offset + j],
        decreases N - i,
    {
        out[i] = data[offset + i];
        i = i + 1;
    }
    assert(out@ =~= data@.subrange(offset as int, offset + N));
    out
}

/// Reads the unsigned 64-bit number stored little-endian at `offset`.
fn read_u64_le(data: &Vec<u8>, offset: usize) -> (v: u64)
    requires
        offset + 8 <= data@.len(),
    ensures
        v == spec_le_u64(data@.subrange(offset as int, offset + 8)),
{
    let len = data.len();
    assert(offset + 8 <= len);
    let b0 = data[offset] as u64;
    let b1 = data[offset + 1] as u64;
    let b2 = data[offset + 2] as u64;
    let b3 = data[offset + 3] as u64;
    let b4 = data[offset + 4] as u64;
    let b5 = data[offset + 5] as u64;
    let b6 = data[offset + 6] as u64;
    let b7 = data[offset + 7] as u64;
    b0 + b1 * 0x100 + b2 * 0x1_0000 + b3 * 0x100_0000 + b4 * 0x1_0000_0000 + b5 * 0x100_0000_0000
        + b6 * 0x1_0000_0000_0000 + b7 * 0x100_0000_0000_0000
}

/// Checks that the account is an initialized SPL Token account owned by SPL
/// Token or Token-2022: that it holds data, that one of the two token
/// programs owns it, that its data has the size of a token account, and that
/// its state byte is not zero; each check has its own error, in that order.
pub fn assert_is_valid_spl_token_account(account_info: &AccountInfo) -> (r: Result<(), ToolError>)
    ensures
        r == spec_token_account_check(*account_info),
{
    if account_info.data.len() == 0 {
        return Err(ToolError::Governance(GovernanceError::SplTokenAccountDoesNotExist));
    }
    let spl = spl_token_id();
    let spl_2022 = spl_token_2022_id();
    if !keys_equal(&account_info.owner, &spl) && !keys_equal(&account_info.owner, &spl_2022) {
        return Err(ToolError::Governance(GovernanceError::SplTokenAccountWithInvalidOwner));
    }
    if account_info.data.len() != token_account_len() {
        return Err(ToolError::Governance(GovernanceError::SplTokenInvalidTokenAccountData));
    }
    if account_info.data[TOKEN_ACCOUNT_STATE_OFFSET] == 0 {
        return Err(ToolError::Governance(GovernanceError::SplTokenAccountNotInitialized));
    }
    Ok(())
}

/// Whether the account is a valid SPL Token account.
pub fn is_spl_token_account(account_info: &AccountInfo) -> (r: bool)
    ensures
        r == (spec_token_account_check(*account_info) is Ok),
{
    assert_is_valid_spl_token_account(account_info).is_ok()
}

/// Checks that the account is an initialized SPL Token mint owned by SPL
/// Token or Token-2022: that it holds data, that one of the two token
/// programs owns it, that its data has the size of a mint, and that its
/// is-initialized byte is not zero; each check has its own error, in that order.
pub fn assert_is_valid_spl_token_mint(mint_info: &AccountInfo) -> (r: Result<(), ToolError>)
    ensures
        r == spec_mint_check(*mint_info),
{
    if mint_info.data.len() == 0 {
        return Err(ToolError::Governance(GovernanceError::SplTokenMintDoesNotExist));
    }
    let spl = spl_token_id();
    let spl_2022 = spl_token_2022_id();
    if !keys_equal(&mint_info.owner, &spl) && !keys_equal(&mint_info.owner, &spl_2022) {
        return Err(ToolError::Governance(GovernanceError::SplTokenMintWithInvalidOwner));
    }
    if mint_info.data.len() != mint_len() {
        return Err(ToolError::Governance(GovernanceError::SplTokenInvalidMintAccountData));
    }
    if mint_info.data[MINT_IS_INITIALIZED_OFFSET] == 0 {
        return Err(ToolError::Governance(GovernanceError::SplTokenMintNotInitialized));
    }
    Ok(())
}

/// Whether the account is a valid SPL Token mint.
pub fn is_spl_token_mint(mint_info: &AccountInfo) -> (r: bool)
    ensures
        r == (spec_mint_check(*mint_info) is Ok),
{
    assert_is_valid_spl_token_mint(mint_info).is_ok()
}

/// Reads the mint of a token account without unpacking the whole account.
pub fn get_spl_token_mint(token_account_info: &AccountInfo) -> (r: Result<Pubkey, ToolError>)
    ensures
        match r {
            Ok(k) => spec_token_mint(*token_account_info) == Ok::<Seq<u8>, ToolError>(k@),
            Err(e) => spec_token_mint(*token_account_info) == Err::<Seq<u8>, ToolError>(e),
        },
{
    match assert_is_valid_spl_token_account(token_account_info) {
        Err(e) => Err(e),
        Ok(()) => Ok(read_array::<32>(&token_account_info.data, TOKEN_ACCOUNT_MINT_OFFSET)),
    }
}

/// Reads the owner of a token account without unpacking the whole account.
pub fn get_spl_token_owner(token_account_info: &AccountInfo) -> (r: Result<Pubkey, ToolError>)
    ensures
        match r {
            Ok(k) => spec_token_owner(*token_account_info) == Ok::<Seq<u8>, ToolError>(k@),
            Err(e) => spec_token_owner(*token_account_info) == Err::<Seq<u8>, ToolError>(e),
        },
{
    match assert_is_valid_spl_token_account(token_account_info) {
        Err(e) => Err(e),
        Ok(()) => Ok(read_array::<32>(&token_account_info.data, TOKEN_ACCOUNT_OWNER_OFFSET)),
    }
}

/// Reads the supply of a mint without unpacking the whole mint.
pub fn get_spl_token_mint_supply(mint_info: &AccountInfo) -> (r: Result<u64, ToolError>)
    ensures
        match r {
            Ok(v) => spec_mint_supply(*mint_info) == Ok::<int, ToolError>(v as int),
            Err(e) => spec_mint_supply(*mint_info) == Err::<int, ToolError>(e),
        },
{
    match assert_is_valid_spl_token_mint(mint_info) {
        Err(e) => Err(e),
        Ok(()) => Ok(read_u64_le(&mint_info.data, MINT_SUPPLY_OFFSET)),
    }
}

/// Decodes a `COption<Pubkey>` packed in 36 bytes: tag `[0, 0, 0, 0]` is
/// none, tag `[1, 0, 0, 0]` is the key in the last 32 bytes, and any other
/// tag is invalid account data.
pub fn unpack_coption_pubkey(src: &[u8; 36]) -> (r: Result<Option<Pubkey>, ToolError>)
    ensures
        match r {
            Ok(Some(k)) => spec_unpack_coption_pubkey(src@) == Ok::<Option<Seq<u8>>, ToolError>(Some(k@)),
            Ok(None) => spec_unpack_coption_pubkey(src@) == Ok::<Option<Seq<u8>>, ToolError>(None),
            Err(e) => spec_unpack_coption_pubkey(src@) == Err::<Option<Seq<u8>>, ToolError>(e),
        },
{
    if src[1] != 0 || src[2] != 0 || src[3] != 0 {
        return Err(ToolError::InvalidAccountData);
    }
    if src[0] == 0 {
        Ok(None)
    } else if src[0] == 1 {
        let mut key = [0u8; 32];
        let mut i: usize = 0;
        while i < 32
            invariant
                0 <= i <= 32,
                src@.len() == 36,
                key@.len() == 32,
                forall|j: int| 0 <= j < i ==> key@[j] == src@[4 + j],
            decreases 32 - i,
        {
            key[i] = src[4 + i];
            i = i + 1;
        }
        assert(key@ =~= src@.subrange(4, 36));
        Ok(Some(key))
    } else {
        Err(ToolError::InvalidAccountData)
    }
}

/// Reads the optional mint authority of a mint without unpacking the whole mint.
pub fn get_spl_token_mint_authority(mint_info: &AccountInfo) -> (r: Result<Option<Pubkey>, ToolError>)
    ensures
        match r {
            Ok(Some(k)) => spec_mint_authority(*mint_info) == Ok::<Option<Seq<u8>>, ToolError>(Some(k@)),
            Ok(None) => spec_mint_authority(*mint_info) == Ok::<Option<Seq<u8>>, ToolError>(None),
            Err(e) => spec_mint_authority(*mint_info) == Err::<Option<Seq<u8>>, ToolError>(e),
        },
{
    match assert_is_valid_spl_token_mint(mint_info) {
        Err(e) => Err(e),
        Ok(()) => {
            let bytes = read_array::<36>(&mint_info.data, MINT_AUTHORITY_OFFSET);
            unpack_coption_pubkey(&bytes)
        },
    }
}

/// Checks that `mint_authority_info` is the current mint authority of the
/// mint and that it signed the transaction.
pub fn assert_spl_token_mint_authority_is_signer(
    mint_info: &AccountInfo,
    mint_authority_info: &AccountInfo,
) -> (r: Result<(), ToolError>)
    ensures
        r == spec_mint_authority_is_signer(*mint_info, *mint_authority_info),
{
    match get_spl_token_mint_authority(mint_info) {
        Err(e) => Err(e),
        Ok(None) => Err(ToolError::Governance(GovernanceError::MintHasNoAuthority)),
        Ok(Some(authority)) => {
            if !keys_equal(&authority, &mint_authority_info.key) {
                return Err(ToolError::Governance(GovernanceError::InvalidMintAuthority));
            }
            if !mint_authority_info.is_signer {
                return Err(ToolError::Governance(GovernanceError::MintAuthorityMustSign));
            }
            Ok(())
        },
    }
}

/// Checks that `token_owner_info` owns the token account and that it signed
/// the transaction.
pub fn assert_spl_token_owner_is_signer(token_info: &AccountInfo, token_owner_info: &AccountInfo) -> (r:
    Result<(), ToolError>)
    ensures
        r == spec_token_owner_is_signer(*token_info, *token_owner_info),
{
    match get_spl_token_owner(token_info) {
        Err(e) => Err(e),
        Ok(owner) => {
            if !keys_equal(&owner, &token_owner_info.key) {
                return Err(ToolError::Governance(GovernanceError::InvalidTokenOwner));
            }
            if !token_owner_info.is_signer {
                return Err(ToolError::Governance(GovernanceError::TokenOwnerMustSign));
            }
            Ok(())
        },
    }
}

/// No account is both a valid token account and a valid mint: the two have
/// different sizes.
pub proof fn lemma_token_account_is_not_mint(a: AccountInfo)
    ensures
        !(spec_token_account_check(a) is Ok && spec_mint_check(a) is Ok),
{
}

/// The owner check passes exactly when the account is a valid token account,
/// its owner field is the given account's key, and that account signed.
pub proof fn lemma_owner_is_signer_iff(token: AccountInfo, owner: AccountInfo)
    ensures
        spec_token_owner_is_signer(token, owner) is Ok <==> {
            &&& spec_token_account_check(token) is Ok
            &&& spec_token_owner(token) == Ok::<Seq<u8>, ToolError>(owner.key@)
            &&& owner.is_signer
        },
{
}

/// The mint authority check passes exactly when the account is a valid mint,
/// it has a mint authority, that authority is the given account's key, and
/// that account signed.
pub proof fn lemma_mint_authority_is_signer_iff(mint: AccountInfo, authority: AccountInfo)
    ensures
        spec_mint_authority_is_signer(mint, authority) is Ok <==> {
            &&& spec_mint_check(mint) is Ok
            &&& spec_mint_authority(mint) == Ok::<Option<Seq<u8>>, ToolError>(Some(authority.key@))
            &&& authority.is_signer
        },
{
}

/// A valid mint whose supply field holds the little-endian bytes of `supply`
/// reads back that supply.
pub proof fn lemma_supply_reads_back(mint: AccountInfo, supply: u64)
    requires
        spec_mint_check(mint) is Ok,
        mint.data@.subrange(MINT_SUPPLY_OFFSET as int, MINT_SUPPLY_OFFSET + 8)
            == crate::instruction::spec_u64_le_bytes(supply),
    ensures
        spec_mint_supply(mint) == Ok::<int, ToolError>(supply as int),
{
    crate::instruction::lemma_u64_le_roundtrip(supply);
}

/// The 36-byte optional key decodes to none exactly for the tag `[0, 0, 0, 0]`,
/// to the last 32 bytes exactly for the tag `[1, 0, 0, 0]`, and every other tag
/// is invalid account data.
pub proof fn lemma_coption_tags(s: Seq<u8>)
    requires
        s.len() == 36,
    ensures
        spec_unpack_coption_pubkey(s) == Ok::<Option<Seq<u8>>, ToolError>(None) <==> s.subrange(0, 4)
            == seq![0u8, 0, 0, 0],
        spec_unpack_coption_pubkey(s) == Ok::<Option<Seq<u8>>, ToolError>(Some(s.subrange(4, 36)))
            <==> s.subrange(0, 4) == seq![1u8, 0, 0, 0],
        spec_unpack_coption_pubkey(s) is Err <==> (s.subrange(0, 4) != seq![0u8, 0, 0, 0]
            && s.subrange(0, 4) != seq![1u8, 0, 0, 0]),
{
    let t = s.subrange(0, 4);
    if t == seq![0u8, 0, 0, 0] {
        assert(t[0] == 0 && t[1] == 0 && t[2] == 0 && t[3] == 0);
    }
    if t == seq![1u8, 0, 0, 0] {
        assert(t[0] == 1 && t[1] == 0 && t[2] == 0 && t[3] == 0);
    }
    if s[0] == 0 && s[1] == 0 && s[2] == 0 && s[3] == 0 {
        assert(t =~= seq![0u8, 0, 0, 0]);
    }
    if s[0] == 1 && s[1] == 0 && s[2] == 0 && s[3] == 0 {
        assert(t =~= seq![1u8, 0, 0, 0]);
    }
}

/// A token account is valid exactly when it has the size of an SPL Token
/// account, is owned by SPL Token or Token-2022, and its state byte is not
/// zero; and each refusal names the first of these that fails.
pub proof fn law_token_account_validity(a: AccountInfo)
    ensures
        spec_token_account_check(a) is Ok <==> (a.data@.len() == 165 && (a.owner@ == spec_spl_token_id()
            || a.owner@ == spec_spl_token_2022_id()) && a.data@[108] != 0),
        spec_token_account_check(a) == Err::<(), ToolError>(
            ToolError::Governance(GovernanceError::SplTokenAccountDoesNotExist),
        ) <==> a.data@.len() == 0,
        spec_token_account_check(a) == Err::<(), ToolError>(
            ToolError::Governance(GovernanceError::SplTokenAccountWithInvalidOwner),
        ) <==> (a.data@.len() != 0 && a.owner@ != spec_spl_token_id() && a.owner@
            != spec_spl_token_2022_id()),
        spec_token_account_check(a) == Err::<(), ToolError>(
            ToolError::Governance(GovernanceError::SplTokenInvalidTokenAccountData),
        ) <==> (a.data@.len() != 0 && a.data@.len() != 165 && (a.owner@ == spec_spl_token_id()
            || a.owner@ == spec_spl_token_2022_id())),
        spec_token_account_check(a) == Err::<(), ToolError>(
            ToolError::Governance(GovernanceError::SplTokenAccountNotInitialized),
        ) <==> (a.data@.len() == 165 && (a.owner@ == spec_spl_token_id() || a.owner@
            == spec_spl_token_2022_id()) && a.data@[108] == 0),
{
}

/// A mint is valid exactly when it has the size of an SPL Token mint, is
/// owned by SPL Token or Token-2022, and its is-initialized byte is not zero.
pub proof fn law_mint_validity(a: AccountInfo)
    ensures
        spec_mint_check(a) is Ok <==> (a.data@.len() == 82 && (a.owner@ == spec_spl_token_id()
            || a.owner@ == spec_spl_token_2022_id()) && a.data@[45] != 0),
        spec_mint_check(a) == Err::<(), ToolError>(
            ToolError::Governance(GovernanceError::SplTokenMintDoesNotExist),
        ) <==> a.data@.len() == 0,
        spec_mint_check(a) == Err::<(), ToolError>(
            ToolError::Governance(GovernanceError::SplTokenMintWithInvalidOwner),
        ) <==> (a.data@.len() != 0 && a.owner@ != spec_spl_token_id() && a.owner@
            != spec_spl_token_2022_id()),
        spec_mint_check(a) == Err::<(), ToolError>(
            ToolError::Governance(GovernanceError::SplTokenInvalidMintAccountData),
        ) <==> (a.data@.len() != 0 && a.data@.len() != 82 && (a.owner@ == spec_spl_token_id()
            || a.owner@ == spec_spl_token_2022_id())),
        spec_mint_check(a) == Err::<(), ToolError>(
            ToolError::Governance(GovernanceError::SplTokenMintNotInitialized),
        ) <==> (a.data@.len() == 82 && (a.owner@ == spec_spl_token_id() || a.owner@
            == spec_spl_token_2022_id()) && a.data@[45] == 0),
{
}

/// Of a valid token account, the mint read is its data bytes 0..32 and the
/// owner read is its data bytes 32..64, byte for byte; of any other account,
/// both readers refuse with the validity check's error.
pub proof fn law_token_account_fields(a: AccountInfo)
    ensures
        spec_token_account_check(a) is Ok ==> {
            &&& spec_token_mint(a) matches Ok(m)
            &&& m.len() == 32
            &&& forall|i: int| 0 <= i < 32 ==> m[i] == a.data@[i]
        },
        spec_token_account_check(a) is Ok ==> {
            &&& spec_token_owner(a) matches Ok(o)
            &&& o.len() == 32
            &&& forall|i: int| 0 <= i < 32 ==> o[i] == a.data@[32 + i]
        },
        spec_token_account_check(a) matches Err(e) ==> spec_token_owner(a) == Err::<Seq<u8>, ToolError>(e)
            && spec_token_mint(a) == Err::<Seq<u8>, ToolError>(e),
{
}

/// Of a valid mint, the supply read is the number whose little-endian
/// encoding is the mint's data bytes 36..44.
pub proof fn law_mint_supply_field(a: AccountInfo)
    ensures
        spec_mint_check(a) is Ok ==> {
            &&& spec_mint_supply(a) matches Ok(v)
            &&& 0 <= v <= u64::MAX
            &&& crate::instruction::spec_u64_le_bytes(v as u64) == a.data@.subrange(36, 44)
        },
{
    if spec_mint_check(a) is Ok {
        let d = a.data@.subrange(36, 44);
        let v = spec_le_u64(d);
        let b0 = d[0];
        let b1 = d[1];
        let b2 = d[2];
        let b3 = d[3];
        let b4 = d[4];
        let b5 = d[5];
        let b6 = d[6];
        let b7 = d[7];
        assert(0 <= v <= u64::MAX);
        let w = v as u64;
        assert(w == b0 as u64 + b1 as u64 * 0x100 + b2 as u64 * 0x1_0000 + b3 as u64 * 0x100_0000
            + b4 as u64 * 0x1_0000_0000 + b5 as u64 * 0x100_0000_0000 + b6 as u64 * 0x1_0000_0000_0000
            + b7 as u64 * 0x100_0000_0000_0000);
        assert(b0 == (w % 0x100) as u8 && b1 == (w / 0x100 % 0x100) as u8 && b2 == (w / 0x1_0000
            % 0x100) as u8 && b3 == (w / 0x100_0000 % 0x100) as u8 && b4 == (w / 0x1_0000_0000
            % 0x100) as u8 && b5 == (w / 0x100_0000_0000 % 0x100) as u8 && b6 == (w
            / 0x1_0000_0000_0000 % 0x100) as u8 && b7 == (w / 0x100_0000_0000_0000 % 0x100) as u8)
            by (bit_vector)
            requires
                w == b0 as u64 + b1 as u64 * 0x100 + b2 as u64 * 0x1_0000 + b3 as u64 * 0x100_0000
                    + b4 as u64 * 0x1_0000_0000 + b5 as u64 * 0x100_0000_0000 + b6 as u64
                    * 0x1_0000_0000_0000 + b7 as u64 * 0x100_0000_0000_0000,
        ;
        assert(crate::instruction::spec_u64_le_bytes(w) =~= d);
    }
}

/// Of a valid mint, the authority read is none exactly when the tag bytes
/// 0..4 are all zero, and is the key in data bytes 4..36 exactly when the tag
/// is `[1, 0, 0, 0]`; any other tag is invalid account data.
pub proof fn law_mint_authority_field(a: AccountInfo)
    ensures
        spec_mint_check(a) is Ok ==> {
            &&& (spec_mint_authority(a) == Ok::<Option<Seq<u8>>, ToolError>(None) <==> (a.data@[0] == 0
                && a.data@[1] == 0 && a.data@[2] == 0 && a.data@[3] == 0))
            &&& (spec_mint_authority(a) is Ok && spec_mint_authority(a)->Ok_0 is Some) <==> (a.data@[0]
                == 1 && a.data@[1] == 0 && a.data@[2] == 0 && a.data@[3] == 0)
            &&& spec_mint_authority(a) matches Ok(Some(k)) ==> k.len() == 32 && forall|i: int|
                0 <= i < 32 ==> k[i] == a.data@[4 + i]
            &&& spec_mint_authority(a) is Err ==> spec_mint_authority(a) == Err::<
                Option<Seq<u8>>,
                ToolError,
            >(ToolError::InvalidAccountData)
        },
{
}

/// The owner check passes exactly when the token account is valid, its owner
/// bytes 32..64 are the given account's key, and that account signed.
pub proof fn law_owner_is_signer(token: AccountInfo, owner: AccountInfo)
    ensures
        spec_token_owner_is_signer(token, owner) is Ok <==> {
            &&& spec_token_account_check(token) is Ok
            &&& forall|i: int| 0 <= i < 32 ==> token.data@[32 + i] == owner.key@[i]
            &&& owner.is_signer
        },
        spec_token_account_check(token) is Ok && token.data@.subrange(32, 64) != owner.key@
            ==> spec_token_owner_is_signer(token, owner) == Err::<(), ToolError>(
            ToolError::Governance(GovernanceError::InvalidTokenOwner),
        ),
{
    if spec_token_account_check(token) is Ok {
        if forall|i: int| 0 <= i < 32 ==> token.data@[32 + i] == owner.key@[i] {
            assert(token.data@.subrange(32, 64) =~= owner.key@);
        }
    }
}

/// The mint authority check passes exactly when the mint is valid, its tag
/// bytes are `[1, 0, 0, 0]`, its authority bytes 4..36 are the given
/// account's key, and that account signed.
pub proof fn law_mint_authority_is_signer(mint: AccountInfo, authority: AccountInfo)
    ensures
        spec_mint_authority_is_signer(mint, authority) is Ok <==> {
            &&& spec_mint_check(mint) is Ok
            &&& mint.data@[0] == 1 && mint.data@[1] == 0 && mint.data@[2] == 0 && mint.data@[3] == 0
            &&& forall|i: int| 0 <= i < 32 ==> mint.data@[4 + i] == authority.key@[i]
            &&& authority.is_signer
        },
{
    if spec_mint_check(mint) is Ok {
        if forall|i: int| 0 <= i < 32 ==> mint.data@[4 + i] == authority.key@[i] {
            assert(mint.data@.subrange(0, 36).subrange(4, 36) =~= authority.key@);
        }
    }
}

} // verus!
