//! Public keys and the token programs that own SPL Token accounts.

use vstd::prelude::*;

use crate::error::{GovernanceError, ToolError};

verus! {

/// A 32-byte public key.
pub type Pubkey = [u8; 32];

/// The bytes of the SPL Token program id
/// (`TokenkegQfeZyiNwAJbNbGKPFXCWuBvf9Ss623VQ5DA`).
pub open spec fn spec_spl_token_id() -> Seq<u8> {
    seq![
        6u8, 221, 246, 225, 215, 101, 161, 147, 217, 203, 225, 70, 206, 235, 121, 172,
        28, 180, 133, 237, 95, 91, 55, 145, 58, 140, 245, 133, 126, 255, 0, 169,
    ]
}

/// The bytes of the SPL Token-2022 program id
/// (`TokenzQdBNbLqP5VEhdkAS6EPFLC1PHnBqCXEpPxuEb`).
pub open spec fn spec_spl_token_2022_id() -> Seq<u8> {
    seq![
        6u8, 221, 246, 225, 238, 117, 143, 222, 24, 66, 93, 188, 228, 108, 205, 218,
        182, 26, 252, 77, 131, 185, 13, 39, 254, 189, 249, 40, 216, 161, 139, 252,
    ]
}

/// `spl_token::id()`: the contract states the 32 bytes that the crate's
/// `declare_id!` string decodes to.
#[verifier::external_body]
pub(crate) fn spl_token_id() -> (id: Pubkey)
    ensures
        id@ == spec_spl_token_id(),
{
    spl_token::id().to_bytes()
}

/// `spl_token_2022::id()`: the contract states the 32 bytes that the crate's
/// `declare_id!` string decodes to.
#[verifier::external_body]
pub(crate) fn spl_token_2022_id() -> (id: Pubkey)
    ensures
        id@ == spec_spl_token_2022_id(),
{
    spl_token_2022::id().to_bytes()
}

/// Compares two keys byte by byte.
pub fn keys_equal(a: &Pubkey, b: &Pubkey) -> (eq: bool)
    ensures
        eq == (a@ == b@),
{
    let mut i: usize = 0;
    while i < 32
        invariant
            0 <= i <= 32,
            a@.len() == 32,
            b@.len() == 32,
            forall|j: int| 0 <= j < i ==> a@[j] == b@[j],
        decreases 32 - i,
    {
        if a[i] != b[i] {
            assert(a@[i as int] != b@[i as int]);
            return false;
        }
        i = i + 1;
    }
    assert(a@ =~= b@);
    true
}

/// The two programs that may own SPL Token accounts and mints.
#[derive(Clone, Copy, Debug, PartialEq, Eq, Structural)]
pub enum TokenProgram {
    /// The first SPL Token program.
    SplToken,
    /// The SPL Token-2022 program.
    SplToken2022,
}

impl TokenProgram {
    /// The program id of this token program.
    pub open spec fn spec_id(self) -> Seq<u8> {
        match self {
            TokenProgram::SplToken => spec_spl_token_id(),
            TokenProgram::SplToken2022 => spec_spl_token_2022_id(),
        }
    }

    /// Returns the program id of this token program.
    pub fn id(&self) -> (id: Pubkey)
        ensures
            id@ == self.spec_id(),
    {
        match self {
            TokenProgram::SplToken => spl_token_id(),
            TokenProgram::SplToken2022 => spl_token_2022_id(),
        }
    }
}

/// Whether `key` is the id of SPL Token or of Token-2022.
pub open spec fn is_token_program_id(key: Seq<u8>) -> bool {
    key == spec_spl_token_id() || key == spec_spl_token_2022_id()
}

/// The token program whose id is `key`; any other key is refused as an
/// invalid owner of a mint.
pub open spec fn spec_token_program_for(key: Seq<u8>) -> Result<TokenProgram, ToolError> {
    if key == spec_spl_token_id() {
        Ok(TokenProgram::SplToken)
    } else if key == spec_spl_token_2022_id() {
        Ok(TokenProgram::SplToken2022)
    } else {
        Err(ToolError::Governance(GovernanceError::SplTokenMintWithInvalidOwner))
    }
}

/// Selects the token program whose id is `key` (the owner of a mint, or the
/// key of the token program account handed to an instruction).
pub fn token_program_for(key: &Pubkey) -> (program: Result<TokenProgram, ToolError>)
    ensures
        program == spec_token_program_for(key@),
        program matches Ok(p) ==> p.spec_id() == key@,
{
    let spl = spl_token_id();
    let spl_2022 = spl_token_2022_id();
    if !keys_equal(key, &spl) && !keys_equal(key, &spl_2022) {
        return Err(ToolError::Governance(GovernanceError::SplTokenMintWithInvalidOwner));
    }
    if keys_equal(key, &spl_2022) {
        Ok(TokenProgram::SplToken2022)
    } else {
        Ok(TokenProgram::SplToken)
    }
}

/// A key selects a token program exactly when it is the id of SPL Token or of
/// Token-2022, and the program it selects has that key as its id.
pub proof fn lemma_token_program_for_key(key: Seq<u8>)
    ensures
        spec_token_program_for(key) is Ok <==> is_token_program_id(key),
        spec_token_program_for(key) matches Ok(p) ==> p.spec_id() == key,
{
}

/// The two token programs have different ids.
pub proof fn lemma_token_program_ids_differ()
    ensures
        spec_spl_token_id() != spec_spl_token_2022_id(),
{
    assert(spec_spl_token_id()[4] != spec_spl_token_2022_id()[4]);
}

} // verus!
