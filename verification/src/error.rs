//! The errors that the token helpers report.

use vstd::prelude::*;

verus! {

/// The error type of the Solana program runtime, carried through unchanged
/// where an SPL Token instruction builder reports one.
#[verifier::external_type_specification]
#[verifier::external_body]
pub struct ExProgramError(solana_program::program_error::ProgramError);

/// The governance program's own errors that these helpers report.
#[derive(Clone, Copy, Debug, PartialEq, Eq)]
pub enum GovernanceError {
    /// The mint (or the token program account) is not owned by SPL Token or Token-2022.
    SplTokenMintWithInvalidOwner,
    /// A token account holds no data.
    SplTokenAccountDoesNotExist,
    /// A token account is not owned by SPL Token or Token-2022.
    SplTokenAccountWithInvalidOwner,
    /// A token account's data does not have the size of an SPL Token account.
    SplTokenInvalidTokenAccountData,
    /// A token account's state byte says it is uninitialized.
    SplTokenAccountNotInitialized,
    /// A mint account holds no data.
    SplTokenMintDoesNotExist,
    /// A mint account's data does not have the size of an SPL Token mint.
    SplTokenInvalidMintAccountData,
    /// A mint's is-initialized byte is zero.
    SplTokenMintNotInitialized,
    /// The mint has no mint authority.
    MintHasNoAuthority,
    /// The mint authority is not the given account.
    InvalidMintAuthority,
    /// The mint authority did not sign.
    MintAuthorityMustSign,
    /// The token account's owner is not the given account.
    InvalidTokenOwner,
    /// The token account's owner did not sign.
    TokenOwnerMustSign,
}

/// Every error that the token helpers can report.
#[derive(Debug, PartialEq, Eq)]
pub enum ToolError {
    /// One of the governance program's own errors.
    Governance(GovernanceError),
    /// A program-derived address does not match the account it should be.
    InvalidSeeds,
    /// Account data could not be decoded.
    InvalidAccountData,
    /// An SPL Token instruction was asked for a program other than SPL Token.
    IncorrectProgramId,
    /// Any other error that an SPL Token instruction builder reported.
    Program(solana_program::program_error::ProgramError),
}

} // verus!
