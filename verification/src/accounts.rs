//! Account addresses, token accounts and token transfers.

use crate::error;
use crate::error::TariffError;
use vstd::prelude::*;

verus! {

/// An account address.
#[derive(Clone, Copy, Debug, Eq, Hash)]
pub struct Pubkey {
    pub bytes: [u8; 32],
}

impl PartialEq for Pubkey {
    fn eq(&self, other: &Self) -> (res: bool) {
        let mut i: usize = 0;
        while i < 32
            invariant
                i <= 32,
                forall|j: int| 0 <= j < i ==> self.bytes[j] == other.bytes[j],
            decreases 32 - i,
        {
            if self.bytes[i] != other.bytes[i] {
                return false;
            }
            i = i + 1;
        }
        assert(self.bytes =~= other.bytes);
        true
    }
}

impl vstd::std_specs::cmp::PartialEqSpecImpl for Pubkey {
    open spec fn obeys_eq_spec() -> bool {
        true
    }

    open spec fn eq_spec(&self, other: &Self) -> bool {
        *self == *other
    }
}

/// Refuses with `error` unless the two addresses are the same.
pub fn require_keys_eq(left: &Pubkey, right: &Pubkey, error: TariffError) -> (res: Result<
    (),
    TariffError,
>)
    ensures
        error::outcome(
            res,
            if *left == *right {
                None
            } else {
                Some(error)
            },
            (),
        ),
{
    if *left == *right {
        Ok(())
    } else {
        Err(error)
    }
}

/// What the rules read of a token account.
#[derive(Clone, Copy, Debug, PartialEq, Eq)]
pub struct TokenAccount {
    /// The mint of the tokens it holds.
    pub mint: Pubkey,
    /// The authority that can move them.
    pub owner: Pubkey,
    /// How many it holds, in the mint's smallest unit.
    pub amount: u64,
}

/// When a vault is not of the market's mint or not owned by the vault's authority.
pub open spec fn vault_refusal(vault: TokenAccount, mint: Pubkey, authority: Pubkey) -> Option<
    TariffError,
> {
    if vault.mint != mint {
        Some(TariffError::InvalidMint)
    } else if vault.owner != authority {
        Some(TariffError::InvalidTokenOwner)
    } else {
        None
    }
}

/// When the vault or the insurance vault is not of the market's mint or not owned by its
/// authority. Both mints are looked at before either owner.
pub open spec fn vaults_refusal(
    vault: TokenAccount,
    vault_authority: Pubkey,
    insurance_vault: TokenAccount,
    insurance_authority: Pubkey,
    mint: Pubkey,
) -> Option<TariffError> {
    if vault.mint != mint || insurance_vault.mint != mint {
        Some(TariffError::InvalidMint)
    } else if vault.owner != vault_authority || insurance_vault.owner != insurance_authority {
        Some(TariffError::InvalidTokenOwner)
    } else {
        None
    }
}

/// Checks the mint and the owner of a vault.
pub fn require_vault(vault: &TokenAccount, mint: &Pubkey, authority: &Pubkey) -> (res: Result<
    (),
    TariffError,
>)
    ensures
        error::outcome(res, vault_refusal(*vault, *mint, *authority), ()),
{
    require_keys_eq(&vault.mint, mint, TariffError::InvalidMint)?;
    require_keys_eq(&vault.owner, authority, TariffError::InvalidTokenOwner)
}

/// Checks the mints and the owners of the vault and the insurance vault.
pub fn require_vaults(
    vault: &TokenAccount,
    vault_authority: &Pubkey,
    insurance_vault: &TokenAccount,
    insurance_authority: &Pubkey,
    mint: &Pubkey,
) -> (res: Result<(), TariffError>)
    ensures
        error::outcome(
            res,
            vaults_refusal(
                *vault,
                *vault_authority,
                *insurance_vault,
                *insurance_authority,
                *mint,
            ),
            (),
        ),
{
    require_keys_eq(&vault.mint, mint, TariffError::InvalidMint)?;
    require_keys_eq(&insurance_vault.mint, mint, TariffError::InvalidMint)?;
    require_keys_eq(&vault.owner, vault_authority, TariffError::InvalidTokenOwner)?;
    require_keys_eq(&insurance_vault.owner, insurance_authority, TariffError::InvalidTokenOwner)
}

/// The token accounts that an instruction moves tokens between.
#[derive(Clone, Copy, Debug, PartialEq, Eq, Structural)]
pub enum TokenSlot {
    /// The trader's own token account.
    User,
    /// The market's collateral vault.
    Vault,
    /// The market's insurance vault.
    InsuranceVault,
    /// The liquidator's token account.
    Liquidator,
}

/// Who signs for a transfer.
#[derive(Clone, Copy, Debug, PartialEq, Eq, Structural)]
pub enum TransferAuthority {
    /// The trader who signed the instruction.
    Owner,
    /// The program, for the market's vault authority.
    Vault,
    /// The program, for the market's insurance authority.
    Insurance,
}

impl TransferAuthority {
    /// The first seed of the derived address that the program signs for. The market's address
    /// and the authority's bump follow it. A trader signs without seeds.
    pub fn seed_prefix(&self) -> (res: Option<&'static str>)
        ensures
            match *self {
                TransferAuthority::Owner => res is None,
                TransferAuthority::Vault => res is Some && res->Some_0@ == "vault_auth"@,
                TransferAuthority::Insurance => res is Some && res->Some_0@ == "insurance"@,
            },
    {
        match self {
            TransferAuthority::Owner => None,
            TransferAuthority::Vault => Some("vault_auth"),
            TransferAuthority::Insurance => Some("insurance"),
        }
    }
}

/// Tokens to move once an instruction has passed all its checks.
#[derive(Clone, Copy, Debug, PartialEq, Eq, Structural)]
pub struct TokenTransfer {
    pub from: TokenSlot,
    pub to: TokenSlot,
    pub authority: TransferAuthority,
    pub amount: u64,
}

/// The transfer of `amount`, or none where there is nothing to move.
pub open spec fn transfer_of(
    from: TokenSlot,
    to: TokenSlot,
    authority: TransferAuthority,
    amount: u64,
) -> Option<TokenTransfer> {
    if amount > 0 {
        Some(TokenTransfer { from, to, authority, amount })
    } else {
        None
    }
}

/// The transfer of `amount`, or none where there is nothing to move.
pub fn nonzero_transfer(
    from: TokenSlot,
    to: TokenSlot,
    authority: TransferAuthority,
    amount: u64,
) -> (res: Option<TokenTransfer>)
    ensures
        res == transfer_of(from, to, authority, amount),
{
    if amount > 0 {
        Some(TokenTransfer { from, to, authority, amount })
    } else {
        None
    }
}

} // verus!
