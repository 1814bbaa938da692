use vstd::prelude::*;

use anchor_spl::token_2022::spl_token_2022::extension::default_account_state::DefaultAccountState;
use anchor_spl::token_2022::spl_token_2022::extension::transfer_hook::TransferHook;
use anchor_spl::token_2022::spl_token_2022::extension::{BaseStateWithExtensions, StateWithExtensions};
use anchor_spl::token_2022::spl_token_2022::state::Mint as Mint2022;

use crate::error::EscrowError;
use crate::pubkey::Pubkey;
use crate::state::risk_flags;

verus! {

// Token-2022 extension type codes (`ExtensionType as u16`) that vetting names.
pub const EXT_TRANSFER_FEE_CONFIG: u16 = 1;
pub const EXT_MINT_CLOSE_AUTHORITY: u16 = 3;
pub const EXT_CONFIDENTIAL_TRANSFER_MINT: u16 = 4;
pub const EXT_DEFAULT_ACCOUNT_STATE: u16 = 6;
pub const EXT_NON_TRANSFERABLE: u16 = 9;
pub const EXT_INTEREST_BEARING_CONFIG: u16 = 10;
pub const EXT_PERMANENT_DELEGATE: u16 = 12;
pub const EXT_TRANSFER_HOOK: u16 = 14;
pub const EXT_CONFIDENTIAL_TRANSFER_FEE_CONFIG: u16 = 16;
pub const EXT_METADATA_POINTER: u16 = 18;
pub const EXT_TOKEN_METADATA: u16 = 19;
pub const EXT_GROUP_POINTER: u16 = 20;
pub const EXT_TOKEN_GROUP: u16 = 21;
pub const EXT_GROUP_MEMBER_POINTER: u16 = 22;
pub const EXT_TOKEN_GROUP_MEMBER: u16 = 23;

/// `AccountState::Frozen as u8`.
pub const ACCOUNT_STATE_FROZEN: u8 = 2;

/// Why a mint was refused.
#[derive(Clone, Copy, Debug, PartialEq, Eq, Structural)]
pub enum MintError {
    /// The mint's data could not be read as a mint (the token library's error code).
    Unpack(u64),
    /// The mint carries an extension that makes escrow impossible or unsafe.
    Escrow(EscrowError),
}

/// What the token library reads as the mint's freeze authority (its error code
/// when the data is not an initialized mint).
pub uninterp spec fn spl_mint_freeze_authority(data: Seq<u8>) -> Result<Option<Pubkey>, u64>;

/// The extension types the token library finds on the mint, as `u16` codes,
/// in the order they are stored.
pub uninterp spec fn spl_mint_extension_types(data: Seq<u8>) -> Result<Seq<u16>, u64>;

/// The program id of the mint's transfer-hook extension as the token library
/// reads it (`None` when no program is set).
pub uninterp spec fn spl_mint_transfer_hook_program(data: Seq<u8>) -> Result<Option<Pubkey>, u64>;

/// The default account state byte of the mint's default-account-state extension.
pub uninterp spec fn spl_mint_default_account_state(data: Seq<u8>) -> Result<u8, u64>;

/// Calls `StateWithExtensions::<Mint>::unpack` and reads the base mint's
/// `freeze_authority`. Claimed: the result is a function of the bytes alone,
/// named `spl_mint_freeze_authority`.
#[verifier::external_body]
fn mint_freeze_authority(data: &[u8]) -> (r: Result<Option<Pubkey>, u64>)
    ensures
        r == spl_mint_freeze_authority(data@),
{
    let state = StateWithExtensions::<Mint2022>::unpack(data).map_err(u64::from)?;
    let authority: Option<_> = state.base.freeze_authority.into();
    Ok(authority.map(|k: anchor_lang::prelude::Pubkey| Pubkey { bytes: k.to_bytes() }))
}

/// Calls `BaseStateWithExtensions::get_extension_types` on the unpacked mint.
/// Claimed: the result is a function of the bytes alone, named
/// `spl_mint_extension_types`.
#[verifier::external_body]
fn mint_extension_types(data: &[u8]) -> (r: Result<Vec<u16>, u64>)
    ensures
        r is Ok ==> spl_mint_extension_types(data@) == Ok::<Seq<u16>, u64>(r->Ok_0@),
        r is Err ==> spl_mint_extension_types(data@) == Err::<Seq<u16>, u64>(r->Err_0),
{
    let state = StateWithExtensions::<Mint2022>::unpack(data).map_err(u64::from)?;
    let types = state.get_extension_types().map_err(u64::from)?;
    Ok(types.into_iter().map(u16::from).collect())
}

/// Calls `BaseStateWithExtensions::get_extension::<TransferHook>` on the
/// unpacked mint and reads `program_id`. Claimed: the result is a function of
/// the bytes alone, named `spl_mint_transfer_hook_program`.
#[verifier::external_body]
fn mint_transfer_hook_program(data: &[u8]) -> (r: Result<Option<Pubkey>, u64>)
    ensures
        r == spl_mint_transfer_hook_program(data@),
{
    let state = StateWithExtensions::<Mint2022>::unpack(data).map_err(u64::from)?;
    let hook = state.get_extension::<TransferHook>().map_err(u64::from)?;
    let program: Option<_> = hook.program_id.into();
    Ok(program.map(|k: anchor_lang::prelude::Pubkey| Pubkey { bytes: k.to_bytes() }))
}

/// Calls `BaseStateWithExtensions::get_extension::<DefaultAccountState>` on the
/// unpacked mint and reads `state`. Claimed: the result is a function of the
/// bytes alone, named `spl_mint_default_account_state`.
#[verifier::external_body]
fn mint_default_account_state(data: &[u8]) -> (r: Result<u8, u64>)
    ensures
        r == spl_mint_default_account_state(data@),
{
    let state = StateWithExtensions::<Mint2022>::unpack(data).map_err(u64::from)?;
    let dstate = state.get_extension::<DefaultAccountState>().map_err(u64::from)?;
    Ok(dstate.state)
}

/// The classic SPL Token program's address (`TokenkegQfeZyiNwAJbNbGKPFXCWuBvf9Ss623VQ5DA`).
pub open spec fn classic_token_program_spec() -> Pubkey {
    Pubkey {
        bytes: [
            6, 221, 246, 225, 215, 101, 161, 147, 217, 203, 225, 70, 206, 235, 121, 172, 28, 180, 133, 237, 95,
            91, 55, 145, 58, 140, 245, 133, 126, 255, 0, 169,
        ],
    }
}

pub fn classic_token_program() -> (k: Pubkey)
    ensures
        k == classic_token_program_spec(),
{
    Pubkey {
        bytes: [
            6, 221, 246, 225, 215, 101, 161, 147, 217, 203, 225, 70, 206, 235, 121, 172, 28, 180, 133, 237, 95,
            91, 55, 145, 58, 140, 245, 133, 126, 255, 0, 169,
        ],
    }
}

/// One extension's effect on the flags: flag it, accept it silently (cosmetic
/// metadata), or refuse the mint. Unknown extensions are refused.
pub open spec fn extension_step(
    ext: u16,
    flags: u16,
    transfer_hook_program: Result<Option<Pubkey>, u64>,
    default_account_state: Result<u8, u64>,
) -> Result<u16, MintError> {
    if ext == EXT_PERMANENT_DELEGATE {
        Ok(flags | risk_flags::PERMANENT_DELEGATE)
    } else if ext == EXT_TRANSFER_HOOK {
        match transfer_hook_program {
            Err(c) => Err(MintError::Unpack(c)),
            Ok(Some(_)) => Err(MintError::Escrow(EscrowError::ActiveTransferHook)),
            Ok(None) => Ok(flags | risk_flags::DORMANT_TRANSFER_HOOK),
        }
    } else if ext == EXT_TRANSFER_FEE_CONFIG {
        Ok(flags | risk_flags::TRANSFER_FEE)
    } else if ext == EXT_CONFIDENTIAL_TRANSFER_MINT {
        Ok(flags | risk_flags::CONFIDENTIAL_CAPABLE)
    } else if ext == EXT_CONFIDENTIAL_TRANSFER_FEE_CONFIG {
        Ok(flags | (risk_flags::TRANSFER_FEE | risk_flags::CONFIDENTIAL_CAPABLE))
    } else if ext == EXT_DEFAULT_ACCOUNT_STATE {
        match default_account_state {
            Err(c) => Err(MintError::Unpack(c)),
            Ok(s) => if s == ACCOUNT_STATE_FROZEN {
                Err(MintError::Escrow(EscrowError::DefaultFrozenMint))
            } else {
                Ok(flags)
            },
        }
    } else if ext == EXT_NON_TRANSFERABLE {
        Err(MintError::Escrow(EscrowError::NonTransferableMint))
    } else if ext == EXT_INTEREST_BEARING_CONFIG {
        Ok(flags | risk_flags::INTEREST_BEARING)
    } else if ext == EXT_MINT_CLOSE_AUTHORITY {
        Ok(flags | risk_flags::MINT_CLOSE_AUTHORITY)
    } else if ext == EXT_METADATA_POINTER || ext == EXT_TOKEN_METADATA || ext == EXT_GROUP_POINTER
        || ext == EXT_TOKEN_GROUP || ext == EXT_GROUP_MEMBER_POINTER || ext == EXT_TOKEN_GROUP_MEMBER {
        Ok(flags)
    } else {
        Err(MintError::Escrow(EscrowError::UnknownMintExtension))
    }
}

/// The extensions' effect, in order, starting from `flags`; the first refusal wins.
pub open spec fn extensions_flags(
    exts: Seq<u16>,
    flags: u16,
    transfer_hook_program: Result<Option<Pubkey>, u64>,
    default_account_state: Result<u8, u64>,
) -> Result<u16, MintError>
    decreases exts.len(),
{
    if exts.len() == 0 {
        Ok(flags)
    } else {
        match extensions_flags(exts.drop_last(), flags, transfer_hook_program, default_account_state) {
            Err(e) => Err(e),
            Ok(f) => extension_step(exts.last(), f, transfer_hook_program, default_account_state),
        }
    }
}

/// The risk flags of a mint with these extension types, starting from
/// `base_flags`. The transfer-hook and default-state readings are consulted
/// only when the mint carries those extensions.
pub fn extension_risk_flags(
    extension_types: &Vec<u16>,
    base_flags: u16,
    transfer_hook_program: Result<Option<Pubkey>, u64>,
    default_account_state: Result<u8, u64>,
) -> (r: Result<u16, MintError>)
    ensures
        r == extensions_flags(extension_types@, base_flags, transfer_hook_program, default_account_state),
{
    let mut flags = base_flags;
    let mut i: usize = 0;
    while i < extension_types.len()
        invariant
            i <= extension_types@.len(),
            extensions_flags(extension_types@.take(i as int), base_flags, transfer_hook_program, default_account_state)
                == Ok::<u16, MintError>(flags),
        decreases extension_types.len() - i,
    {
        assert(extension_types@.take(i + 1).drop_last() =~= extension_types@.take(i as int));
        let ext = extension_types[i];
        if ext == EXT_PERMANENT_DELEGATE {
            flags = flags | risk_flags::PERMANENT_DELEGATE;
        } else if ext == EXT_TRANSFER_HOOK {
            match transfer_hook_program {
                Err(c) => {
                    proof { lemma_extensions_err_extends(extension_types@, i as int + 1, base_flags, transfer_hook_program, default_account_state); }
                    return Err(MintError::Unpack(c));
                },
                Ok(Some(_)) => {
                    // A live hook program can block or reorder transfers.
                    proof { lemma_extensions_err_extends(extension_types@, i as int + 1, base_flags, transfer_hook_program, default_account_state); }
                    return Err(MintError::Escrow(EscrowError::ActiveTransferHook));
                },
                Ok(None) => {
                    flags = flags | risk_flags::DORMANT_TRANSFER_HOOK;
                },
            }
        } else if ext == EXT_TRANSFER_FEE_CONFIG {
            flags = flags | risk_flags::TRANSFER_FEE;
        } else if ext == EXT_CONFIDENTIAL_TRANSFER_MINT {
            flags = flags | risk_flags::CONFIDENTIAL_CAPABLE;
        } else if ext == EXT_CONFIDENTIAL_TRANSFER_FEE_CONFIG {
            flags = flags | (risk_flags::TRANSFER_FEE | risk_flags::CONFIDENTIAL_CAPABLE);
        } else if ext == EXT_DEFAULT_ACCOUNT_STATE {
            match default_account_state {
                Err(c) => {
                    proof { lemma_extensions_err_extends(extension_types@, i as int + 1, base_flags, transfer_hook_program, default_account_state); }
                    return Err(MintError::Unpack(c));
                },
                Ok(s) => {
                    if s == ACCOUNT_STATE_FROZEN {
                        proof { lemma_extensions_err_extends(extension_types@, i as int + 1, base_flags, transfer_hook_program, default_account_state); }
                        return Err(MintError::Escrow(EscrowError::DefaultFrozenMint));
                    }
                },
            }
        } else if ext == EXT_NON_TRANSFERABLE {
            proof { lemma_extensions_err_extends(extension_types@, i as int + 1, base_flags, transfer_hook_program, default_account_state); }
            return Err(MintError::Escrow(EscrowError::NonTransferableMint));
        } else if ext == EXT_INTEREST_BEARING_CONFIG {
            flags = flags | risk_flags::INTEREST_BEARING;
        } else if ext == EXT_MINT_CLOSE_AUTHORITY {
            flags = flags | risk_flags::MINT_CLOSE_AUTHORITY;
        } else if ext == EXT_METADATA_POINTER || ext == EXT_TOKEN_METADATA || ext == EXT_GROUP_POINTER
            || ext == EXT_TOKEN_GROUP || ext == EXT_GROUP_MEMBER_POINTER || ext == EXT_TOKEN_GROUP_MEMBER {
            // Cosmetic/metadata extensions: no escrow impact.
        } else {
            // Anything else is rejected: default-deny is the escrow-safe posture.
            proof { lemma_extensions_err_extends(extension_types@, i as int + 1, base_flags, transfer_hook_program, default_account_state); }
            return Err(MintError::Escrow(EscrowError::UnknownMintExtension));
        }
        i = i + 1;
    }
    assert(extension_types@.take(extension_types@.len() as int) =~= extension_types@);
    Ok(flags)
}

/// A refused prefix refuses the whole list with the same error.
proof fn lemma_extensions_err_extends(
    exts: Seq<u16>,
    k: int,
    flags: u16,
    hook: Result<Option<Pubkey>, u64>,
    dstate: Result<u8, u64>,
)
    requires
        0 <= k <= exts.len(),
        extensions_flags(exts.take(k), flags, hook, dstate) is Err,
    ensures
        extensions_flags(exts, flags, hook, dstate) == extensions_flags(exts.take(k), flags, hook, dstate),
    decreases exts.len() - k,
{
    if k < exts.len() {
        assert(exts.take(k + 1).drop_last() =~= exts.take(k));
        lemma_extensions_err_extends(exts, k + 1, flags, hook, dstate);
    } else {
        assert(exts.take(k) =~= exts);
    }
}

/// Vetting of the mint whose account is owned by `owner` and holds `data`:
/// the freeze authority is flagged; a classic SPL Token mint has nothing more
/// to vet; a Token-2022 mint's extensions are vetted in order.
pub open spec fn vet_mint_spec(owner: Pubkey, data: Seq<u8>) -> Result<u16, MintError> {
    match spl_mint_freeze_authority(data) {
        Err(c) => Err(MintError::Unpack(c)),
        Ok(freeze) => {
            let flags = if freeze is Some { risk_flags::FREEZE_AUTHORITY } else { 0 };
            if owner == classic_token_program_spec() {
                Ok(flags)
            } else {
                match spl_mint_extension_types(data) {
                    Err(c) => Err(MintError::Unpack(c)),
                    Ok(exts) => extensions_flags(
                        exts,
                        flags,
                        spl_mint_transfer_hook_program(data),
                        spl_mint_default_account_state(data),
                    ),
                }
            }
        },
    }
}

/// Inspect a mint (classic SPL Token or Token-2022) and return its risk-flag
/// bitfield. Unknown extensions and extensions that make escrow impossible are
/// refused; extensions that put the funds at issuer risk are flagged, for the
/// parties to accept explicitly.
pub fn vet_mint(owner: &Pubkey, data: &[u8]) -> (r: Result<u16, MintError>)
    ensures
        r == vet_mint_spec(*owner, data@),
{
    let freeze = match mint_freeze_authority(data) {
        Ok(f) => f,
        Err(c) => {
            return Err(MintError::Unpack(c));
        },
    };
    let flags: u16 = if freeze.is_some() { risk_flags::FREEZE_AUTHORITY } else { 0 };
    if owner.key_eq(&classic_token_program()) {
        return Ok(flags);
    }
    let exts = match mint_extension_types(data) {
        Ok(v) => v,
        Err(c) => {
            return Err(MintError::Unpack(c));
        },
    };
    let hook = mint_transfer_hook_program(data);
    let dstate = mint_default_account_state(data);
    extension_risk_flags(&exts, flags, hook, dstate)
}

} // verus!
