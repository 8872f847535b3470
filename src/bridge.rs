use vstd::prelude::*;

use crate::error::ErrorCode;
use crate::identity::Identity;
use crate::ledger::Ledger;

verus! {

/// The bridge record: the authority that drives it and the mint it serves.
/// Both are set once, when the bridge is initialized.
#[derive(Clone, Copy, Debug, PartialEq, Eq)]
pub struct FlappyBridge {
    pub authority: Identity,
    pub token_mint: usize,
}

/// Records declared by `initialize_bridge`: the signing authority.
#[derive(Clone, Copy, Debug)]
pub struct InitializeBridge {
    pub authority: Identity,
}

/// Records declared by `deposit`: the user's funding account, the bridge's
/// custody account and the signing owner of the funding account.
#[derive(Clone, Copy, Debug)]
pub struct Deposit {
    pub user_token_account: usize,
    pub bridge_token_account: usize,
    pub owner: Identity,
}

/// Records declared by `burn_for_bridge`: the custody account, the burn sink
/// and the signing authority.
#[derive(Clone, Copy, Debug)]
pub struct BurnForBridge {
    pub bridge_token_account: usize,
    pub burn_account: usize,
    pub authority: Identity,
}

/// Records declared by `complete_transfer`: the bridged mint, the authority's
/// funding account, the recipient's account, the recipient and the signing
/// authority.
#[derive(Clone, Copy, Debug)]
pub struct CompleteTransfer {
    pub mint: usize,
    pub authority_token_account: usize,
    pub user_token_account: usize,
    pub recipient: Identity,
    pub authority: Identity,
}

/// Records declared by `emergency_withdraw`: the custody account, the
/// authority's account and the signing authority.
#[derive(Clone, Copy, Debug)]
pub struct EmergencyWithdraw {
    pub bridge_token_account: usize,
    pub authority_token_account: usize,
    pub authority: Identity,
}

/// Emitted when a user moves funds into the bridge's custody.
#[derive(Clone, Debug, PartialEq, Eq)]
pub struct DepositEvent {
    pub user: Identity,
    pub amount: u64,
    pub timestamp: i64,
}

/// Emitted when custodied funds are burned: the instruction to relayers to
/// release `amount` to `destination` on the foreign chain.
#[derive(Clone, Debug, PartialEq, Eq)]
pub struct CrossChainTransferEvent {
    pub from: Identity,
    pub destination: String,
    pub amount: u64,
    pub timestamp: i64,
}

/// Emitted when an inbound transfer from a foreign chain is paid out.
#[derive(Clone, Debug, PartialEq, Eq)]
pub struct TransferCompletedEvent {
    pub to: Identity,
    pub amount: u64,
    pub source_chain: String,
    pub source_tx_hash: String,
    pub timestamp: i64,
}

/// Emitted when the authority takes funds back out of custody.
#[derive(Clone, Debug, PartialEq, Eq)]
pub struct EmergencyWithdrawEvent {
    pub amount: u64,
    pub timestamp: i64,
}

/// The address, and its bump, that the runtime derives from one seed under a
/// program id.
pub uninterp spec fn program_address(seed: Seq<u8>, program_id: Seq<u8>) -> Option<(Seq<u8>, u8)>;

/// Relies on `Pubkey::try_find_program_address`: it searches the bumps for
/// the first off-curve address derived from the seeds and the program id, a
/// value fixed by those bytes, and returns `None` when no bump qualifies.
#[verifier::external_body]
fn find_program_address(seed: &[u8], program_id: &Identity) -> (r: Option<(Identity, u8)>)
    ensures
        match r {
            Some((k, b)) => program_address(seed@, program_id@) == Some((k@, b)),
            None => program_address(seed@, program_id@) is None,
        },
{
    let program = anchor_lang::prelude::Pubkey::new_from_array(program_id.bytes);
    anchor_lang::prelude::Pubkey::try_find_program_address(&[seed], &program).map(
        |(k, b)| (Identity { bytes: k.to_bytes() }, b),
    )
}

/// The namespace seed of the bridge record: the bytes of "flappy_bridge".
pub open spec fn bridge_seed() -> Seq<u8> {
    seq![102u8, 108, 97, 112, 112, 121, 95, 98, 114, 105, 100, 103, 101]
}

/// The id of the program that owns the bridge, fixed at build time: the
/// bytes of `8X3gPhhqv562jvPgK7Yj7VWwSjYjcsxUuedJKcic8Pwf` in base58.
pub const PROGRAM_ID: [u8; 32] = [
    111, 180, 67, 24, 170, 144, 177, 236, 74, 229, 8, 42, 195, 134, 194, 157, 52, 92, 156, 40,
    19, 35, 28, 62, 123, 240, 206, 117, 8, 37, 57, 34,
];

/// The id of the program that owns the bridge.
pub fn program_id() -> (r: Identity)
    ensures
        r@ == PROGRAM_ID@,
{
    Identity { bytes: PROGRAM_ID }
}

/// The bridge's own signing identity under the program's id, if one exists.
pub open spec fn bridge_signer() -> Option<Seq<u8>> {
    match program_address(bridge_seed(), PROGRAM_ID@) {
        Some((k, _)) => Some(k),
        None => None,
    }
}

/// The deterministic address and bump of the bridge record under the
/// program's id. Funds held by an account owned by this address can be moved
/// by the bridge, and only by it, without any private key.
pub fn bridge_address() -> (r: Option<(Identity, u8)>)
    ensures
        match r {
            Some((k, b)) => program_address(bridge_seed(), PROGRAM_ID@) == Some((k@, b)),
            None => program_address(bridge_seed(), PROGRAM_ID@) is None,
        },
{
    let seed: Vec<u8> = vec![102u8, 108, 97, 112, 112, 121, 95, 98, 114, 105, 100, 103, 101];
    assert(seed@ =~= bridge_seed());
    let program = program_id();
    find_program_address(seed.as_slice(), &program)
}

/// `r` is `Err(e)` when `e` is given, else `Ok(v)`.
pub open spec fn outcome<T>(e: Option<ErrorCode>, v: T) -> Result<T, ErrorCode> {
    match e {
        Some(e) => Err(e),
        None => Ok(v),
    }
}

/// The first rule that `deposit` breaks, if any.
pub open spec fn deposit_error(
    ledger: &Ledger,
    bridge: Option<FlappyBridge>,
    ctx: Deposit,
    amount: u64,
) -> Option<ErrorCode> {
    if bridge is None {
        Some(ErrorCode::BridgeNotInitialized)
    } else {
        ledger.transfer_error(
            ctx.user_token_account as int,
            ctx.bridge_token_account as int,
            amount,
            ctx.owner@,
        )
    }
}

/// The first rule that a transfer out of custody signed by the bridge breaks,
/// if any, once the caller is known to be the authority.
pub open spec fn custody_error(
    ledger: &Ledger,
    from: int,
    to: int,
    amount: u64,
) -> Option<ErrorCode> {
    match bridge_signer() {
        None => Some(ErrorCode::BridgeAddressUnavailable),
        Some(signer) => ledger.transfer_error(from, to, amount, signer),
    }
}

/// The first rule that `burn_for_bridge` breaks, if any.
pub open spec fn burn_for_bridge_error(
    ledger: &Ledger,
    bridge: Option<FlappyBridge>,
    ctx: BurnForBridge,
    amount: u64,
) -> Option<ErrorCode> {
    match bridge {
        None => Some(ErrorCode::BridgeNotInitialized),
        Some(b) => if ctx.authority@ != b.authority@ {
            Some(ErrorCode::UnauthorizedBridgeAuthority)
        } else {
            custody_error(
                ledger,
                ctx.bridge_token_account as int,
                ctx.burn_account as int,
                amount,
            )
        },
    }
}

/// The first rule that `complete_transfer` breaks, if any.
pub open spec fn complete_transfer_error(
    ledger: &Ledger,
    bridge: Option<FlappyBridge>,
    ctx: CompleteTransfer,
    amount: u64,
) -> Option<ErrorCode> {
    match bridge {
        None => Some(ErrorCode::BridgeNotInitialized),
        Some(b) => if ctx.authority@ != b.authority@ {
            Some(ErrorCode::UnauthorizedBridgeAuthority)
        } else if ctx.mint != b.token_mint {
            Some(ErrorCode::MintMismatch)
        } else {
            ledger.transfer_error(
                ctx.authority_token_account as int,
                ctx.user_token_account as int,
                amount,
                ctx.authority@,
            )
        },
    }
}

/// The first rule that `emergency_withdraw` breaks, if any.
pub open spec fn emergency_withdraw_error(
    ledger: &Ledger,
    bridge: Option<FlappyBridge>,
    ctx: EmergencyWithdraw,
    amount: u64,
) -> Option<ErrorCode> {
    match bridge {
        None => Some(ErrorCode::BridgeNotInitialized),
        Some(b) => if ctx.authority@ != b.authority@ {
            Some(ErrorCode::UnauthorizedBridgeAuthority)
        } else {
            custody_error(
                ledger,
                ctx.bridge_token_account as int,
                ctx.authority_token_account as int,
                amount,
            )
        },
    }
}

/// Creates the bridge record at its deterministic address, signed by its
/// future authority. Fails when the program's id yields no such address, or
/// when the record already exists there.
pub fn initialize_bridge(
    bridge: &mut Option<FlappyBridge>,
    ctx: &InitializeBridge,
    token_mint: usize,
) -> (r: Result<(), ErrorCode>)
    ensures
        bridge_signer() is None ==> r == Err::<(), ErrorCode>(
            ErrorCode::BridgeAddressUnavailable,
        ) && *final(bridge) == *old(bridge),
        bridge_signer() is Some && (*old(bridge)) is Some ==> r == Err::<(), ErrorCode>(
            ErrorCode::BridgeAlreadyInitialized,
        ) && *final(bridge) == *old(bridge),
        bridge_signer() is Some && (*old(bridge)) is None ==> r == Ok::<(), ErrorCode>(())
            && *final(bridge) == Some((FlappyBridge { authority: ctx.authority, token_mint })),
{
    if bridge_address().is_none() {
        return Err(ErrorCode::BridgeAddressUnavailable);
    }
    if bridge.is_some() {
        return Err(ErrorCode::BridgeAlreadyInitialized);
    }
    *bridge = Some(FlappyBridge { authority: ctx.authority, token_mint });
    Ok(())
}

/// Moves `amount` from the custody account `from` to `to`, signed by the
/// bridge's own identity, derived from the program's fixed id rather than
/// chosen by any caller. The ledger accepts the signature only when that
/// identity owns `from`, so the bridge can move nothing but what it already
/// holds.
fn transfer_from_custody(
    ledger: &mut Ledger,
    from: usize,
    to: usize,
    amount: u64,
) -> (r: Result<(), ErrorCode>)
    requires
        old(ledger).wf(),
    ensures
        final(ledger).wf(),
        r == outcome(custody_error(old(ledger), from as int, to as int, amount), ()),
        final(ledger).mints() == old(ledger).mints(),
        r is Ok ==> final(ledger).accounts() == old(ledger).transferred(
            from as int,
            to as int,
            amount,
        ),
        r is Err ==> final(ledger).accounts() == old(ledger).accounts(),
{
    let signer = match bridge_address() {
        Some((k, _)) => k,
        None => return Err(ErrorCode::BridgeAddressUnavailable),
    };
    ledger.transfer(from, to, amount, &signer)
}

/// Moves `amount` from the user's funding account into the bridge's custody
/// account, signed by the user. Anyone may deposit once the bridge exists.
pub fn deposit(
    ledger: &mut Ledger,
    bridge: &Option<FlappyBridge>,
    ctx: &Deposit,
    amount: u64,
    now: i64,
) -> (r: Result<DepositEvent, ErrorCode>)
    requires
        old(ledger).wf(),
    ensures
        final(ledger).wf(),
        r == outcome(
            deposit_error(old(ledger), *bridge, *ctx, amount),
            (DepositEvent { user: ctx.owner, amount, timestamp: now }),
        ),
        final(ledger).mints() == old(ledger).mints(),
        r is Ok ==> final(ledger).accounts() == old(ledger).transferred(
            ctx.user_token_account as int,
            ctx.bridge_token_account as int,
            amount,
        ),
        r is Err ==> final(ledger).accounts() == old(ledger).accounts(),
{
    if bridge.is_none() {
        return Err(ErrorCode::BridgeNotInitialized);
    }
    match ledger.transfer(ctx.user_token_account, ctx.bridge_token_account, amount, &ctx.owner) {
        Ok(()) => Ok(DepositEvent { user: ctx.owner, amount, timestamp: now }),
        Err(e) => Err(e),
    }
}

/// Moves `amount` from custody to the burn sink, on the authority's order,
/// and announces that `amount` is to be released to `destination` on the
/// foreign chain on behalf of `from`.
pub fn burn_for_bridge(
    ledger: &mut Ledger,
    bridge: &Option<FlappyBridge>,
    ctx: &BurnForBridge,
    from: Identity,
    destination: String,
    amount: u64,
    now: i64,
) -> (r: Result<CrossChainTransferEvent, ErrorCode>)
    requires
        old(ledger).wf(),
    ensures
        final(ledger).wf(),
        r == outcome(
            burn_for_bridge_error(old(ledger), *bridge, *ctx, amount),
            (CrossChainTransferEvent { from, destination, amount, timestamp: now }),
        ),
        final(ledger).mints() == old(ledger).mints(),
        r is Ok ==> final(ledger).accounts() == old(ledger).transferred(
            ctx.bridge_token_account as int,
            ctx.burn_account as int,
            amount,
        ),
        r is Err ==> final(ledger).accounts() == old(ledger).accounts(),
{
    let b = match bridge {
        Some(b) => b,
        None => return Err(ErrorCode::BridgeNotInitialized),
    };
    if !ctx.authority.same(&b.authority) {
        return Err(ErrorCode::UnauthorizedBridgeAuthority);
    }
    match transfer_from_custody(
        ledger,
        ctx.bridge_token_account,
        ctx.burn_account,
        amount,
    ) {
        Ok(()) => Ok(CrossChainTransferEvent { from, destination, amount, timestamp: now }),
        Err(e) => Err(e),
    }
}

/// Pays out an inbound transfer that the authority has confirmed on the
/// source chain: moves `amount` from the authority's funding account to the
/// recipient's account, signed by the authority. The same source transaction
/// may be completed more than once.
pub fn complete_transfer(
    ledger: &mut Ledger,
    bridge: &Option<FlappyBridge>,
    ctx: &CompleteTransfer,
    recipient: Identity,
    amount: u64,
    source_chain: String,
    source_tx_hash: String,
    now: i64,
) -> (r: Result<TransferCompletedEvent, ErrorCode>)
    requires
        old(ledger).wf(),
    ensures
        final(ledger).wf(),
        r == outcome(
            complete_transfer_error(old(ledger), *bridge, *ctx, amount),
            (TransferCompletedEvent {
                to: recipient,
                amount,
                source_chain,
                source_tx_hash,
                timestamp: now,
            }),
        ),
        final(ledger).mints() == old(ledger).mints(),
        r is Ok ==> final(ledger).accounts() == old(ledger).transferred(
            ctx.authority_token_account as int,
            ctx.user_token_account as int,
            amount,
        ),
        r is Err ==> final(ledger).accounts() == old(ledger).accounts(),
{
    let b = match bridge {
        Some(b) => b,
        None => return Err(ErrorCode::BridgeNotInitialized),
    };
    if !ctx.authority.same(&b.authority) {
        return Err(ErrorCode::UnauthorizedBridgeAuthority);
    }
    if ctx.mint != b.token_mint {
        return Err(ErrorCode::MintMismatch);
    }
    match ledger.transfer(
        ctx.authority_token_account,
        ctx.user_token_account,
        amount,
        &ctx.authority,
    ) {
        Ok(()) => Ok(
            TransferCompletedEvent {
                to: recipient,
                amount,
                source_chain,
                source_tx_hash,
                timestamp: now,
            },
        ),
        Err(e) => Err(e),
    }
}

/// Moves `amount` from custody back to the authority's account, on the
/// authority's order, signed by the bridge's own identity.
pub fn emergency_withdraw(
    ledger: &mut Ledger,
    bridge: &Option<FlappyBridge>,
    ctx: &EmergencyWithdraw,
    amount: u64,
    now: i64,
) -> (r: Result<EmergencyWithdrawEvent, ErrorCode>)
    requires
        old(ledger).wf(),
    ensures
        final(ledger).wf(),
        r == outcome(
            emergency_withdraw_error(old(ledger), *bridge, *ctx, amount),
            (EmergencyWithdrawEvent { amount, timestamp: now }),
        ),
        final(ledger).mints() == old(ledger).mints(),
        r is Ok ==> final(ledger).accounts() == old(ledger).transferred(
            ctx.bridge_token_account as int,
            ctx.authority_token_account as int,
            amount,
        ),
        r is Err ==> final(ledger).accounts() == old(ledger).accounts(),
{
    let b = match bridge {
        Some(b) => b,
        None => return Err(ErrorCode::BridgeNotInitialized),
    };
    if !ctx.authority.same(&b.authority) {
        return Err(ErrorCode::UnauthorizedBridgeAuthority);
    }
    match transfer_from_custody(
        ledger,
        ctx.bridge_token_account,
        ctx.authority_token_account,
        amount,
    ) {
        Ok(()) => Ok(EmergencyWithdrawEvent { amount, timestamp: now }),
        Err(e) => Err(e),
    }
}

} // verus!
