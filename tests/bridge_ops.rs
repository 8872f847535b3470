use spl20::bridge::{
    bridge_address, burn_for_bridge, program_id, complete_transfer, deposit, emergency_withdraw,
    initialize_bridge, BurnForBridge, CompleteTransfer, CrossChainTransferEvent, Deposit,
    DepositEvent, EmergencyWithdraw, EmergencyWithdrawEvent, FlappyBridge, InitializeBridge,
    TransferCompletedEvent, PROGRAM_ID,
};
use std::str::FromStr;

use anchor_lang::prelude::Pubkey;
use spl20::error::ErrorCode;
use spl20::identity::Identity;
use spl20::ledger::Ledger;

fn id(b: u8) -> Identity {
    Identity::new([b; 32])
}

fn balance(l: &Ledger, a: usize) -> u64 {
    l.get_account(a).unwrap().amount
}

struct World {
    ledger: Ledger,
    bridge: Option<FlappyBridge>,
    auth: Identity,
    user: Identity,
    mint: usize,
    user_acc: usize,
    custody: usize,
    sink: usize,
    auth_acc: usize,
    recipient_acc: usize,
}

fn world() -> World {
    let auth = id(1);
    let user = id(2);
    let (signer, _bump) = bridge_address().unwrap();
    let mut ledger = Ledger::new();
    let mint = ledger.initialize_mint("Coin".to_string(), "CN".to_string(), 0, auth);
    let user_acc = ledger.create_account(user, mint).unwrap();
    let custody = ledger.create_account(signer, mint).unwrap();
    let sink = ledger.create_account(id(5), mint).unwrap();
    let auth_acc = ledger.create_account(auth, mint).unwrap();
    let recipient_acc = ledger.create_account(id(6), mint).unwrap();
    ledger.mint(mint, user_acc, 500, &auth).unwrap();
    ledger.mint(mint, auth_acc, 1000, &auth).unwrap();
    let mut bridge = None;
    initialize_bridge(&mut bridge, &InitializeBridge { authority: auth }, mint).unwrap();
    World { ledger, bridge, auth, user, mint, user_acc, custody, sink, auth_acc, recipient_acc }
}

fn deposit_ctx(w: &World) -> Deposit {
    Deposit { user_token_account: w.user_acc, bridge_token_account: w.custody, owner: w.user }
}

fn burn_ctx(w: &World, authority: Identity) -> BurnForBridge {
    BurnForBridge {
        bridge_token_account: w.custody,
        burn_account: w.sink,
        authority,
    }
}

fn complete_ctx(w: &World, authority: Identity) -> CompleteTransfer {
    CompleteTransfer {
        mint: w.mint,
        authority_token_account: w.auth_acc,
        user_token_account: w.recipient_acc,
        recipient: id(6),
        authority,
    }
}

fn withdraw_ctx(w: &World, authority: Identity) -> EmergencyWithdraw {
    EmergencyWithdraw {
        bridge_token_account: w.custody,
        authority_token_account: w.auth_acc,
        authority,
    }
}

#[test]
fn initialize_sets_authority_and_mint_once() {
    let w = world();
    assert_eq!(w.bridge, Some(FlappyBridge { authority: w.auth, token_mint: w.mint }));
    let mut bridge = w.bridge;
    let again = initialize_bridge(&mut bridge, &InitializeBridge { authority: id(4) }, 7);
    assert_eq!(again, Err(ErrorCode::BridgeAlreadyInitialized));
    assert_eq!(bridge, w.bridge);
}

#[test]
fn bridge_address_is_derived_and_stable() {
    let program = program_id();
    let (a, bump) = bridge_address().unwrap();
    assert!(!a.same(&program));
    assert_eq!(bridge_address(), Some((a, bump)));
    let (expected, expected_bump) =
        Pubkey::find_program_address(&[b"flappy_bridge".as_ref()], &Pubkey::new_from_array(PROGRAM_ID));
    assert_eq!(a.bytes, expected.to_bytes());
    assert_eq!(bump, expected_bump);
}

#[test]
fn program_id_is_the_deployed_id() {
    let deployed = Pubkey::from_str("8X3gPhhqv562jvPgK7Yj7VWwSjYjcsxUuedJKcic8Pwf").unwrap();
    assert_eq!(program_id().bytes, deployed.to_bytes());
}

#[test]
fn custody_held_by_another_identity_cannot_be_moved() {
    let mut w = world();
    let other = w.ledger.create_account(id(8), w.mint).unwrap();
    w.ledger.mint(w.mint, other, 50, &w.auth).unwrap();
    let mut ctx = burn_ctx(&w, w.auth);
    ctx.bridge_token_account = other;
    let r = burn_for_bridge(&mut w.ledger, &w.bridge, &ctx, w.user, "x".to_string(), 10, 0);
    assert_eq!(r, Err(ErrorCode::Unauthorized));
    assert_eq!(balance(&w.ledger, other), 50);
}

#[test]
fn deposit_credits_custody() {
    let mut w = world();
    let ctx = deposit_ctx(&w);
    let ev = deposit(&mut w.ledger, &w.bridge, &ctx, 100, 1_700_000_000);
    assert_eq!(ev, Ok(DepositEvent { user: w.user, amount: 100, timestamp: 1_700_000_000 }));
    assert_eq!(balance(&w.ledger, w.custody), 100);
    assert_eq!(balance(&w.ledger, w.user_acc), 400);
}

#[test]
fn deposit_before_initialize_is_refused() {
    let mut w = world();
    let ctx = deposit_ctx(&w);
    assert_eq!(deposit(&mut w.ledger, &None, &ctx, 100, 0), Err(ErrorCode::BridgeNotInitialized));
    assert_eq!(balance(&w.ledger, w.custody), 0);
}

#[test]
fn deposit_signed_by_other_user_is_refused() {
    let mut w = world();
    let mut ctx = deposit_ctx(&w);
    ctx.owner = id(7);
    assert_eq!(deposit(&mut w.ledger, &w.bridge, &ctx, 100, 0), Err(ErrorCode::Unauthorized));
    assert_eq!(balance(&w.ledger, w.user_acc), 500);
}

#[test]
fn burn_beyond_custody_is_refused() {
    let mut w = world();
    let ctx = deposit_ctx(&w);
    deposit(&mut w.ledger, &w.bridge, &ctx, 100, 0).unwrap();
    let custody = balance(&w.ledger, w.custody);
    let ctx = burn_ctx(&w, w.auth);
    let r = burn_for_bridge(
        &mut w.ledger,
        &w.bridge,
        &ctx,
        w.user,
        "0xabc".to_string(),
        custody + 1,
        5,
    );
    assert_eq!(r, Err(ErrorCode::InsufficientFunds));
    assert_eq!(balance(&w.ledger, w.custody), custody);
    assert_eq!(balance(&w.ledger, w.sink), 0);
}

#[test]
fn burn_moves_custody_to_sink() {
    let mut w = world();
    let ctx = deposit_ctx(&w);
    deposit(&mut w.ledger, &w.bridge, &ctx, 100, 0).unwrap();
    let ctx = burn_ctx(&w, w.auth);
    let r = burn_for_bridge(&mut w.ledger, &w.bridge, &ctx, w.user, "0xabc".to_string(), 60, 42);
    assert_eq!(
        r,
        Ok(CrossChainTransferEvent {
            from: w.user,
            destination: "0xabc".to_string(),
            amount: 60,
            timestamp: 42,
        })
    );
    assert_eq!(balance(&w.ledger, w.custody), 40);
    assert_eq!(balance(&w.ledger, w.sink), 60);
}

#[test]
fn burn_by_non_authority_is_refused() {
    let mut w = world();
    let ctx = deposit_ctx(&w);
    deposit(&mut w.ledger, &w.bridge, &ctx, 100, 0).unwrap();
    let ctx = burn_ctx(&w, w.user);
    let r = burn_for_bridge(&mut w.ledger, &w.bridge, &ctx, w.user, "x".to_string(), 10, 0);
    assert_eq!(r, Err(ErrorCode::UnauthorizedBridgeAuthority));
    assert_eq!(balance(&w.ledger, w.custody), 100);
}

#[test]
fn burn_from_account_not_held_by_bridge_is_refused() {
    let mut w = world();
    let mut ctx = burn_ctx(&w, w.auth);
    ctx.bridge_token_account = w.user_acc;
    let r = burn_for_bridge(&mut w.ledger, &w.bridge, &ctx, w.user, "x".to_string(), 10, 0);
    assert_eq!(r, Err(ErrorCode::Unauthorized));
    assert_eq!(balance(&w.ledger, w.user_acc), 500);
}

#[test]
fn complete_transfer_pays_recipient() {
    let mut w = world();
    let ctx = complete_ctx(&w, w.auth);
    let r = complete_transfer(
        &mut w.ledger,
        &w.bridge,
        &ctx,
        id(6),
        250,
        "ethereum".to_string(),
        "0xfeed".to_string(),
        77,
    );
    assert_eq!(
        r,
        Ok(TransferCompletedEvent {
            to: id(6),
            amount: 250,
            source_chain: "ethereum".to_string(),
            source_tx_hash: "0xfeed".to_string(),
            timestamp: 77,
        })
    );
    assert_eq!(balance(&w.ledger, w.recipient_acc), 250);
    assert_eq!(balance(&w.ledger, w.auth_acc), 750);
}

#[test]
fn replayed_completion_credits_twice() {
    let mut w = world();
    let ctx = complete_ctx(&w, w.auth);
    for _ in 0..2 {
        let r = complete_transfer(
            &mut w.ledger,
            &w.bridge,
            &ctx,
            id(6),
            100,
            "ethereum".to_string(),
            "0xsame".to_string(),
            1,
        );
        assert!(r.is_ok());
    }
    assert_eq!(balance(&w.ledger, w.recipient_acc), 200);
}

#[test]
fn complete_transfer_by_non_authority_is_refused() {
    let mut w = world();
    let ctx = complete_ctx(&w, w.user);
    let r = complete_transfer(&mut w.ledger, &w.bridge, &ctx, id(6), 10, "a".to_string(), "b".to_string(), 0);
    assert_eq!(r, Err(ErrorCode::UnauthorizedBridgeAuthority));
    assert_eq!(balance(&w.ledger, w.recipient_acc), 0);
}

#[test]
fn complete_transfer_with_other_mint_is_refused() {
    let mut w = world();
    let mut ctx = complete_ctx(&w, w.auth);
    ctx.mint = w.mint + 1;
    let r = complete_transfer(&mut w.ledger, &w.bridge, &ctx, id(6), 10, "a".to_string(), "b".to_string(), 0);
    assert_eq!(r, Err(ErrorCode::MintMismatch));
    assert_eq!(balance(&w.ledger, w.auth_acc), 1000);
}

#[test]
fn emergency_withdraw_returns_custody_to_authority() {
    let mut w = world();
    let ctx = deposit_ctx(&w);
    deposit(&mut w.ledger, &w.bridge, &ctx, 100, 0).unwrap();
    let ctx = withdraw_ctx(&w, w.auth);
    let r = emergency_withdraw(&mut w.ledger, &w.bridge, &ctx, 30, 9);
    assert_eq!(r, Ok(EmergencyWithdrawEvent { amount: 30, timestamp: 9 }));
    assert_eq!(balance(&w.ledger, w.custody), 70);
    assert_eq!(balance(&w.ledger, w.auth_acc), 1030);
}

#[test]
fn emergency_withdraw_by_non_authority_is_refused() {
    let mut w = world();
    let ctx = deposit_ctx(&w);
    deposit(&mut w.ledger, &w.bridge, &ctx, 100, 0).unwrap();
    let ctx = withdraw_ctx(&w, w.user);
    let r = emergency_withdraw(&mut w.ledger, &w.bridge, &ctx, 30, 9);
    assert_eq!(r, Err(ErrorCode::UnauthorizedBridgeAuthority));
    assert_eq!(balance(&w.ledger, w.custody), 100);
}

#[test]
fn emergency_withdraw_before_initialize_is_refused() {
    let mut w = world();
    let ctx = withdraw_ctx(&w, w.auth);
    let r = emergency_withdraw(&mut w.ledger, &None, &ctx, 0, 9);
    assert_eq!(r, Err(ErrorCode::BridgeNotInitialized));
}
