use anchor_lang::prelude::Pubkey;
use beehive::{pause, unpause, ErrorCode, Paused, State, TogglePause, Unpaused};

fn pause_key(tag: u8) -> Pubkey {
    Pubkey::new_from_array([tag; 32])
}

#[test]
fn pause_by_owner_switches_distribution_off() {
    let owner = pause_key(1);
    let mut ctx = TogglePause { state: State { is_paused: false, owner }, admin: owner };
    assert_eq!(pause(&mut ctx), Ok(Paused { by: owner }));
    assert_eq!(ctx.state, State { is_paused: true, owner });
    assert_eq!(ctx.admin, owner);
}

#[test]
fn unpause_by_owner_switches_distribution_on() {
    let owner = pause_key(1);
    let mut ctx = TogglePause { state: State { is_paused: true, owner }, admin: owner };
    assert_eq!(unpause(&mut ctx), Ok(Unpaused { by: owner }));
    assert_eq!(ctx.state, State { is_paused: false, owner });
}

#[test]
fn pause_while_paused_is_accepted_and_changes_nothing() {
    let owner = pause_key(1);
    let mut ctx = TogglePause { state: State { is_paused: false, owner }, admin: owner };
    assert_eq!(pause(&mut ctx), Ok(Paused { by: owner }));
    let after_first = ctx;
    assert_eq!(pause(&mut ctx), Ok(Paused { by: owner }));
    assert_eq!(ctx, after_first);
    assert_eq!(pause(&mut ctx), Ok(Paused { by: owner }));
    assert_eq!(ctx, after_first);
    assert!(ctx.state.is_paused);
}

#[test]
fn unpause_while_active_is_accepted_and_changes_nothing() {
    let owner = pause_key(1);
    let before = TogglePause { state: State { is_paused: false, owner }, admin: owner };
    let mut ctx = before;
    assert_eq!(unpause(&mut ctx), Ok(Unpaused { by: owner }));
    assert_eq!(ctx, before);
}

#[test]
fn pause_by_non_owner_is_unauthorized() {
    let owner = pause_key(1);
    let stranger = pause_key(2);
    let before = TogglePause { state: State { is_paused: false, owner }, admin: stranger };
    let mut ctx = before;
    assert_eq!(pause(&mut ctx), Err(ErrorCode::Unauthorized));
    assert_eq!(ctx, before);
}

#[test]
fn unpause_by_non_owner_is_unauthorized() {
    let owner = pause_key(1);
    let stranger = pause_key(2);
    let before = TogglePause { state: State { is_paused: true, owner }, admin: stranger };
    let mut ctx = before;
    assert_eq!(unpause(&mut ctx), Err(ErrorCode::Unauthorized));
    assert_eq!(ctx, before);
    assert!(ctx.state.is_paused);
}
