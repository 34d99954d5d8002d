use anchor_lang::prelude::Pubkey;
use tic_tac::delegation::{
    board_seeds, check_custody, delegate, delegate_at, derive_session_address, undelegate, undelegate_at,
    Custody, DelegateBoard, ExecutionContext, SessionAccount, UndelegateAndCommit,
};
use tic_tac::game::{initialize, Board, Initialize, TicTacError, UserGameCounter};
use tic_tac::identity::Identity;

fn id(n: u8) -> Identity {
    Identity::from_bytes([n; 32])
}

fn program() -> Identity {
    id(42)
}

fn expected_address(owner: Identity, game_id: u64) -> Identity {
    let program = Pubkey::new_from_array(program().bytes);
    let (addr, _) = Pubkey::find_program_address(
        &[b"board", owner.bytes.as_ref(), &game_id.to_le_bytes()],
        &program,
    );
    Identity::from_bytes(addr.to_bytes())
}

fn session(owner: Identity, count: u64) -> SessionAccount {
    let mut ctx = Initialize {
        user_games: UserGameCounter { game_count: count },
        board_account: Board {
            winner_address: Identity::null(),
            player_x: Identity::null(),
            player_o: Identity::null(),
            current_player: Identity::null(),
            board: [0; 9],
            is_active: false,
            game_id: 0,
        },
        payer: owner,
    };
    initialize(&mut ctx).unwrap();
    let data = ctx.board_account;
    SessionAccount {
        address: expected_address(owner, data.game_id),
        data,
        committed: data,
        custody: Custody::Ledger,
    }
}

#[test]
fn seeds_are_prefix_owner_and_id() {
    let seeds = board_seeds(&id(3), 0x0102);
    assert_eq!(seeds.len(), 3);
    assert_eq!(seeds[0], b"board".to_vec());
    assert_eq!(seeds[1], vec![3u8; 32]);
    assert_eq!(seeds[2], vec![2, 1, 0, 0, 0, 0, 0, 0]);
}

#[test]
fn derived_address_is_program_address() {
    let a = derive_session_address(&program(), &id(1), 7).unwrap();
    assert_eq!(a, expected_address(id(1), 7));
    assert_ne!(a, program());
    assert_ne!(a, id(1));
    assert_ne!(a, derive_session_address(&program(), &id(1), 8).unwrap());
}

#[test]
fn delegate_then_undelegate_restores_record() {
    let owner = id(1);
    let before = session(owner, 0);
    let mut d = DelegateBoard { payer: owner, pda: before.address, program_id: program(), board_account: before };
    assert_eq!(delegate(&mut d, Some(id(8))), Ok(()));
    assert_eq!(d.board_account.custody, Custody::FastLayer { validator: Some(id(8)) });
    assert_eq!(d.board_account.data, before.data);
    assert_eq!(d.board_account.committed, before.data);
    let mut u = UndelegateAndCommit { payer: owner, program_id: program(), board_account: d.board_account };
    assert_eq!(undelegate(&mut u), Ok(()));
    assert_eq!(u.board_account, before);
}

#[test]
fn undelegate_commits_fast_layer_state() {
    let owner = id(1);
    let before = session(owner, 3);
    let mut d = DelegateBoard { payer: owner, pda: before.address, program_id: program(), board_account: before };
    assert_eq!(delegate(&mut d, None), Ok(()));
    assert_eq!(d.board_account.custody, Custody::FastLayer { validator: None });
    let mut acct = d.board_account;
    acct.data.player_o = id(2);
    let mut u = UndelegateAndCommit { payer: owner, program_id: program(), board_account: acct };
    assert_eq!(undelegate(&mut u), Ok(()));
    assert_eq!(u.board_account.custody, Custody::Ledger);
    assert_eq!(u.board_account.committed.player_o, id(2));
    assert_eq!(u.board_account.data.player_o, id(2));
}

#[test]
fn delegate_by_other_payer_is_refused() {
    let before = session(id(1), 0);
    let mut d = DelegateBoard { payer: id(2), pda: before.address, program_id: program(), board_account: before };
    assert_eq!(delegate(&mut d, None), Err(TicTacError::Unauthorised));
    assert_eq!(d.board_account, before);
}

#[test]
fn delegate_of_other_account_is_refused() {
    let before = session(id(1), 0);
    let mut d = DelegateBoard { payer: id(1), pda: id(5), program_id: program(), board_account: before };
    assert_eq!(delegate(&mut d, None), Err(TicTacError::Unauthorised));
    assert_eq!(d.board_account, before);
    let mut moved = before;
    moved.address = id(5);
    let mut d2 = DelegateBoard { payer: id(1), pda: id(5), program_id: program(), board_account: moved };
    assert_eq!(delegate(&mut d2, None), Err(TicTacError::Unauthorised));
    assert_eq!(d2.board_account, moved);
}

#[test]
fn delegate_twice_keeps_first_custody() {
    let before = session(id(1), 0);
    let mut d = DelegateBoard { payer: id(1), pda: before.address, program_id: program(), board_account: before };
    assert_eq!(delegate(&mut d, Some(id(8))), Ok(()));
    let once = d.board_account;
    assert_eq!(delegate(&mut d, Some(id(9))), Ok(()));
    assert_eq!(d.board_account, once);
}

#[test]
fn undelegate_of_ledger_record_changes_nothing() {
    let before = session(id(1), 0);
    let mut u = UndelegateAndCommit { payer: id(1), program_id: program(), board_account: before };
    assert_eq!(undelegate(&mut u), Ok(()));
    assert_eq!(u.board_account, before);
    let mut other = UndelegateAndCommit { payer: id(2), program_id: program(), board_account: before };
    assert_eq!(undelegate(&mut other), Err(TicTacError::Unauthorised));
}

#[test]
fn decisions_on_given_addresses() {
    let before = session(id(1), 0);
    let mut d = DelegateBoard { payer: id(1), pda: before.address, program_id: program(), board_account: before };
    assert_eq!(delegate_at(&mut d, None, None), Err(TicTacError::Unauthorised));
    assert_eq!(delegate_at(&mut d, None, Some(id(6))), Err(TicTacError::Unauthorised));
    assert_eq!(d.board_account, before);
    assert_eq!(delegate_at(&mut d, None, Some(before.address)), Ok(()));
    let mut u = UndelegateAndCommit { payer: id(1), program_id: program(), board_account: d.board_account };
    assert_eq!(undelegate_at(&mut u, None), Err(TicTacError::Unauthorised));
    assert_eq!(undelegate_at(&mut u, Some(before.address)), Ok(()));
    assert_eq!(u.board_account, before);
}

#[test]
fn only_the_holder_may_change_a_record() {
    let local = session(id(1), 0);
    assert_eq!(check_custody(&local, ExecutionContext::Ledger), Ok(()));
    assert_eq!(check_custody(&local, ExecutionContext::FastLayer), Err(TicTacError::Unauthorised));
    let mut remote = local;
    remote.custody = Custody::FastLayer { validator: None };
    assert_eq!(check_custody(&remote, ExecutionContext::FastLayer), Ok(()));
    assert_eq!(check_custody(&remote, ExecutionContext::Ledger), Err(TicTacError::Unauthorised));
}
