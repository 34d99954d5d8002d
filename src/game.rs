use vstd::prelude::*;

use crate::board::{
    cells_valid, check_winner, filled_count, has_line, is_board_full, is_full, BOARD_SIZE, EMPTY,
    PLAYER_O_MARK, PLAYER_X_MARK,
};
use crate::identity::Identity;

verus! {

/// Why an operation on a session was refused. A refused operation changes nothing.
#[derive(Clone, Copy, Debug, PartialEq, Eq, Structural)]
pub enum TicTacError {
    InvalidPosition,
    CellOccupied,
    NotYourTurn,
    Unauthorised,
    GameOver,
    PlayerAlreadyRegistered,
    SecondPlayerNotRegistered,
    Overflow,
}

/// A session was created.
#[derive(Clone, Copy, Debug, PartialEq, Eq)]
pub struct GameCreated {
    pub game_id: u64,
    pub player_x: Identity,
}

/// A mark was placed.
#[derive(Clone, Copy, Debug, PartialEq, Eq)]
pub struct MoveMade {
    pub player: Identity,
    pub position: u8,
    pub game_id: u64,
}

/// A move completed a line.
#[derive(Clone, Copy, Debug, PartialEq, Eq)]
pub struct GameWon {
    pub winner: Identity,
    pub game_id: u64,
}

/// A move filled the board without completing a line.
#[derive(Clone, Copy, Debug, PartialEq, Eq)]
pub struct GameDraw {
    pub game_id: u64,
}

/// What a successful move reports to observers, in order.
#[derive(Clone, Copy, Debug, PartialEq, Eq)]
pub enum GameEvent {
    Moved(MoveMade),
    Won(GameWon),
    Drawn(GameDraw),
}

/// Per-owner count of sessions created; its value is the id of the next session.
#[derive(Clone, Copy, Debug, PartialEq, Eq)]
pub struct UserGameCounter {
    pub game_count: u64,
}

/// The record of one session.
#[derive(Clone, Copy, Debug, PartialEq, Eq)]
pub struct Board {
    /// The winner once a move completed a line; null otherwise.
    pub winner_address: Identity,
    /// The creator, who plays first.
    pub player_x: Identity,
    /// The second player; null until one registers.
    pub player_o: Identity,
    /// Whose turn it is.
    pub current_player: Identity,
    /// The cells, row by row: empty, a mark of the creator, or one of the second player.
    pub board: [u8; 9],
    /// Open (true) or finished (false).
    pub is_active: bool,
    /// The id drawn from the creator's counter.
    pub game_id: u64,
}

impl Board {
    /// The record's invariant.
    pub open spec fn wf(self) -> bool {
        &&& cells_valid(self.board)
        &&& (self.current_player == self.player_x || self.current_player == self.player_o)
        &&& (!self.player_o.is_null() ==> self.player_o != self.player_x)
        &&& (self.player_o.is_null() ==> self.current_player == self.player_x)
        &&& (self.is_active ==> {
            &&& self.winner_address.is_null()
            &&& !has_line(self.board, PLAYER_X_MARK)
            &&& !has_line(self.board, PLAYER_O_MARK)
            &&& !is_full(self.board)
        })
    }

    /// The mark that `caller` places: the creator's, else the second player's.
    pub open spec fn mark_of(self, caller: Identity) -> u8 {
        if caller == self.player_x {
            PLAYER_X_MARK
        } else {
            PLAYER_O_MARK
        }
    }

    /// The player other than the one whose turn it is.
    pub open spec fn next_player(self) -> Identity {
        if self.current_player == self.player_x {
            self.player_o
        } else {
            self.player_x
        }
    }
}

/// A fresh, open session of `owner` with id `id`.
pub open spec fn fresh_board(b: Board, owner: Identity, id: u64) -> bool {
    &&& b.player_x == owner
    &&& b.player_o.is_null()
    &&& b.winner_address.is_null()
    &&& b.current_player == owner
    &&& (forall|i: int| 0 <= i < 9 ==> #[trigger] b.board[i] == EMPTY)
    &&& b.is_active
    &&& b.game_id == id
}

/// The error of a move of `caller` at `position`, in the order the checks are made; none if
/// the move is allowed.
pub open spec fn move_error(b: Board, caller: Identity, position: u8) -> Option<TicTacError> {
    if position >= 9 {
        Some(TicTacError::InvalidPosition)
    } else if !b.is_active {
        Some(TicTacError::GameOver)
    } else if caller != b.current_player {
        Some(TicTacError::NotYourTurn)
    } else if b.player_o.is_null() {
        Some(TicTacError::SecondPlayerNotRegistered)
    } else if b.current_player != b.player_x && b.current_player != b.player_o {
        Some(TicTacError::Unauthorised)
    } else if b.board[position as int] != EMPTY {
        Some(TicTacError::CellOccupied)
    } else if caller != b.player_x && caller != b.player_o {
        Some(TicTacError::Unauthorised)
    } else {
        None
    }
}

/// `n` and `events` are what an allowed move of `caller` at `position` makes of `o`: the
/// mark is placed; a completed line wins, else a full board draws, else the turn passes.
pub open spec fn move_applied(
    o: Board,
    n: Board,
    caller: Identity,
    position: u8,
    events: Seq<GameEvent>,
) -> bool {
    let mark = o.mark_of(caller);
    let moved = GameEvent::Moved(MoveMade { player: caller, position, game_id: o.game_id });
    &&& (forall|i: int|
        0 <= i < 9 ==> #[trigger] n.board[i] == if i == position as int {
            mark
        } else {
            o.board[i]
        })
    &&& n.player_x == o.player_x
    &&& n.player_o == o.player_o
    &&& n.game_id == o.game_id
    &&& if has_line(n.board, mark) {
        &&& n.winner_address == caller
        &&& !n.is_active
        &&& n.current_player == o.current_player
        &&& events == seq![moved, GameEvent::Won(GameWon { winner: caller, game_id: o.game_id })]
    } else if is_full(n.board) {
        &&& n.winner_address.is_null()
        &&& !n.is_active
        &&& n.current_player == o.current_player
        &&& events == seq![moved, GameEvent::Drawn(GameDraw { game_id: o.game_id })]
    } else {
        &&& n.winner_address == o.winner_address
        &&& n.is_active == o.is_active
        &&& n.current_player == o.next_player()
        &&& events == seq![moved]
    }
}

/// The error of registering `candidate` as second player; none if it is allowed.
pub open spec fn register_error(b: Board, candidate: Identity) -> Option<TicTacError> {
    if !b.is_active {
        Some(TicTacError::GameOver)
    } else if !b.player_o.is_null() || candidate == b.player_x {
        Some(TicTacError::PlayerAlreadyRegistered)
    } else {
        None
    }
}

/// The outcome of a rejoin of `caller`.
pub open spec fn join_result(b: Board, caller: Identity) -> Result<(), TicTacError> {
    if !b.is_active {
        Err(TicTacError::GameOver)
    } else if caller != b.player_o || b.player_o.is_null() {
        Err(TicTacError::Unauthorised)
    } else {
        Ok(())
    }
}

impl UserGameCounter {
    /// Hands out the current count as an id and counts one more session.
    pub fn next_id(&mut self) -> (r: Result<u64, TicTacError>)
        ensures
            old(self).game_count == u64::MAX ==> r == Err::<u64, TicTacError>(
                TicTacError::Overflow,
            ) && *final(self) == *old(self),
            old(self).game_count < u64::MAX ==> r == Ok::<u64, TicTacError>(old(self).game_count)
                && final(self).game_count == old(self).game_count + 1,
    {
        if self.game_count == u64::MAX {
            return Err(TicTacError::Overflow);
        }
        let id = self.game_count;
        self.game_count = self.game_count + 1;
        Ok(id)
    }
}

/// The records that creating a session reads and writes.
pub struct Initialize {
    pub user_games: UserGameCounter,
    pub board_account: Board,
    pub payer: Identity,
}

/// The records that registering a second player reads and writes.
pub struct RegisterPlayerO {
    pub player_o: Identity,
    pub board_account: Board,
}

/// The records that a rejoin reads.
pub struct PlayerOJoin {
    pub player_o: Identity,
    pub board_account: Board,
}

/// The records that a move reads and writes.
pub struct PlayerMove {
    pub player: Identity,
    pub board_account: Board,
}

/// Creates a session owned by the payer, with the next id of the payer's counter.
pub fn initialize(ctx: &mut Initialize) -> (r: Result<GameCreated, TicTacError>)
    ensures
        final(ctx).payer == old(ctx).payer,
        old(ctx).user_games.game_count == u64::MAX ==> r == Err::<GameCreated, TicTacError>(
            TicTacError::Overflow,
        ) && final(ctx).user_games == old(ctx).user_games && final(ctx).board_account == old(ctx).board_account,
        old(ctx).user_games.game_count < u64::MAX ==> {
            &&& r == Ok::<GameCreated, TicTacError>(
                GameCreated { game_id: old(ctx).user_games.game_count, player_x: old(ctx).payer },
            )
            &&& final(ctx).user_games.game_count == old(ctx).user_games.game_count + 1
            &&& fresh_board(
                final(ctx).board_account,
                old(ctx).payer,
                old(ctx).user_games.game_count,
            )
            &&& final(ctx).board_account.wf()
        },
{
    let id = match ctx.user_games.next_id() {
        Ok(id) => id,
        Err(e) => return Err(e),
    };
    let board = Board {
        winner_address: Identity::null(),
        player_x: ctx.payer,
        player_o: Identity::null(),
        current_player: ctx.payer,
        board: [EMPTY; 9],
        is_active: true,
        game_id: id,
    };
    assert(forall|i: int| 0 <= i < 9 ==> #[trigger] board.board[i] == EMPTY);
    assert(!is_full(board.board) && !has_line(board.board, PLAYER_X_MARK) && !has_line(
        board.board,
        PLAYER_O_MARK,
    )) by {
        assert(board.board[0] == EMPTY);
    }
    ctx.board_account = board;
    Ok(GameCreated { game_id: id, player_x: ctx.payer })
}

/// Registers the signer as the second player of an open session that has none.
pub fn player_o_register(ctx: &mut RegisterPlayerO) -> (r: Result<(), TicTacError>)
    ensures
        final(ctx).player_o == old(ctx).player_o,
        match register_error(old(ctx).board_account, old(ctx).player_o) {
            Some(e) => r == Err::<(), TicTacError>(e) && final(ctx).board_account == old(ctx).board_account,
            None => r == Ok::<(), TicTacError>(()) && final(ctx).board_account == (Board {
                player_o: old(ctx).player_o,
                ..old(ctx).board_account
            }),
        },
        old(ctx).board_account.wf() ==> final(ctx).board_account.wf(),
{
    if !ctx.board_account.is_active {
        return Err(TicTacError::GameOver);
    }
    if !ctx.board_account.player_o.is_null_identity() || ctx.board_account.player_x.same(
        &ctx.player_o,
    ) {
        return Err(TicTacError::PlayerAlreadyRegistered);
    }
    ctx.board_account.player_o = ctx.player_o;
    Ok(())
}

/// Confirms that the signer is the registered second player of an open session; changes
/// nothing.
pub fn player_o_join(ctx: &PlayerOJoin) -> (r: Result<(), TicTacError>)
    ensures
        r == join_result(ctx.board_account, ctx.player_o),
{
    if !ctx.board_account.is_active {
        return Err(TicTacError::GameOver);
    }
    if !ctx.board_account.player_o.same(&ctx.player_o)
        || ctx.board_account.player_o.is_null_identity() {
        return Err(TicTacError::Unauthorised);
    }
    Ok(())
}

/// Places the signer's mark at `position` (0 to 8, row by row) if the signer may move
/// there; then scores a completed line as a win, else a full board as a draw, else passes
/// the turn. Returns the events of the move in order.
pub fn make_move(ctx: &mut PlayerMove, position: u8) -> (r: Result<Vec<GameEvent>, TicTacError>)
    ensures
        final(ctx).player == old(ctx).player,
        match r {
            Err(e) => move_error(old(ctx).board_account, old(ctx).player, position) == Some(e)
                && final(ctx).board_account == old(ctx).board_account,
            Ok(events) => move_error(old(ctx).board_account, old(ctx).player, position) is None
                && move_applied(
                old(ctx).board_account,
                final(ctx).board_account,
                old(ctx).player,
                position,
                events@,
            ),
        },
        old(ctx).board_account.wf() ==> final(ctx).board_account.wf(),
        // a refused move fills no cell
        r is Err ==> filled_count(final(ctx).board_account.board) == filled_count(
            old(ctx).board_account.board,
        ),
        // only a registered player moves
        old(ctx).player != old(ctx).board_account.player_x && old(ctx).player != old(ctx).board_account.player_o ==> r is Err,
        // a move that leaves the session open hands the turn to the other player
        r is Ok && final(ctx).board_account.is_active && old(ctx).board_account.wf() ==> {
            &&& final(ctx).board_account.current_player != old(ctx).player
            &&& (final(ctx).board_account.current_player == old(ctx).board_account.player_x
                || final(ctx).board_account.current_player == old(ctx).board_account.player_o)
        },
        // a move that completes a line is a win, even when it also fills the board
        r is Ok && has_line(
            final(ctx).board_account.board,
            old(ctx).board_account.mark_of(old(ctx).player),
        ) ==> !final(ctx).board_account.is_active && final(ctx).board_account.winner_address
            == old(ctx).player,
{
    if position as usize >= BOARD_SIZE {
        return Err(TicTacError::InvalidPosition);
    }
    if !ctx.board_account.is_active {
        return Err(TicTacError::GameOver);
    }
    if !ctx.player.same(&ctx.board_account.current_player) {
        return Err(TicTacError::NotYourTurn);
    }
    if ctx.board_account.player_o.is_null_identity() {
        return Err(TicTacError::SecondPlayerNotRegistered);
    }
    if !ctx.board_account.current_player.same(&ctx.board_account.player_x)
        && !ctx.board_account.current_player.same(&ctx.board_account.player_o) {
        return Err(TicTacError::Unauthorised);
    }
    let index = position as usize;
    if ctx.board_account.board[index] != EMPTY {
        return Err(TicTacError::CellOccupied);
    }
    let mark = if ctx.player.same(&ctx.board_account.player_x) {
        PLAYER_X_MARK
    } else if ctx.player.same(&ctx.board_account.player_o) {
        PLAYER_O_MARK
    } else {
        return Err(TicTacError::Unauthorised);
    };
    let ghost o = ctx.board_account;
    ctx.board_account.board[index] = mark;
    let player = ctx.player;
    let game_id = ctx.board_account.game_id;
    let mut events: Vec<GameEvent> = Vec::new();
    events.push(GameEvent::Moved(MoveMade { player, position, game_id }));
    if check_winner(&ctx.board_account.board, mark) {
        ctx.board_account.winner_address = player;
        ctx.board_account.is_active = false;
        events.push(GameEvent::Won(GameWon { winner: player, game_id }));
        assert(events@ =~= seq![
            GameEvent::Moved(MoveMade { player, position, game_id }),
            GameEvent::Won(GameWon { winner: player, game_id }),
        ]);
    } else if is_board_full(&ctx.board_account.board) {
        ctx.board_account.winner_address = Identity::null();
        ctx.board_account.is_active = false;
        events.push(GameEvent::Drawn(GameDraw { game_id }));
        assert(events@ =~= seq![
            GameEvent::Moved(MoveMade { player, position, game_id }),
            GameEvent::Drawn(GameDraw { game_id }),
        ]);
    } else {
        ctx.board_account.current_player = if ctx.board_account.current_player.same(
            &ctx.board_account.player_x,
        ) {
            ctx.board_account.player_o
        } else {
            ctx.board_account.player_x
        };
        assert(events@ =~= seq![GameEvent::Moved(MoveMade { player, position, game_id })]);
        proof {
            let n = ctx.board_account;
            let other = if mark == PLAYER_X_MARK {
                PLAYER_O_MARK
            } else {
                PLAYER_X_MARK
            };
            assert(forall|i: int| 0 <= i < 9 && #[trigger] n.board[i] == other ==> o.board[i] == other);
            if o.wf() {
                assert(!has_line(n.board, other));
            }
        }
    }
    Ok(events)
}

/// Once a second player is registered, registering any other candidate is refused as
/// already registered.
pub proof fn lemma_register_once(b: Board, first: Identity, second: Identity)
    requires
        register_error(b, first) is None,
        !first.is_null(),
    ensures
        register_error(Board { player_o: first, ..b }, second) == Some(
            TicTacError::PlayerAlreadyRegistered,
        ),
{
}

} // verus!
