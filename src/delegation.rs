use vstd::bytes::{spec_u64_to_le_bytes, u64_to_le_bytes};
use vstd::prelude::*;

use crate::game::{Board, TicTacError};
use crate::identity::{lemma_same_bytes, Identity};

verus! {

/// Which execution context may apply changes to a session record.
#[derive(Clone, Copy, Debug, PartialEq, Eq)]
pub enum Custody {
    /// The durable ledger holds the record.
    Ledger,
    /// The fast layer holds the record, pinned to `validator` if one was named.
    FastLayer { validator: Option<Identity> },
}

/// A session record together with its custody.
#[derive(Clone, Copy, Debug, PartialEq, Eq)]
pub struct SessionAccount {
    /// The record's derived address.
    pub address: Identity,
    /// The session as the context in custody sees it.
    pub data: Board,
    /// The durable ledger's copy: frozen while the fast layer holds the record.
    pub committed: Board,
    pub custody: Custody,
}

impl SessionAccount {
    /// While the ledger holds the record, its copy is the record.
    pub open spec fn wf(self) -> bool {
        self.custody == Custody::Ledger ==> self.committed == self.data
    }
}

/// The execution context that processes an operation.
#[derive(Clone, Copy, Debug, PartialEq, Eq)]
pub enum ExecutionContext {
    Ledger,
    FastLayer,
}

/// `context` may apply changes to a record in `custody`: only the context that holds it.
pub open spec fn custody_allows(custody: Custody, context: ExecutionContext) -> bool {
    match custody {
        Custody::Ledger => context == ExecutionContext::Ledger,
        Custody::FastLayer { .. } => context == ExecutionContext::FastLayer,
    }
}

/// Refuses, as `Unauthorised`, a change to the record by a context that does not hold it:
/// while the fast layer holds a record the ledger treats it as frozen.
pub fn check_custody(account: &SessionAccount, context: ExecutionContext) -> (r: Result<
    (),
    TicTacError,
>)
    ensures
        custody_allows(account.custody, context) ==> r == Ok::<(), TicTacError>(()),
        !custody_allows(account.custody, context) ==> r == Err::<(), TicTacError>(
            TicTacError::Unauthorised,
        ),
{
    let allowed = match account.custody {
        Custody::Ledger => match context {
            ExecutionContext::Ledger => true,
            ExecutionContext::FastLayer => false,
        },
        Custody::FastLayer { .. } => match context {
            ExecutionContext::Ledger => false,
            ExecutionContext::FastLayer => true,
        },
    };
    if allowed {
        Ok(())
    } else {
        Err(TicTacError::Unauthorised)
    }
}

/// The records that delegation reads and writes.
pub struct DelegateBoard {
    pub payer: Identity,
    /// The account handed over for delegation.
    pub pda: Identity,
    /// The program that owns session records.
    pub program_id: Identity,
    pub board_account: SessionAccount,
}

/// The records that committing back and undelegating reads and writes.
pub struct UndelegateAndCommit {
    pub payer: Identity,
    /// The program that owns session records.
    pub program_id: Identity,
    pub board_account: SessionAccount,
}

/// The address that the address-derivation service gives for `seeds` under `program_id`,
/// if it finds one.
pub uninterp spec fn program_address(seeds: Seq<Seq<u8>>, program_id: Seq<u8>) -> Option<Seq<u8>>;

/// The first seed of every session address.
pub open spec fn board_seed() -> Seq<u8> {
    seq![98u8, 111u8, 97u8, 114u8, 100u8]
}

/// The seeds of the address of session `game_id` of `owner`.
pub open spec fn session_seeds(owner: Identity, game_id: u64) -> Seq<Seq<u8>> {
    seq![board_seed(), owner.bytes@, spec_u64_to_le_bytes(game_id)]
}

/// The expected address of session `game_id` of `owner`.
pub open spec fn session_address(program_id: Identity, owner: Identity, game_id: u64) -> Option<
    Seq<u8>,
> {
    program_address(session_seeds(owner, game_id), program_id.bytes@)
}

/// `derived`, as handed over, is the byte view of an optional address.
pub open spec fn address_view(derived: Option<Identity>) -> Option<Seq<u8>> {
    match derived {
        Some(a) => Some(a.bytes@),
        None => None,
    }
}

/// The record sits at the address derived from `owner` and its id, as `derived` gives it.
pub open spec fn at_address(acct: SessionAccount, derived: Option<Identity>) -> bool {
    derived == Some(acct.address)
}

/// Delegation by the payer is allowed: the payer created the session, and the account
/// handed over is the record at its derived address.
pub open spec fn may_delegate(ctx: DelegateBoard, derived: Option<Identity>) -> bool {
    &&& ctx.payer == ctx.board_account.data.player_x
    &&& ctx.pda == ctx.board_account.address
    &&& at_address(ctx.board_account, derived)
}

/// The record after delegation to the fast layer: the ledger's copy is frozen as it is.
/// A record that the fast layer already holds stays as it is.
pub open spec fn delegated(a: SessionAccount, validator: Option<Identity>) -> SessionAccount {
    match a.custody {
        Custody::Ledger => SessionAccount {
            committed: a.data,
            custody: Custody::FastLayer { validator },
            ..a
        },
        Custody::FastLayer { .. } => a,
    }
}

/// The record after its fast-layer state is committed and custody returns to the ledger.
/// A record that the ledger already holds stays as it is.
pub open spec fn undelegated(a: SessionAccount) -> SessionAccount {
    match a.custody {
        Custody::Ledger => a,
        Custody::FastLayer { .. } => SessionAccount {
            committed: a.data,
            custody: Custody::Ledger,
            ..a
        },
    }
}

/// Relies on `Pubkey::try_find_program_address` of anchor-lang: the derived address of
/// `seeds` under `program_id`, or none where no bump seed gives one.
#[verifier::external_body]
fn find_program_address(seeds: &Vec<Vec<u8>>, program_id: &Identity) -> (r: Option<Identity>)
    ensures
        address_view(r) == program_address(seeds.deep_view(), program_id.bytes@),
{
    let slices: Vec<&[u8]> = seeds.iter().map(|s| s.as_slice()).collect();
    let program = anchor_lang::prelude::Pubkey::new_from_array(program_id.bytes);
    anchor_lang::prelude::Pubkey::try_find_program_address(&slices, &program).map(
        |(address, _bump)| Identity { bytes: address.to_bytes() },
    )
}

/// The seeds of the address of session `game_id` of `owner`.
pub fn board_seeds(owner: &Identity, game_id: u64) -> (r: Vec<Vec<u8>>)
    ensures
        r.deep_view() == session_seeds(*owner, game_id),
{
    let prefix: Vec<u8> = vec![98u8, 111u8, 97u8, 114u8, 100u8];
    let mut key: Vec<u8> = Vec::new();
    let mut i: usize = 0;
    while i < 32
        invariant
            0 <= i <= 32,
            key@ == owner.bytes@.subrange(0, i as int),
        decreases 32 - i,
    {
        key.push(owner.bytes[i]);
        i = i + 1;
    }
    let id = u64_to_le_bytes(game_id);
    assert(prefix.deep_view() =~= board_seed());
    assert(key.deep_view() =~= owner.bytes@);
    assert(id.deep_view() =~= spec_u64_to_le_bytes(game_id));
    let mut r: Vec<Vec<u8>> = Vec::new();
    r.push(prefix);
    r.push(key);
    r.push(id);
    assert(r.deep_view() =~= session_seeds(*owner, game_id));
    r
}

/// The expected address of session `game_id` of `owner`, from the address-derivation
/// service.
pub fn derive_session_address(program_id: &Identity, owner: &Identity, game_id: u64) -> (r:
    Option<Identity>)
    ensures
        address_view(r) == session_address(*program_id, *owner, game_id),
{
    let seeds = board_seeds(owner, game_id);
    find_program_address(&seeds, program_id)
}

/// Hands custody of the record to the fast layer, given the record's expected address
/// `derived`. Refused as `Unauthorised` unless the payer created the session and the account
/// handed over is the record at that address.
pub fn delegate_at(ctx: &mut DelegateBoard, validator: Option<Identity>, derived: Option<Identity>) -> (r:
    Result<(), TicTacError>)
    ensures
        final(ctx).payer == old(ctx).payer,
        final(ctx).pda == old(ctx).pda,
        final(ctx).program_id == old(ctx).program_id,
        may_delegate(*old(ctx), derived) ==> r == Ok::<(), TicTacError>(()) && final(ctx).board_account == delegated(old(ctx).board_account, validator),
        !may_delegate(*old(ctx), derived) ==> r == Err::<(), TicTacError>(TicTacError::Unauthorised)
            && final(ctx).board_account == old(ctx).board_account,
        old(ctx).board_account.wf() ==> final(ctx).board_account.wf(),
{
    let allowed = match derived {
        Some(a) => ctx.payer.same(&ctx.board_account.data.player_x) && ctx.pda.same(
            &ctx.board_account.address,
        ) && a.same(&ctx.board_account.address),
        None => false,
    };
    if !allowed {
        return Err(TicTacError::Unauthorised);
    }
    match ctx.board_account.custody {
        Custody::Ledger => {
            ctx.board_account.committed = ctx.board_account.data;
            ctx.board_account.custody = Custody::FastLayer { validator };
        },
        Custody::FastLayer { .. } => {},
    }
    Ok(())
}

/// Hands custody of the session record to the fast layer, optionally pinned to
/// `validator`.
pub fn delegate(ctx: &mut DelegateBoard, validator: Option<Identity>) -> (r: Result<(), TicTacError>)
    ensures
        final(ctx).payer == old(ctx).payer,
        final(ctx).pda == old(ctx).pda,
        final(ctx).program_id == old(ctx).program_id,
        ({
            let expected = session_address(
                old(ctx).program_id,
                old(ctx).payer,
                old(ctx).board_account.data.game_id,
            );
            let allowed = old(ctx).payer == old(ctx).board_account.data.player_x && old(ctx).pda
                == old(ctx).board_account.address && expected == Some(
                old(ctx).board_account.address.bytes@,
            );
            &&& allowed ==> r == Ok::<(), TicTacError>(()) && final(ctx).board_account
                == delegated(old(ctx).board_account, validator)
            &&& !allowed ==> r == Err::<(), TicTacError>(TicTacError::Unauthorised) && final(ctx).board_account == old(ctx).board_account
        }),
        old(ctx).board_account.wf() ==> final(ctx).board_account.wf(),
{
    let derived = derive_session_address(
        &ctx.program_id,
        &ctx.payer,
        ctx.board_account.data.game_id,
    );
    proof {
        if derived is Some {
            lemma_same_bytes(derived->Some_0, ctx.board_account.address);
        }
    }
    delegate_at(ctx, validator, derived)
}

/// Commits the fast layer's state of the record to the ledger and returns custody to the
/// ledger, in one step, given the record's expected address `derived`. Refused as
/// `Unauthorised` unless the record sits at the address derived from the payer.
pub fn undelegate_at(ctx: &mut UndelegateAndCommit, derived: Option<Identity>) -> (r: Result<
    (),
    TicTacError,
>)
    ensures
        final(ctx).payer == old(ctx).payer,
        final(ctx).program_id == old(ctx).program_id,
        at_address(old(ctx).board_account, derived) ==> r == Ok::<(), TicTacError>(()) && final(ctx).board_account == undelegated(old(ctx).board_account),
        !at_address(old(ctx).board_account, derived) ==> r == Err::<(), TicTacError>(
            TicTacError::Unauthorised,
        ) && final(ctx).board_account == old(ctx).board_account,
        old(ctx).board_account.wf() ==> final(ctx).board_account.wf(),
{
    let allowed = match derived {
        Some(a) => a.same(&ctx.board_account.address),
        None => false,
    };
    if !allowed {
        return Err(TicTacError::Unauthorised);
    }
    match ctx.board_account.custody {
        Custody::Ledger => {},
        Custody::FastLayer { .. } => {
            ctx.board_account.committed = ctx.board_account.data;
            ctx.board_account.custody = Custody::Ledger;
        },
    }
    Ok(())
}

/// Commits the fast layer's state of the session record to the ledger and returns custody
/// to the ledger, in one step.
pub fn undelegate(ctx: &mut UndelegateAndCommit) -> (r: Result<(), TicTacError>)
    ensures
        final(ctx).payer == old(ctx).payer,
        final(ctx).program_id == old(ctx).program_id,
        ({
            let allowed = session_address(
                old(ctx).program_id,
                old(ctx).payer,
                old(ctx).board_account.data.game_id,
            ) == Some(old(ctx).board_account.address.bytes@);
            &&& allowed ==> r == Ok::<(), TicTacError>(()) && final(ctx).board_account
                == undelegated(old(ctx).board_account)
            &&& !allowed ==> r == Err::<(), TicTacError>(TicTacError::Unauthorised) && final(
                ctx).board_account == old(ctx).board_account
        }),
        old(ctx).board_account.wf() ==> final(ctx).board_account.wf(),
{
    let derived = derive_session_address(
        &ctx.program_id,
        &ctx.payer,
        ctx.board_account.data.game_id,
    );
    proof {
        if derived is Some {
            lemma_same_bytes(derived->Some_0, ctx.board_account.address);
        }
    }
    undelegate_at(ctx, derived)
}

/// Delegating a record and then committing it back with no move in between: where the
/// delegation by `payer` succeeds, the commit by the same payer succeeds too, and leaves
/// the record, and its custody, as they were before the delegation.
pub proof fn lemma_delegate_round_trip(
    account: SessionAccount,
    payer: Identity,
    pda: Identity,
    program_id: Identity,
    validator: Option<Identity>,
)
    requires
        account.wf(),
        account.custody == Custody::Ledger,
        payer == account.data.player_x,
        pda == account.address,
        session_address(program_id, payer, account.data.game_id) == Some(account.address.bytes@),
    ensures
        ({
            let moved = delegated(account, validator);
            &&& session_address(program_id, payer, moved.data.game_id) == Some(
                moved.address.bytes@,
            )
            &&& undelegated(moved) == account
        }),
{
}

} // verus!
