//! The match escrow: two players each stake the same amount, and the referee
//! releases the pool to the winner.
use vstd::prelude::*;
use crate::account::{transfer, transfer_spec, Account, Signer, SystemAccount, TransferError};
use crate::pubkey::{
    address_view, derived_at, program_address, seeds_view, try_find_program_address, Pubkey,
};

verus! {

/// Where a match stands. A match is created waiting, becomes active once both
/// players have deposited, and is completed by the referee's claim.
#[derive(Clone, Copy, Debug, PartialEq, Eq, Structural)]
pub enum GameState {
    WaitingForDeposits,
    Active,
    Completed,
}

impl Default for GameState {
    fn default() -> (r: GameState)
        ensures
            r == GameState::WaitingForDeposits,
    {
        GameState::WaitingForDeposits
    }
}

/// The record kept in a match's escrow account.
#[derive(Clone, Debug, PartialEq, Eq)]
pub struct GameAccount {
    pub game_id: String,
    /// The identity allowed to name the winner.
    pub referee: Pubkey,
    pub player_1: Pubkey,
    /// Empty until a second player deposits.
    pub player_2: Pubkey,
    /// What each player stakes.
    pub stake_amount: u64,
    pub p1_deposited: bool,
    pub p2_deposited: bool,
    pub state: GameState,
    pub winner: Pubkey,
}

impl Default for GameAccount {
    /// The record of an account that was allocated and not yet written.
    fn default() -> (r: GameAccount)
        ensures
            r.game_id@ == Seq::<char>::empty(),
            r.referee.unset(),
            r.player_1.unset(),
            r.player_2.unset(),
            r.stake_amount == 0,
            !r.p1_deposited,
            !r.p2_deposited,
            r.state == GameState::WaitingForDeposits,
            r.winner.unset(),
            r.wf(),
    {
        GameAccount {
            game_id: String::new(),
            referee: Pubkey::default(),
            player_1: Pubkey::default(),
            player_2: Pubkey::default(),
            stake_amount: 0,
            p1_deposited: false,
            p2_deposited: false,
            state: GameState::WaitingForDeposits,
            winner: Pubkey::default(),
        }
    }
}

impl GameAccount {
    /// The flags and the state agree: a waiting match lacks a deposit, an
    /// active or completed one has both.
    pub open spec fn wf(&self) -> bool {
        match self.state {
            GameState::WaitingForDeposits => !(self.p1_deposited && self.p2_deposited),
            GameState::Active => self.p1_deposited && self.p2_deposited,
            GameState::Completed => self.p1_deposited && self.p2_deposited,
        }
    }
}

/// The accounts `initialize_game` names: the new match account, the
/// creating player and the identity that will referee the match.
#[derive(Clone, Debug, PartialEq, Eq)]
pub struct InitializeGame {
    pub game_account: Account<GameAccount>,
    pub player: Signer,
    pub referee: Pubkey,
}

/// The accounts a stake deposit names: the match account and the player.
#[derive(Clone, Debug, PartialEq, Eq)]
pub struct Deposit {
    pub game_account: Account<GameAccount>,
    pub player: Signer,
}

/// The accounts a claim names: the match account, the referee and the
/// account that receives the pool.
#[derive(Clone, Debug, PartialEq, Eq)]
pub struct ClaimWinnings {
    pub game_account: Account<GameAccount>,
    pub referee: Signer,
    pub winner: SystemAccount,
}

/// Why an escrow operation was refused.
#[derive(Clone, Copy, Debug, PartialEq, Eq, Structural)]
pub enum ErrorCode {
    /// The signer is neither player and the second seat is taken.
    InvalidPlayer,
    /// The match is not active.
    InvalidState,
    /// The signer is not the match's referee.
    Unauthorized,
    /// The value underneath could not be moved.
    Transfer(TransferError),
}

/// The record as `initialize_game` writes it for `player`: the match is named
/// and priced, `referee` is its referee, `player` takes the first seat,
/// nobody has deposited, and the match waits. Second seat and winner stay as
/// they were.
pub open spec fn initialized(
    game: GameAccount,
    player: Pubkey,
    referee: Pubkey,
    game_id: String,
    stake_amount: u64,
) -> GameAccount {
    GameAccount {
        game_id,
        referee,
        player_1: player,
        player_2: game.player_2,
        stake_amount,
        p1_deposited: false,
        p2_deposited: false,
        state: GameState::WaitingForDeposits,
        winner: game.winner,
    }
}

/// Whether `player` may deposit into `game`: as the first player, as the
/// second, or when the second seat is still free.
pub open spec fn may_deposit(game: GameAccount, player: Pubkey) -> bool {
    player == game.player_1 || game.player_2.unset() || player == game.player_2
}

/// How `deposit` ends for `ctx`.
pub open spec fn deposit_result(ctx: Deposit) -> Result<(), ErrorCode> {
    if !may_deposit(ctx.game_account.data, ctx.player.key) {
        Err(ErrorCode::InvalidPlayer)
    } else {
        match transfer_spec(
            ctx.player.lamports,
            ctx.game_account.lamports,
            ctx.game_account.data.stake_amount,
        ) {
            Err(e) => Err(ErrorCode::Transfer(e)),
            Ok(_) => Ok(()),
        }
    }
}

/// The record after `player` has paid the stake: the first player's flag is
/// set, or else the second's, with `player` taking the second seat when it
/// was free; a waiting match becomes active when both flags are then set,
/// and a match that is active or completed stays so.
pub open spec fn staked(game: GameAccount, player: Pubkey) -> GameAccount {
    let first = player == game.player_1;
    let p1_deposited = first || game.p1_deposited;
    let p2_deposited = !first || game.p2_deposited;
    GameAccount {
        game_id: game.game_id,
        referee: game.referee,
        player_1: game.player_1,
        player_2: if !first && game.player_2.unset() {
            player
        } else {
            game.player_2
        },
        stake_amount: game.stake_amount,
        p1_deposited,
        p2_deposited,
        state: if p1_deposited && p2_deposited && game.state == GameState::WaitingForDeposits {
            GameState::Active
        } else {
            game.state
        },
        winner: game.winner,
    }
}

/// The accounts as `deposit` leaves them: unchanged when it fails, else with
/// the stake moved from the player into the pool and the record updated.
pub open spec fn after_deposit(ctx: Deposit) -> Deposit {
    if deposit_result(ctx) is Ok {
        Deposit {
            game_account: Account {
                key: ctx.game_account.key,
                lamports: (ctx.game_account.lamports + ctx.game_account.data.stake_amount) as u64,
                data: staked(ctx.game_account.data, ctx.player.key),
            },
            player: Signer {
                key: ctx.player.key,
                lamports: (ctx.player.lamports - ctx.game_account.data.stake_amount) as u64,
            },
        }
    } else {
        ctx
    }
}

/// How `claim_winnings` ends for `ctx`. The referee is checked before the
/// state.
pub open spec fn claim_result(ctx: ClaimWinnings) -> Result<(), ErrorCode> {
    if ctx.referee.key != ctx.game_account.data.referee {
        Err(ErrorCode::Unauthorized)
    } else if ctx.game_account.data.state != GameState::Active {
        Err(ErrorCode::InvalidState)
    } else {
        match transfer_spec(
            ctx.game_account.lamports,
            ctx.winner.lamports,
            ctx.game_account.lamports,
        ) {
            Err(e) => Err(ErrorCode::Transfer(e)),
            Ok(_) => Ok(()),
        }
    }
}

/// The record after the referee has named `winner`.
pub open spec fn completed(game: GameAccount, winner: Pubkey) -> GameAccount {
    GameAccount {
        game_id: game.game_id,
        referee: game.referee,
        player_1: game.player_1,
        player_2: game.player_2,
        stake_amount: game.stake_amount,
        p1_deposited: game.p1_deposited,
        p2_deposited: game.p2_deposited,
        state: GameState::Completed,
        winner,
    }
}

/// The accounts as `claim_winnings` leaves them: unchanged when it fails,
/// else with the whole pool moved to the receiving account, the match
/// completed and `winner` recorded.
pub open spec fn after_claim(ctx: ClaimWinnings, winner: Pubkey) -> ClaimWinnings {
    if claim_result(ctx) is Ok {
        ClaimWinnings {
            game_account: Account {
                key: ctx.game_account.key,
                lamports: 0,
                data: completed(ctx.game_account.data, winner),
            },
            referee: ctx.referee,
            winner: SystemAccount {
                key: ctx.winner.key,
                lamports: (ctx.winner.lamports + ctx.game_account.lamports) as u64,
            },
        }
    } else {
        ctx
    }
}

/// Writes a new match into the match account: names it `game_id`, sets the
/// stake, records the referee that `ctx` names, seats the signing player
/// first and leaves the match waiting with no deposit made.
/// Always succeeds: whether the account is new is for whoever allocates it.
pub fn initialize_game(ctx: &mut InitializeGame, game_id: String, stake_amount: u64) -> (r: Result<
    (),
    ErrorCode,
>)
    ensures
        r is Ok,
        final(ctx).game_account.data == initialized(
            old(ctx).game_account.data,
            old(ctx).player.key,
            old(ctx).referee,
            game_id,
            stake_amount,
        ),
        final(ctx).game_account.data.referee == old(ctx).referee,
        final(ctx).referee == old(ctx).referee,
        final(ctx).game_account.key == old(ctx).game_account.key,
        final(ctx).game_account.lamports == old(ctx).game_account.lamports,
        final(ctx).player == old(ctx).player,
        final(ctx).game_account.data.wf(),
{
    ctx.game_account.data.game_id = game_id;
    ctx.game_account.data.stake_amount = stake_amount;
    ctx.game_account.data.referee = ctx.referee;
    ctx.game_account.data.player_1 = ctx.player.key;
    ctx.game_account.data.p1_deposited = false;
    ctx.game_account.data.p2_deposited = false;
    ctx.game_account.data.state = GameState::WaitingForDeposits;
    Ok(())
}

/// Pays the signing player's stake into the pool of the match that `ctx`
/// holds. The first player's deposit sets the first flag; anyone else's sets
/// the second and takes the second seat when it is free. A waiting match
/// becomes active once both flags are set; the state never moves back.
///
/// Fails, changing nothing, with `InvalidPlayer` when the signer is neither
/// player and the second seat is taken, else when the stake cannot be moved.
/// A player who deposits again pays again. `_game_id` names the match for
/// `is_game_account`; it is not read here.
pub fn deposit(ctx: &mut Deposit, _game_id: String) -> (r: Result<(), ErrorCode>)
    ensures
        r == deposit_result(*old(ctx)),
        *final(ctx) == after_deposit(*old(ctx)),
        old(ctx).game_account.data.wf() ==> final(ctx).game_account.data.wf(),
        rank(old(ctx).game_account.data.state) <= rank(final(ctx).game_account.data.state),
{
    let player = ctx.player.key;
    let first = player == ctx.game_account.data.player_1;
    let free = ctx.game_account.data.player_2.is_unset();
    if !(first || free || player == ctx.game_account.data.player_2) {
        return Err(ErrorCode::InvalidPlayer);
    }
    let (paid, pool) = match transfer(
        ctx.player.lamports,
        ctx.game_account.lamports,
        ctx.game_account.data.stake_amount,
    ) {
        Ok(moved) => moved,
        Err(e) => {
            return Err(ErrorCode::Transfer(e));
        },
    };
    ctx.player.lamports = paid;
    ctx.game_account.lamports = pool;
    if first {
        ctx.game_account.data.p1_deposited = true;
    } else {
        if free {
            ctx.game_account.data.player_2 = player;
        }
        ctx.game_account.data.p2_deposited = true;
    }
    if ctx.game_account.data.p1_deposited && ctx.game_account.data.p2_deposited
        && ctx.game_account.data.state == GameState::WaitingForDeposits {
        ctx.game_account.data.state = GameState::Active;
    }
    Ok(())
}

/// Pays the whole pool of the match that `ctx` holds to the receiving
/// account, completes the match and records `winner`.
///
/// Fails, changing nothing, with `Unauthorized` when the signer is not the
/// match's referee, else with `InvalidState` when the match is not active,
/// else when the pool cannot be moved. `winner` is recorded as given: it need
/// not be a player, nor the address of the receiving account. `_game_id`
/// names the match for `is_game_account`; it is not read here.
pub fn claim_winnings(ctx: &mut ClaimWinnings, _game_id: String, winner: Pubkey) -> (r: Result<
    (),
    ErrorCode,
>)
    ensures
        r == claim_result(*old(ctx)),
        *final(ctx) == after_claim(*old(ctx), winner),
        r is Ok ==> old(ctx).game_account.data.state == GameState::Active && old(ctx).referee.key
            == old(ctx).game_account.data.referee && final(ctx).game_account.lamports == 0
            && final(ctx).game_account.data.state == GameState::Completed,
        old(ctx).game_account.data.wf() ==> final(ctx).game_account.data.wf(),
{
    if ctx.referee.key != ctx.game_account.data.referee {
        return Err(ErrorCode::Unauthorized);
    }
    if ctx.game_account.data.state != GameState::Active {
        return Err(ErrorCode::InvalidState);
    }
    let pot_balance = ctx.game_account.lamports;
    let (left, paid) = match transfer(pot_balance, ctx.winner.lamports, pot_balance) {
        Ok(moved) => moved,
        Err(e) => {
            return Err(ErrorCode::Transfer(e));
        },
    };
    ctx.game_account.lamports = left;
    ctx.winner.lamports = paid;
    ctx.game_account.data.state = GameState::Completed;
    ctx.game_account.data.winner = winner;
    Ok(())
}

/// The seeds of a match's escrow address: a fixed tag, then the bytes of the
/// match's name.
pub open spec fn game_account_seeds(game_id: Seq<char>) -> Seq<Seq<u8>> {
    seq![vstd::utf8::encode_utf8("game"@), vstd::utf8::encode_utf8(game_id)]
}

/// The address of the match `game_id` under the program `program_id`, with
/// its bump. A name longer than 32 bytes has no address.
pub fn game_account_address(program_id: &Pubkey, game_id: &str) -> (r: Option<(Pubkey, u8)>)
    ensures
        address_view(r) == program_address(game_account_seeds(game_id@), program_id@),
        vstd::utf8::encode_utf8(game_id@).len() > 32 ==> r is None,
{
    let mut seeds: Vec<Vec<u8>> = Vec::new();
    seeds.push("game".as_bytes_vec());
    seeds.push(game_id.as_bytes_vec());
    assert(seeds_view(seeds@) =~= game_account_seeds(game_id@));
    assert(seeds[1].len() == vstd::utf8::encode_utf8(game_id@).len());
    try_find_program_address(&seeds, program_id)
}

/// Whether `account` is the address of the match `game_id` under
/// `program_id`.
pub fn is_game_account(program_id: &Pubkey, game_id: &str, account: &Pubkey) -> (r: bool)
    ensures
        r == match program_address(game_account_seeds(game_id@), program_id@) {
            Some((address, _)) => address == account@,
            None => false,
        },
{
    let derived = game_account_address(program_id, game_id);
    proof {
        if let Some((address, _)) = derived {
            Pubkey::lemma_eq_by_bytes(address, *account);
        }
    }
    derived_at(&derived, account)
}

/// One operation on a match, with its accounts as they stand when the
/// operation is made.
pub enum EscrowOp {
    Deposit { player: Signer },
    Claim { referee: Signer, receiver: SystemAccount, winner: Pubkey },
}

/// Whether `op` succeeds on `game`.
pub open spec fn succeeds(game: Account<GameAccount>, op: EscrowOp) -> bool {
    match op {
        EscrowOp::Deposit { player } => deposit_result(Deposit { game_account: game, player })
            is Ok,
        EscrowOp::Claim { referee, receiver, winner } => claim_result(
            ClaimWinnings { game_account: game, referee, winner: receiver },
        ) is Ok,
    }
}

/// The match account after `op`.
pub open spec fn step(game: Account<GameAccount>, op: EscrowOp) -> Account<GameAccount> {
    match op {
        EscrowOp::Deposit { player } => after_deposit(
            Deposit { game_account: game, player },
        ).game_account,
        EscrowOp::Claim { referee, receiver, winner } => after_claim(
            ClaimWinnings { game_account: game, referee, winner: receiver },
            winner,
        ).game_account,
    }
}

/// The match account after the operations `ops`, made in order.
pub open spec fn run(game: Account<GameAccount>, ops: Seq<EscrowOp>) -> Account<GameAccount>
    decreases ops.len(),
{
    if ops.len() == 0 {
        game
    } else {
        step(run(game, ops.drop_last()), ops.last())
    }
}

/// How far a match has come: waiting, then active, then completed.
pub open spec fn rank(state: GameState) -> int {
    match state {
        GameState::WaitingForDeposits => 0,
        GameState::Active => 1,
        GameState::Completed => 2,
    }
}

/// No deposit and no claim sets the state of a match back: a match that is
/// active never waits again, and a completed match stays completed.
pub proof fn law_state_moves_forward(game: Account<GameAccount>, op: EscrowOp)
    ensures
        rank(game.data.state) <= rank(step(game, op).data.state),
        game.data.state == GameState::Completed ==> step(game, op).data.state
            == GameState::Completed,
{
}

/// Over any sequence of deposits and claims the state only moves forward,
/// from waiting to active to completed.
pub proof fn law_state_is_monotonic(game: Account<GameAccount>, ops: Seq<EscrowOp>, i: int)
    requires
        0 <= i <= ops.len(),
    ensures
        rank(game.data.state) <= rank(run(game, ops.take(i)).data.state),
        rank(run(game, ops.take(i)).data.state) <= rank(run(game, ops).data.state),
    decreases ops.len() - i,
{
    law_run_moves_forward(game, ops.take(i));
    if i < ops.len() {
        law_state_is_monotonic(game, ops, i + 1);
        assert(ops.take(i + 1).drop_last() =~= ops.take(i));
        law_state_moves_forward(run(game, ops.take(i)), ops[i]);
    } else {
        assert(ops.take(i) =~= ops);
    }
}

/// The state at the end of a sequence of deposits and claims is no earlier
/// than at its start.
pub proof fn law_run_moves_forward(game: Account<GameAccount>, ops: Seq<EscrowOp>)
    ensures
        rank(game.data.state) <= rank(run(game, ops).data.state),
    decreases ops.len(),
{
    if ops.len() > 0 {
        law_run_moves_forward(game, ops.drop_last());
        law_state_moves_forward(run(game, ops.drop_last()), ops.last());
    }
}

/// In a match that is not completed, the state is active exactly when both
/// players have deposited.
pub proof fn law_active_iff_both_deposited(game: GameAccount)
    requires
        game.wf(),
        game.state != GameState::Completed,
    ensures
        game.state == GameState::Active <==> game.p1_deposited && game.p2_deposited,
{
}

/// A new match has flags and state that agree, and every deposit and claim
/// keeps them so.
pub proof fn law_wf_is_kept(
    game: Account<GameAccount>,
    player: Pubkey,
    referee: Pubkey,
    game_id: String,
    stake_amount: u64,
    ops: Seq<EscrowOp>,
)
    ensures
        initialized(game.data, player, referee, game_id, stake_amount).wf(),
        game.data.wf() ==> run(game, ops).data.wf(),
    decreases ops.len(),
{
    if ops.len() > 0 {
        law_wf_is_kept(game, player, referee, game_id, stake_amount, ops.drop_last());
    }
}

/// A claim succeeds only on an active match and only for the match's
/// referee; when it succeeds the pool is empty, the receiving account holds
/// what the pool held, the match is completed and the winner is recorded.
pub proof fn law_claim(ctx: ClaimWinnings, winner: Pubkey)
    ensures
        claim_result(ctx) is Ok ==> {
            &&& ctx.game_account.data.state == GameState::Active
            &&& ctx.referee.key == ctx.game_account.data.referee
            &&& after_claim(ctx, winner).game_account.lamports == 0
            &&& after_claim(ctx, winner).winner.lamports == ctx.winner.lamports
                + ctx.game_account.lamports
            &&& after_claim(ctx, winner).game_account.data.state == GameState::Completed
            &&& after_claim(ctx, winner).game_account.data.winner == winner
        },
        claim_result(ctx) is Err ==> after_claim(ctx, winner) == ctx,
        ctx.referee.key != ctx.game_account.data.referee ==> claim_result(ctx) == Err::<
            (),
            ErrorCode,
        >(ErrorCode::Unauthorized),
{
}

/// When the creator and a second player each deposit once into a new match
/// with an empty second seat, the match becomes active with the second
/// player seated and the pool grown by twice the stake.
pub proof fn law_two_deposits_activate(game: Account<GameAccount>, first: Signer, second: Signer)
    requires
        game.data.state == GameState::WaitingForDeposits,
        !game.data.p1_deposited,
        !game.data.p2_deposited,
        game.data.player_1 == first.key,
        game.data.player_2.unset(),
        second.key != first.key,
        first.lamports >= game.data.stake_amount,
        second.lamports >= game.data.stake_amount,
        game.lamports + 2 * game.data.stake_amount <= u64::MAX,
    ensures
        ({
            let ops = seq![
                EscrowOp::Deposit { player: first },
                EscrowOp::Deposit { player: second },
            ];
            let end = run(game, ops);
            &&& end.data.state == GameState::Active
            &&& end.data.player_2 == second.key
            &&& end.lamports == game.lamports + 2 * game.data.stake_amount
        }),
{
    let a = EscrowOp::Deposit { player: first };
    let b = EscrowOp::Deposit { player: second };
    let ops = seq![a, b];
    assert(ops.drop_last() =~= seq![a]);
    assert(ops.drop_last().drop_last() =~= Seq::<EscrowOp>::empty());
    assert(ops.last() == b);
    assert(ops.drop_last().last() == a);
    reveal_with_fuel(run, 3);
}

/// In any sequence of deposits and claims on a match, every claim signed by
/// anyone but the match's referee fails and changes nothing.
pub proof fn law_only_the_referee_ever_claims(
    game: Account<GameAccount>,
    ops: Seq<EscrowOp>,
    i: int,
)
    requires
        0 <= i < ops.len(),
        ops[i] matches EscrowOp::Claim { referee, .. } && referee.key != game.data.referee,
    ensures
        !succeeds(run(game, ops.take(i)), ops[i]),
        run(game, ops.take(i + 1)) == run(game, ops.take(i)),
{
    law_terms_are_fixed(game, ops.take(i));
    assert(ops.take(i + 1).drop_last() =~= ops.take(i));
    assert(ops.take(i + 1).last() == ops[i]);
}

/// A failed operation leaves the match account as it was.
pub proof fn law_failure_changes_nothing(game: Account<GameAccount>, op: EscrowOp)
    requires
        !succeeds(game, op),
    ensures
        step(game, op) == game,
{
}

/// No operation makes or loses value: what the match and the other party
/// hold together is the same before and after.
pub proof fn law_value_is_conserved(deposit: Deposit, claim: ClaimWinnings, winner: Pubkey)
    ensures
        after_deposit(deposit).game_account.lamports + after_deposit(deposit).player.lamports
            == deposit.game_account.lamports + deposit.player.lamports,
        after_claim(claim, winner).game_account.lamports + after_claim(claim, winner).winner.lamports
            == claim.game_account.lamports + claim.winner.lamports,
        after_claim(claim, winner).referee == claim.referee,
{
}

/// No deposit or claim changes the name, the stake, the referee or the first
/// player of a match, nor a second player once seated.
pub proof fn law_terms_are_fixed(game: Account<GameAccount>, ops: Seq<EscrowOp>)
    ensures
        run(game, ops).key == game.key,
        run(game, ops).data.game_id == game.data.game_id,
        run(game, ops).data.stake_amount == game.data.stake_amount,
        run(game, ops).data.referee == game.data.referee,
        run(game, ops).data.player_1 == game.data.player_1,
        !game.data.player_2.unset() ==> run(game, ops).data.player_2 == game.data.player_2,
    decreases ops.len(),
{
    if ops.len() > 0 {
        law_terms_are_fixed(game, ops.drop_last());
    }
}

} // verus!
