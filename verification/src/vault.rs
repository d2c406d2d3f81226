//! The vault: one account per user, credited by deposits and debited only by
//! the identity recorded as its authority.
use vstd::prelude::*;
use crate::account::{transfer, transfer_spec, Account, Signer, TransferError};
use crate::pubkey::{
    address_view, derived_at, program_address, seeds_view, try_find_program_address, Pubkey,
};

verus! {

/// The record kept in a user's vault account.
#[derive(Clone, Copy, Debug, PartialEq, Eq)]
pub struct UserAccount {
    /// Deposits made so far, less what was withdrawn.
    pub balance: u64,
    /// The only identity allowed to withdraw: the first depositor. Empty
    /// until then, and never rewritten afterwards.
    pub authority: Pubkey,
}

impl Default for UserAccount {
    /// The record of a vault nobody has deposited into yet.
    fn default() -> (r: UserAccount)
        ensures
            r.balance == 0,
            r.authority.unset(),
    {
        UserAccount { balance: 0, authority: Pubkey::default() }
    }
}

/// The accounts `initialize` names: none.
#[derive(Clone, Copy, Debug, PartialEq, Eq)]
pub struct Initialize {}

/// The accounts a deposit names: the paying user and that user's vault.
#[derive(Clone, Debug, PartialEq, Eq)]
pub struct Deposit {
    pub user: Signer,
    pub user_account: Account<UserAccount>,
}

/// The accounts a withdrawal names: the user asking and the vault drawn from.
#[derive(Clone, Debug, PartialEq, Eq)]
pub struct Withdraw {
    pub user: Signer,
    pub user_account: Account<UserAccount>,
}

/// Why a vault operation was refused.
#[derive(Clone, Copy, Debug, PartialEq, Eq, Structural)]
pub enum ErrorCode {
    /// The vault's balance is smaller than the amount asked for.
    InsufficientFunds,
    /// The signer is not the vault's authority.
    Unauthorized,
    /// The balance would grow past what a `u64` can count.
    BalanceOverflow,
    /// The value underneath could not be moved.
    Transfer(TransferError),
}

/// How `deposit` ends for `ctx` and `amount`.
pub open spec fn deposit_result(ctx: Deposit, amount: u64) -> Result<(), ErrorCode> {
    match transfer_spec(ctx.user.lamports, ctx.user_account.lamports, amount) {
        Err(e) => Err(ErrorCode::Transfer(e)),
        Ok(_) => if ctx.user_account.data.balance + amount > u64::MAX {
            Err(ErrorCode::BalanceOverflow)
        } else {
            Ok(())
        },
    }
}

/// The authority after `user` has deposited: `user` where none was set, else
/// the one that was.
pub open spec fn authority_after_deposit(authority: Pubkey, user: Pubkey) -> Pubkey {
    if authority.unset() {
        user
    } else {
        authority
    }
}

/// The accounts as `deposit` leaves them: unchanged when it fails, else with
/// `amount` moved from the user into the vault, the balance raised by it and
/// the user recorded as authority where the vault had none.
pub open spec fn after_deposit(ctx: Deposit, amount: u64) -> Deposit {
    if deposit_result(ctx, amount) is Ok {
        Deposit {
            user: Signer { key: ctx.user.key, lamports: (ctx.user.lamports - amount) as u64 },
            user_account: Account {
                key: ctx.user_account.key,
                lamports: (ctx.user_account.lamports + amount) as u64,
                data: UserAccount {
                    balance: (ctx.user_account.data.balance + amount) as u64,
                    authority: authority_after_deposit(
                        ctx.user_account.data.authority,
                        ctx.user.key,
                    ),
                },
            },
        }
    } else {
        ctx
    }
}

/// How `withdraw` ends for `ctx` and `amount`. The checks come in this order:
/// the signer, the balance, then the movement of value.
pub open spec fn withdraw_result(ctx: Withdraw, amount: u64) -> Result<(), ErrorCode> {
    if ctx.user.key != ctx.user_account.data.authority {
        Err(ErrorCode::Unauthorized)
    } else if ctx.user_account.data.balance < amount {
        Err(ErrorCode::InsufficientFunds)
    } else {
        match transfer_spec(ctx.user_account.lamports, ctx.user.lamports, amount) {
            Err(e) => Err(ErrorCode::Transfer(e)),
            Ok(_) => Ok(()),
        }
    }
}

/// The accounts as `withdraw` leaves them: unchanged when it fails, else with
/// `amount` moved from the vault to the user and the balance lowered by it.
pub open spec fn after_withdraw(ctx: Withdraw, amount: u64) -> Withdraw {
    if withdraw_result(ctx, amount) is Ok {
        Withdraw {
            user: Signer { key: ctx.user.key, lamports: (ctx.user.lamports + amount) as u64 },
            user_account: Account {
                key: ctx.user_account.key,
                lamports: (ctx.user_account.lamports - amount) as u64,
                data: UserAccount {
                    balance: (ctx.user_account.data.balance - amount) as u64,
                    authority: ctx.user_account.data.authority,
                },
            },
        }
    } else {
        ctx
    }
}

/// Does nothing and succeeds.
pub fn initialize(_ctx: &Initialize) -> (r: Result<(), ErrorCode>)
    ensures
        r is Ok,
{
    Ok(())
}

/// Moves `amount` from the user into the vault and adds it to the recorded
/// balance. The first depositor becomes the vault's authority; a later
/// deposit, whoever makes it, leaves the authority as it is.
///
/// Fails, changing nothing, when the user holds less than `amount` or when a
/// holding or the balance would overflow.
pub fn deposit(ctx: &mut Deposit, amount: u64) -> (r: Result<(), ErrorCode>)
    ensures
        r == deposit_result(*old(ctx), amount),
        *final(ctx) == after_deposit(*old(ctx), amount),
        !old(ctx).user_account.data.authority.unset() ==> final(ctx).user_account.data.authority
            == old(ctx).user_account.data.authority,
{
    let (paid, held) = match transfer(ctx.user.lamports, ctx.user_account.lamports, amount) {
        Ok(moved) => moved,
        Err(e) => {
            return Err(ErrorCode::Transfer(e));
        },
    };
    let balance = match ctx.user_account.data.balance.checked_add(amount) {
        Some(b) => b,
        None => {
            return Err(ErrorCode::BalanceOverflow);
        },
    };
    ctx.user.lamports = paid;
    ctx.user_account.lamports = held;
    ctx.user_account.data.balance = balance;
    if ctx.user_account.data.authority.is_unset() {
        ctx.user_account.data.authority = ctx.user.key;
    }
    Ok(())
}

/// Moves `amount` from the vault back to the user and lowers the recorded
/// balance by it.
///
/// Fails, changing nothing, with `Unauthorized` when the signer is not the
/// vault's authority, else with `InsufficientFunds` when the balance is
/// smaller than `amount`, else when the value cannot be moved.
pub fn withdraw(ctx: &mut Withdraw, amount: u64) -> (r: Result<(), ErrorCode>)
    ensures
        r == withdraw_result(*old(ctx), amount),
        *final(ctx) == after_withdraw(*old(ctx), amount),
        old(ctx).user.key != old(ctx).user_account.data.authority ==> r == Err::<(), ErrorCode>(
            ErrorCode::Unauthorized,
        ) && *final(ctx) == *old(ctx),
        r is Ok ==> amount <= old(ctx).user_account.data.balance,
{
    if ctx.user.key != ctx.user_account.data.authority {
        return Err(ErrorCode::Unauthorized);
    }
    if ctx.user_account.data.balance < amount {
        return Err(ErrorCode::InsufficientFunds);
    }
    let (held, paid) = match transfer(ctx.user_account.lamports, ctx.user.lamports, amount) {
        Ok(moved) => moved,
        Err(e) => {
            return Err(ErrorCode::Transfer(e));
        },
    };
    ctx.user_account.lamports = held;
    ctx.user.lamports = paid;
    ctx.user_account.data.balance = ctx.user_account.data.balance - amount;
    Ok(())
}

/// The seeds of a user's vault address: a fixed tag, then the user's bytes.
pub open spec fn user_account_seeds(user: Pubkey) -> Seq<Seq<u8>> {
    seq![vstd::utf8::encode_utf8("user-stats"@), user@]
}

/// The address of `user`'s vault under the program `program_id`, with its
/// bump.
pub fn user_account_address(program_id: &Pubkey, user: &Pubkey) -> (r: Option<(Pubkey, u8)>)
    ensures
        address_view(r) == program_address(user_account_seeds(*user), program_id@),
{
    let mut seeds: Vec<Vec<u8>> = Vec::new();
    seeds.push("user-stats".as_bytes_vec());
    seeds.push(user.to_vec());
    assert(seeds_view(seeds@) =~= user_account_seeds(*user));
    try_find_program_address(&seeds, program_id)
}

/// Whether `account` is the address of `user`'s vault under `program_id`.
pub fn is_user_account(program_id: &Pubkey, user: &Pubkey, account: &Pubkey) -> (r: bool)
    ensures
        r == match program_address(user_account_seeds(*user), program_id@) {
            Some((address, _)) => address == account@,
            None => false,
        },
{
    let derived = user_account_address(program_id, user);
    proof {
        if let Some((address, _)) = derived {
            Pubkey::lemma_eq_by_bytes(address, *account);
        }
    }
    derived_at(&derived, account)
}

/// One operation on a vault, with its signer as the signer stands when the
/// operation is made.
pub enum VaultOp {
    Deposit { user: Signer, amount: u64 },
    Withdraw { user: Signer, amount: u64 },
}

/// Whether `op` succeeds on `vault`.
pub open spec fn succeeds(vault: Account<UserAccount>, op: VaultOp) -> bool {
    match op {
        VaultOp::Deposit { user, amount } => deposit_result(
            Deposit { user, user_account: vault },
            amount,
        ) is Ok,
        VaultOp::Withdraw { user, amount } => withdraw_result(
            Withdraw { user, user_account: vault },
            amount,
        ) is Ok,
    }
}

/// The vault after `op`.
pub open spec fn step(vault: Account<UserAccount>, op: VaultOp) -> Account<UserAccount> {
    match op {
        VaultOp::Deposit { user, amount } => after_deposit(
            Deposit { user, user_account: vault },
            amount,
        ).user_account,
        VaultOp::Withdraw { user, amount } => after_withdraw(
            Withdraw { user, user_account: vault },
            amount,
        ).user_account,
    }
}

/// The vault after the operations `ops`, made in order.
pub open spec fn run(vault: Account<UserAccount>, ops: Seq<VaultOp>) -> Account<UserAccount>
    decreases ops.len(),
{
    if ops.len() == 0 {
        vault
    } else {
        step(run(vault, ops.drop_last()), ops.last())
    }
}

/// The sum of the amounts of the deposits among `ops` that succeed.
pub open spec fn deposited(vault: Account<UserAccount>, ops: Seq<VaultOp>) -> int
    decreases ops.len(),
{
    if ops.len() == 0 {
        0
    } else {
        let before = run(vault, ops.drop_last());
        deposited(vault, ops.drop_last()) + match ops.last() {
            VaultOp::Deposit { user, amount } => if succeeds(before, ops.last()) {
                amount as int
            } else {
                0
            },
            VaultOp::Withdraw { .. } => 0,
        }
    }
}

/// The sum of the amounts of the withdrawals among `ops` that succeed.
pub open spec fn withdrawn(vault: Account<UserAccount>, ops: Seq<VaultOp>) -> int
    decreases ops.len(),
{
    if ops.len() == 0 {
        0
    } else {
        let before = run(vault, ops.drop_last());
        withdrawn(vault, ops.drop_last()) + match ops.last() {
            VaultOp::Deposit { .. } => 0,
            VaultOp::Withdraw { user, amount } => if succeeds(before, ops.last()) {
                amount as int
            } else {
                0
            },
        }
    }
}

/// After any sequence of deposits and withdrawals the balance is what it was,
/// plus the deposits that succeeded, less the withdrawals that succeeded; so
/// the withdrawals never take out more than was there.
pub proof fn law_balance_is_net(vault: Account<UserAccount>, ops: Seq<VaultOp>)
    ensures
        run(vault, ops).data.balance == vault.data.balance + deposited(vault, ops) - withdrawn(
            vault,
            ops,
        ),
        withdrawn(vault, ops) <= vault.data.balance + deposited(vault, ops),
    decreases ops.len(),
{
    if ops.len() > 0 {
        law_balance_is_net(vault, ops.drop_last());
    }
}

/// A withdrawal signed by anyone but the vault's authority fails and changes
/// neither the balance nor the authority, nor anything else.
pub proof fn law_only_authority_withdraws(ctx: Withdraw, amount: u64)
    requires
        ctx.user.key != ctx.user_account.data.authority,
    ensures
        withdraw_result(ctx, amount) == Err::<(), ErrorCode>(ErrorCode::Unauthorized),
        after_withdraw(ctx, amount) == ctx,
{
}

/// A failed operation leaves the vault as it was.
pub proof fn law_failure_changes_nothing(vault: Account<UserAccount>, op: VaultOp)
    requires
        !succeeds(vault, op),
    ensures
        step(vault, op) == vault,
{
}

/// No operation makes or loses value: what the signer and the vault hold
/// together is the same before and after.
pub proof fn law_value_is_conserved(user: Signer, vault: Account<UserAccount>, amount: u64)
    ensures
        ({
            let after = after_deposit(Deposit { user, user_account: vault }, amount);
            after.user.lamports + after.user_account.lamports == user.lamports + vault.lamports
        }),
        ({
            let after = after_withdraw(Withdraw { user, user_account: vault }, amount);
            after.user.lamports + after.user_account.lamports == user.lamports + vault.lamports
        }),
{
}

/// A vault that holds at least its recorded balance still does after any
/// sequence of deposits and withdrawals.
pub proof fn law_vault_stays_covered(vault: Account<UserAccount>, ops: Seq<VaultOp>)
    requires
        vault.data.balance <= vault.lamports,
    ensures
        run(vault, ops).data.balance <= run(vault, ops).lamports,
    decreases ops.len(),
{
    if ops.len() > 0 {
        law_vault_stays_covered(vault, ops.drop_last());
    }
}

/// The first successful depositor becomes the authority, and no operation
/// changes an authority that is set. The address of the vault never changes.
pub proof fn law_authority_is_the_first_depositor(vault: Account<UserAccount>, op: VaultOp)
    ensures
        step(vault, op).key == vault.key,
        !vault.data.authority.unset() ==> step(vault, op).data.authority == vault.data.authority,
        vault.data.authority.unset() ==> step(vault, op).data.authority == match op {
            VaultOp::Deposit { user, amount } => if succeeds(vault, op) {
                user.key
            } else {
                vault.data.authority
            },
            VaultOp::Withdraw { .. } => vault.data.authority,
        },
{
}

/// Once set, the authority stays the same through any sequence of deposits
/// and withdrawals, whoever signs them.
pub proof fn law_authority_is_kept(vault: Account<UserAccount>, ops: Seq<VaultOp>)
    requires
        !vault.data.authority.unset(),
    ensures
        run(vault, ops).data.authority == vault.data.authority,
        run(vault, ops).key == vault.key,
    decreases ops.len(),
{
    if ops.len() > 0 {
        law_authority_is_kept(vault, ops.drop_last());
    }
}

/// In any sequence of operations on a vault whose authority is set, every
/// withdrawal signed by somebody else fails and changes nothing, whatever
/// was deposited before it and by whom.
pub proof fn law_strangers_never_withdraw(vault: Account<UserAccount>, ops: Seq<VaultOp>, i: int)
    requires
        !vault.data.authority.unset(),
        0 <= i < ops.len(),
        ops[i] matches VaultOp::Withdraw { user, .. } && user.key != vault.data.authority,
    ensures
        !succeeds(run(vault, ops.take(i)), ops[i]),
        run(vault, ops.take(i + 1)) == run(vault, ops.take(i)),
{
    law_authority_is_kept(vault, ops.take(i));
    assert(ops.take(i + 1).drop_last() =~= ops.take(i));
    assert(ops.take(i + 1).last() == ops[i]);
}

/// A withdrawal by the authority of no more than the balance succeeds and
/// lowers the balance by the amount, wherever the value can be moved: the
/// vault holds the amount and the signer's holding has room for it.
pub proof fn law_withdrawal_within_balance_succeeds(ctx: Withdraw, amount: u64)
    requires
        ctx.user.key == ctx.user_account.data.authority,
        amount <= ctx.user_account.data.balance,
        amount <= ctx.user_account.lamports,
        ctx.user.lamports + amount <= u64::MAX,
    ensures
        withdraw_result(ctx, amount) is Ok,
        after_withdraw(ctx, amount).user_account.data.balance == ctx.user_account.data.balance
            - amount,
        after_withdraw(ctx, amount).user_account.data.authority
            == ctx.user_account.data.authority,
{
}

} // verus!
