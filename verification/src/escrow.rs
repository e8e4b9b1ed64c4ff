//! The egg escrow program: an incubator that collects eggs up to its
//! capacity and hatches them all when the last one arrives.

use vstd::prelude::*;
use crate::key::Pubkey;

verus! {

/// A deposited egg: its owner and the accounts of its token.
#[derive(Clone, Copy, Debug, PartialEq, Eq)]
pub struct Egg {
    pub owner: Pubkey,
    pub metadata_account: Pubkey,
    pub mint_account: Pubkey,
    pub update_authority: Pubkey,
}

/// The escrow's incubator account.
#[derive(Debug)]
pub struct Incubator {
    pub owner: Pubkey,
    pub next_index: u8,
    pub capacity: u8,
    pub eggs: Vec<Egg>,
    pub bump: u8,
    pub metadata_account: Pubkey,
}

/// The escrow's incubator as a mathematical value.
pub struct IncubatorView {
    pub owner: Pubkey,
    pub next_index: u8,
    pub capacity: u8,
    pub eggs: Seq<Egg>,
    pub bump: u8,
    pub metadata_account: Pubkey,
}

impl View for Incubator {
    type V = IncubatorView;

    open spec fn view(&self) -> IncubatorView {
        IncubatorView {
            owner: self.owner,
            next_index: self.next_index,
            capacity: self.capacity,
            eggs: self.eggs@,
            bump: self.bump,
            metadata_account: self.metadata_account,
        }
    }
}

/// Why an escrow instruction is refused.
#[derive(Clone, Copy, Debug, PartialEq, Eq, Structural)]
pub enum ProgramError {
    InvalidInstructionData,
}

/// The accounts of `initialize`.
#[derive(Debug)]
pub struct Initialize {
    pub incubator: Incubator,
    /// The signer.
    pub owner: Pubkey,
}

/// The accounts of `Initialize` as mathematical values.
pub struct InitializeView {
    pub incubator: IncubatorView,
    pub owner: Pubkey,
}

impl View for Initialize {
    type V = InitializeView;

    open spec fn view(&self) -> InitializeView {
        InitializeView { incubator: self.incubator@, owner: self.owner }
    }
}

/// The accounts after `initialize`: the incubator belongs to the signer, has
/// the given capacity and bump, and holds no eggs.
pub open spec fn initialized(ctx: InitializeView, capacity: u8, bump: u8) -> InitializeView {
    InitializeView {
        incubator: IncubatorView {
            bump: bump,
            capacity: capacity,
            eggs: Seq::empty(),
            owner: ctx.owner,
            ..ctx.incubator
        },
        ..ctx
    }
}

/// Sets up an empty incubator of the given capacity for the signer.
pub fn initialize(ctx: &mut Initialize, capacity: u8, bump: u8) -> (r: Result<(), ProgramError>)
    ensures
        r is Ok,
        final(ctx)@ == initialized(old(ctx)@, capacity, bump),
{
    ctx.incubator.bump = bump;
    ctx.incubator.capacity = capacity;
    ctx.incubator.eggs = Vec::new();
    ctx.incubator.owner = ctx.owner;
    assert(ctx.incubator.eggs@ =~= Seq::<Egg>::empty());
    Ok(())
}

/// The accounts of `deposit`.
#[derive(Debug)]
pub struct Deposit {
    pub incubator: Incubator,
    /// The signer.
    pub owner: Pubkey,
    /// The owner of the deposited token account.
    pub token_owner: Pubkey,
    /// The address of the token's metadata account.
    pub metadata_account: Pubkey,
    /// The address of the token's mint.
    pub mint_account: Pubkey,
    /// The address of the token's update authority.
    pub update_authority: Pubkey,
}

/// The accounts of `Deposit` as mathematical values.
pub struct DepositView {
    pub incubator: IncubatorView,
    pub owner: Pubkey,
    pub token_owner: Pubkey,
    pub metadata_account: Pubkey,
    pub mint_account: Pubkey,
    pub update_authority: Pubkey,
}

impl View for Deposit {
    type V = DepositView;

    open spec fn view(&self) -> DepositView {
        DepositView {
            incubator: self.incubator@,
            owner: self.owner,
            token_owner: self.token_owner,
            metadata_account: self.metadata_account,
            mint_account: self.mint_account,
            update_authority: self.update_authority,
        }
    }
}

/// The egg that a deposit brings.
pub open spec fn deposited_egg(ctx: DepositView) -> Egg {
    Egg {
        owner: ctx.token_owner,
        mint_account: ctx.mint_account,
        update_authority: ctx.update_authority,
        metadata_account: ctx.metadata_account,
    }
}

/// Whether the incubator is full, so that a deposit is refused.
pub open spec fn deposit_refused(ctx: DepositView) -> bool {
    ctx.incubator.eggs.len() >= ctx.incubator.capacity
}

/// The accounts after an accepted deposit: the deposit that completes the
/// incubator (the one arriving when a single place is left) hatches every
/// egg and empties it; any other one adds its egg.
pub open spec fn deposit_effect(ctx: DepositView) -> DepositView {
    if ctx.incubator.eggs.len() == ctx.incubator.capacity - 1 {
        DepositView { incubator: IncubatorView { eggs: Seq::empty(), ..ctx.incubator }, ..ctx }
    } else {
        DepositView {
            incubator: IncubatorView { eggs: ctx.incubator.eggs.push(deposited_egg(ctx)), ..ctx.incubator },
            ..ctx
        }
    }
}

/// Deposits an egg; refused when the incubator is full.
pub fn deposit(ctx: &mut Deposit) -> (r: Result<(), ProgramError>)
    ensures
        r is Err <==> deposit_refused(old(ctx)@),
        r matches Err(e) ==> e == ProgramError::InvalidInstructionData,
        r is Err ==> final(ctx)@ == old(ctx)@,
        r is Ok ==> final(ctx)@ == deposit_effect(old(ctx)@),
{
    let len = ctx.incubator.eggs.len();
    let capacity = ctx.incubator.capacity as usize;
    if len >= capacity {
        return Err(ProgramError::InvalidInstructionData);
    } else if len == capacity - 1 {
        // Hatch: every egg leaves the incubator.
        ctx.incubator.eggs = Vec::new();
        assert(ctx.incubator.eggs@ =~= Seq::<Egg>::empty());
    } else {
        let egg = Egg {
            owner: ctx.token_owner,
            mint_account: ctx.mint_account,
            update_authority: ctx.update_authority,
            metadata_account: ctx.metadata_account,
        };
        ctx.incubator.eggs.push(egg);
    }
    Ok(())
}

/// The incubator after the deposits of `accounts`, in order, each made with
/// that deposit's accounts on the incubator the previous ones left (the
/// `incubator` field of each element is not read).
pub open spec fn deposit_sequence(incubator: IncubatorView, accounts: Seq<DepositView>) -> IncubatorView
    decreases accounts.len(),
{
    if accounts.len() == 0 {
        incubator
    } else {
        let before = deposit_sequence(incubator, accounts.drop_last());
        deposit_effect(DepositView { incubator: before, ..accounts.last() }).incubator
    }
}

/// The accounts of the `i`-th deposit of a sequence: that deposit's accounts
/// on the incubator the deposits before it left.
pub open spec fn deposit_in_sequence(incubator: IncubatorView, accounts: Seq<DepositView>, i: int) -> DepositView {
    DepositView { incubator: deposit_sequence(incubator, accounts.take(i)), ..accounts[i] }
}

/// After any sequence of deposits into an empty incubator of positive
/// capacity `c`, with any accounts, the incubator holds `n % c` eggs, where
/// `n` is the number of deposits, and keeps its capacity and owner.
pub proof fn lemma_deposit_sequence_count(incubator: IncubatorView, accounts: Seq<DepositView>)
    requires
        incubator.eggs.len() == 0,
        incubator.capacity > 0,
    ensures
        deposit_sequence(incubator, accounts).eggs.len() == accounts.len() % (incubator.capacity as nat),
        deposit_sequence(incubator, accounts).capacity == incubator.capacity,
        deposit_sequence(incubator, accounts).owner == incubator.owner,
    decreases accounts.len(),
{
    let c = incubator.capacity as nat;
    if accounts.len() == 0 {
        assert(0nat % c == 0) by (nonlinear_arith)
            requires
                c > 0,
        ;
    } else {
        let m = (accounts.len() - 1) as nat;
        lemma_deposit_sequence_count(incubator, accounts.drop_last());
        assert((m + 1) % c == if m % c == c - 1 { 0 } else { m % c + 1 }) by (nonlinear_arith)
            requires
                c > 0,
        ;
        assert(m % c < c) by (nonlinear_arith)
            requires
                c > 0,
        ;
    }
}

/// The incubator hatches every `capacity` deposits, whoever deposits: into an
/// empty incubator of positive capacity `c`, every deposit of a sequence is
/// accepted, the incubator after the first `i + 1` deposits is what the
/// `i`-th deposit leaves, and it then holds `(i + 1) % c` eggs; so each
/// deposit adds one egg except every `c`-th, which empties the incubator.
pub proof fn lemma_deposits_cycle(incubator: IncubatorView, accounts: Seq<DepositView>)
    requires
        incubator.eggs.len() == 0,
        incubator.capacity > 0,
    ensures
        forall|i: int| 0 <= i < accounts.len() ==> !deposit_refused(#[trigger] deposit_in_sequence(incubator, accounts, i)),
        forall|i: int| 0 <= i < accounts.len() ==>
            deposit_sequence(incubator, accounts.take(i + 1))
                == deposit_effect(#[trigger] deposit_in_sequence(incubator, accounts, i)).incubator,
        forall|i: int| 0 <= i < accounts.len() ==>
            (#[trigger] deposit_sequence(incubator, accounts.take(i + 1))).eggs.len()
                == (i + 1) % (incubator.capacity as int),
        deposit_sequence(incubator, accounts).eggs.len() == accounts.len() % (incubator.capacity as nat),
{
    let c = incubator.capacity as int;
    lemma_deposit_sequence_count(incubator, accounts);
    assert forall|i: int| 0 <= i < accounts.len() implies {
        &&& !deposit_refused(#[trigger] deposit_in_sequence(incubator, accounts, i))
        &&& deposit_sequence(incubator, accounts.take(i + 1))
            == deposit_effect(deposit_in_sequence(incubator, accounts, i)).incubator
        &&& deposit_sequence(incubator, accounts.take(i + 1)).eggs.len() == (i + 1) % c
    } by {
        lemma_deposit_sequence_count(incubator, accounts.take(i));
        lemma_deposit_sequence_count(incubator, accounts.take(i + 1));
        assert(i % c < c) by (nonlinear_arith)
            requires
                c > 0,
        ;
        assert(accounts.take(i + 1).drop_last() =~= accounts.take(i));
        assert(accounts.take(i + 1).last() == accounts[i]);
    }
    assert forall|i: int| 0 <= i < accounts.len() implies
        (#[trigger] deposit_sequence(incubator, accounts.take(i + 1))).eggs.len() == (i + 1) % c by {
        lemma_deposit_sequence_count(incubator, accounts.take(i + 1));
    }
}

/// An accepted deposit keeps the incubator below its capacity, and a
/// deposit into an incubator below its capacity is accepted.
pub proof fn lemma_deposit_keeps_room(ctx: DepositView)
    requires
        ctx.incubator.eggs.len() < ctx.incubator.capacity,
    ensures
        !deposit_refused(ctx),
        deposit_effect(ctx).incubator.eggs.len() < deposit_effect(ctx).incubator.capacity,
{
}

/// A deposit keeps the eggs already held and adds its own at the end, made of
/// the token owner and the token's metadata, mint and update authority;
/// only the deposit that takes the last place empties the incubator.
pub proof fn lemma_deposit_appends_egg(ctx: DepositView)
    requires
        !deposit_refused(ctx),
    ensures
        ctx.incubator.eggs.len() + 1 == ctx.incubator.capacity ==> deposit_effect(ctx).incubator.eggs.len() == 0,
        ctx.incubator.eggs.len() + 1 != ctx.incubator.capacity ==> {
            let eggs = deposit_effect(ctx).incubator.eggs;
            &&& eggs.len() == ctx.incubator.eggs.len() + 1
            &&& eggs.take(ctx.incubator.eggs.len() as int) == ctx.incubator.eggs
            &&& eggs.last() == (Egg {
                owner: ctx.token_owner,
                metadata_account: ctx.metadata_account,
                mint_account: ctx.mint_account,
                update_authority: ctx.update_authority,
            })
        },
        deposit_effect(ctx).incubator.capacity == ctx.incubator.capacity,
        deposit_effect(ctx).incubator.owner == ctx.incubator.owner,
{
    if ctx.incubator.eggs.len() + 1 != ctx.incubator.capacity {
        let eggs = deposit_effect(ctx).incubator.eggs;
        assert(eggs.take(ctx.incubator.eggs.len() as int) =~= ctx.incubator.eggs);
    }
}

} // verus!
