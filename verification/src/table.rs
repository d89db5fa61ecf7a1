//! The fixed-length table of optional fixed-width records, and the two ways
//! of bringing it into being: slot by slot against the persisted region, or
//! as one transient value that is copied there afterwards.

use vstd::prelude::*;
use anchor_lang::prelude::Pubkey;
use crate::error::StoreError;
use crate::limits::STACK_BUDGET;

verus! {

/// The number of slots of a table. It never changes.
pub const TABLE_SLOTS: usize = 10;

/// The serialized width of a record in bytes, whatever its fields hold:
/// four handles of 32 bytes, four integers of 8 bytes, and the padding.
pub const RECORD_WIDTH: usize = 4 * 32 + 4 * 8 + 199;

/// The serialized width of a slot in bytes: the validity flag and the record.
pub const SLOT_WIDTH: usize = 1 + RECORD_WIDTH;

/// `solana_program::pubkey::Pubkey`, as `anchor_lang` exports it: the host's
/// 32-byte account handle. Nothing is claimed of what it holds; a record
/// carries it through unread.
#[verifier::external_type_specification]
#[verifier::external_body]
pub struct ExPubkey(Pubkey);

/// A group of four integers.
#[derive(Clone, Copy, Debug, PartialEq, Eq)]
pub struct SmallScrut {
    pub public_key_1: u64,
    pub public_key_2: u64,
    pub public_key_3: u64,
    pub public_key_4: u64,
}

/// A fixed-width record: four opaque handles, a group of integers and
/// padding. It has no field of variable length.
#[derive(Clone, Copy, Debug, PartialEq, Eq)]
pub struct BigStruct {
    pub public_key_1: Pubkey,
    pub public_key_2: Pubkey,
    pub public_key_3: Pubkey,
    pub public_key_4: Pubkey,
    pub small_scrut: SmallScrut,
    pub padding: [u8; 199],
}

/// How a table is brought into being.
#[derive(Clone, Copy, Debug, PartialEq, Eq, Structural)]
pub enum InitStrategy {
    /// One slot at a time, written straight into the persisted region.
    SlotBySlot,
    /// The whole table as one transient value, copied afterwards.
    WholeTable,
}

/// The most transient memory, in bytes, that bringing up a table of `n`
/// slots of `slot_width` bytes takes under `strategy`.
pub open spec fn peak_transient(strategy: InitStrategy, n: nat, slot_width: nat) -> nat {
    match strategy {
        InitStrategy::SlotBySlot => slot_width,
        InitStrategy::WholeTable => n * slot_width,
    }
}

/// Decides whether a table of `n` slots of `slot_width` bytes can be brought
/// up under `strategy` with `budget` bytes of transient memory.
pub fn check_init_budget(strategy: InitStrategy, n: usize, slot_width: usize, budget: usize) -> (r:
    Result<(), StoreError>)
    ensures
        peak_transient(strategy, n as nat, slot_width as nat) <= budget ==> r is Ok,
        peak_transient(strategy, n as nat, slot_width as nat) > budget ==> r == Err::<
            (),
            StoreError,
        >(StoreError::TransientMemoryExceeded),
{
    let fits: bool = match strategy {
        InitStrategy::SlotBySlot => slot_width <= budget,
        InitStrategy::WholeTable => match n.checked_mul(slot_width) {
            Some(whole) => whole <= budget,
            None => false,
        },
    };
    if fits {
        Ok(())
    } else {
        Err(StoreError::TransientMemoryExceeded)
    }
}

/// A table of `TABLE_SLOTS` slots, each empty or holding one record.
#[derive(Debug)]
pub struct HitStackSize {
    board: Vec<Option<BigStruct>>,
}

impl View for HitStackSize {
    type V = Seq<Option<BigStruct>>;

    closed spec fn view(&self) -> Seq<Option<BigStruct>> {
        self.board@
    }
}

/// The table of `n` empty slots.
pub open spec fn empty_board(n: nat) -> Seq<Option<BigStruct>> {
    Seq::new(n, |i: int| None::<BigStruct>)
}

impl HitStackSize {
    /// The table has its fixed number of slots.
    #[verifier::type_invariant]
    spec fn wf(&self) -> bool {
        self.board@.len() == TABLE_SLOTS
    }

    /// The number of slots: `TABLE_SLOTS`, at the table's creation and ever
    /// after.
    pub fn slot_count(&self) -> (n: usize)
        ensures
            n == TABLE_SLOTS,
            self@.len() == TABLE_SLOTS,
    {
        proof {
            use_type_invariant(self);
        }
        self.board.len()
    }

    /// The table with every slot empty, built one slot at a time. One slot
    /// fits the stack budget of an operation, so this never fails.
    pub fn init() -> (r: HitStackSize)
        ensures
            r@ == empty_board(TABLE_SLOTS as nat),
    {
        match HitStackSize::init_with(InitStrategy::SlotBySlot, STACK_BUDGET) {
            Ok(table) => table,
            Err(_) => unreached(),
        }
    }

    /// Pushes the empty slots one after the other.
    fn fill() -> (r: HitStackSize)
        ensures
            r@ == empty_board(TABLE_SLOTS as nat),
    {
        let mut board: Vec<Option<BigStruct>> = Vec::new();
        let mut i: usize = 0;
        while i < TABLE_SLOTS
            invariant
                i <= TABLE_SLOTS,
                board@ == empty_board(i as nat),
            decreases TABLE_SLOTS - i,
        {
            board.push(None);
            i = i + 1;
            assert(board@ =~= empty_board(i as nat));
        }
        HitStackSize { board }
    }

    /// The table with every slot empty, brought up under `strategy` with
    /// `budget` bytes of transient memory, or the refusal where the strategy
    /// needs more than that.
    pub fn init_with(strategy: InitStrategy, budget: usize) -> (r: Result<HitStackSize, StoreError>)
        ensures
            peak_transient(strategy, TABLE_SLOTS as nat, SLOT_WIDTH as nat) <= budget ==> r is Ok
                && r->Ok_0@ == empty_board(TABLE_SLOTS as nat),
            peak_transient(strategy, TABLE_SLOTS as nat, SLOT_WIDTH as nat) > budget ==> r == Err::<
                HitStackSize,
                StoreError,
            >(StoreError::TransientMemoryExceeded),
    {
        match check_init_budget(strategy, TABLE_SLOTS, SLOT_WIDTH, budget) {
            Ok(()) => Ok(HitStackSize::fill()),
            Err(e) => Err(e),
        }
    }

    /// Puts `record` into the slot `index` and touches no other slot. An
    /// index past the last slot is refused and the table is left as it was.
    pub fn set_slot(&mut self, index: usize, record: Option<BigStruct>) -> (r: Result<
        (),
        StoreError,
    >)
        ensures
            index < TABLE_SLOTS ==> r is Ok && final(self)@ == old(self)@.update(
                index as int,
                record,
            ),
            index >= TABLE_SLOTS ==> r == Err::<(), StoreError>(StoreError::OutOfBounds)
                && final(self)@ == old(self)@,
    {
        proof {
            use_type_invariant(&*self);
        }
        if index >= TABLE_SLOTS {
            return Err(StoreError::OutOfBounds);
        }
        self.board[index] = record;
        Ok(())
    }

    /// The content of the slot `index`, or the refusal of an index past the
    /// last slot.
    pub fn get_slot(&self, index: usize) -> (r: Result<Option<BigStruct>, StoreError>)
        ensures
            index < TABLE_SLOTS ==> r == Ok::<Option<BigStruct>, StoreError>(self@[index as int]),
            index >= TABLE_SLOTS ==> r == Err::<Option<BigStruct>, StoreError>(
                StoreError::OutOfBounds,
            ),
    {
        proof {
            use_type_invariant(self);
        }
        if index >= TABLE_SLOTS {
            return Err(StoreError::OutOfBounds);
        }
        Ok(self.board[index])
    }
}

/// Creates the table, every slot empty, one slot at a time.
pub fn initialize_hit_stack_size() -> (r: HitStackSize)
    ensures
        r@ == empty_board(TABLE_SLOTS as nat),
{
    HitStackSize::init()
}

/// Puts `record` into the slot `index` of `table` and touches no other slot.
pub fn set_record_slot(table: &mut HitStackSize, index: usize, record: Option<BigStruct>) -> (r:
    Result<(), StoreError>)
    ensures
        index < TABLE_SLOTS ==> r is Ok && final(table)@ == old(table)@.update(
            index as int,
            record,
        ),
        index >= TABLE_SLOTS ==> r == Err::<(), StoreError>(StoreError::OutOfBounds)
            && final(table)@ == old(table)@,
{
    table.set_slot(index, record)
}

/// Slot by slot, a table takes the transient memory of one slot however
/// many slots it has, so it comes up under every budget that holds one slot.
/// As one transient value it takes the memory of all slots, and is refused
/// exactly when that is more than the budget.
pub proof fn lemma_slot_by_slot_within_budget(n: nat, slot_width: nat, budget: nat)
    requires
        slot_width <= budget,
    ensures
        peak_transient(InitStrategy::SlotBySlot, n, slot_width) == slot_width,
        peak_transient(InitStrategy::SlotBySlot, n, slot_width) <= budget,
        n * slot_width > budget <==> peak_transient(InitStrategy::WholeTable, n, slot_width)
            > budget,
{
}

/// The table of this crate comes up slot by slot under the stack budget of
/// one operation.
pub proof fn lemma_table_fits_stack()
    ensures
        peak_transient(InitStrategy::SlotBySlot, TABLE_SLOTS as nat, SLOT_WIDTH as nat)
            <= STACK_BUDGET,
{
}

} // verus!
