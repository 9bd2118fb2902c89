//! The mathematical model of an option registry.
//!
//! A registry is a sequence of fifteen slots, one per option of
//! `mkfs.btrfs`, each empty or holding one finished argument token. The
//! order of the slots is the order of the arguments on the command line; the
//! order in which slots were filled plays no part.

use vstd::prelude::*;

verus! {

/// One argument as the external tool receives it.
pub type Token = Seq<char>;

/// The slots of a registry, in command-line order.
pub type Slots = Seq<Option<Token>>;

/// How many slots a registry has.
pub const SLOT_COUNT: usize = 15;

/// The options of `mkfs.btrfs` that a registry can hold, in the order in
/// which they are written on the command line.
pub enum Slot {
    ByteCount,
    Checksum,
    Data,
    Features,
    Force,
    Label,
    Metadata,
    Mixed,
    NoDiscard,
    NodeSize,
    RootDir,
    RuntimeFeatures,
    SectorSize,
    Shrink,
    Uuid,
}

impl Slot {
    /// The position of this slot in a registry.
    pub open spec fn index(self) -> int {
        match self {
            Slot::ByteCount => 0,
            Slot::Checksum => 1,
            Slot::Data => 2,
            Slot::Features => 3,
            Slot::Force => 4,
            Slot::Label => 5,
            Slot::Metadata => 6,
            Slot::Mixed => 7,
            Slot::NoDiscard => 8,
            Slot::NodeSize => 9,
            Slot::RootDir => 10,
            Slot::RuntimeFeatures => 11,
            Slot::SectorSize => 12,
            Slot::Shrink => 13,
            Slot::Uuid => 14,
        }
    }
}

/// A registry in which no option has been set.
pub open spec fn empty() -> Slots {
    Seq::new(SLOT_COUNT as nat, |i: int| None::<Token>)
}

/// The registry after `slot` was set to `token`: that slot holds the token,
/// whatever it held before, and every other slot is as it was.
pub open spec fn assign(slots: Slots, slot: Slot, token: Token) -> Slots {
    slots.update(slot.index(), Some(token))
}

/// The argument list of a registry: the tokens of the slots that hold one,
/// in slot order.
pub open spec fn compiled(slots: Slots) -> Seq<Token> {
    slots.filter_map(|held: Option<Token>| held)
}

/// The registry after a run of setter calls, the first call first.
pub open spec fn applied(slots: Slots, calls: Seq<(Slot, Token)>) -> Slots
    decreases calls.len(),
{
    if calls.len() == 0 {
        slots
    } else {
        assign(applied(slots, calls.drop_last()), calls.last().0, calls.last().1)
    }
}

/// No two calls of the run set one slot to different tokens.
pub open spec fn agreeing(calls: Seq<(Slot, Token)>) -> bool {
    forall|i: int, j: int|
        0 <= i < calls.len() && 0 <= j < calls.len() && calls[i].0 == calls[j].0 ==> calls[i].1
            == calls[j].1
}

/// An empty registry compiles to an empty argument list.
pub proof fn lemma_empty_compiles_to_nothing()
    ensures
        empty().len() == SLOT_COUNT,
        compiled(empty()) == Seq::<Token>::empty(),
{
    lemma_unset_compile_to_nothing(empty());
}

/// A registry whose slots are all empty, of whatever length, compiles to an
/// empty argument list.
pub proof fn lemma_unset_compile_to_nothing(slots: Slots)
    requires
        forall|i: int| 0 <= i < slots.len() ==> slots[i] is None,
    ensures
        compiled(slots) == Seq::<Token>::empty(),
    decreases slots.len(),
{
    if slots.len() > 0 {
        lemma_unset_compile_to_nothing(slots.drop_last());
    }
}

/// Compilation goes slot by slot: the arguments of a registry made of two
/// parts are those of the first part followed by those of the second.
pub proof fn lemma_compiled_concat(front: Slots, back: Slots)
    ensures
        compiled(front + back) == compiled(front) + compiled(back),
    decreases back.len(),
{
    if back.len() == 0 {
    } else {
        assert((front + back).drop_last() =~= front + back.drop_last());
        lemma_compiled_concat(front, back.drop_last());
    }
}

/// The arguments come out in slot order: what slot `i` holds stands after
/// everything that the slots before it hold and before everything that the
/// slots after it hold.
pub proof fn lemma_compiled_in_slot_order(slots: Slots, i: int)
    requires
        0 <= i < slots.len(),
    ensures
        compiled(slots) == compiled(slots.take(i)) + (match slots[i] {
            Some(token) => seq![token],
            None => Seq::empty(),
        }) + compiled(slots.skip(i + 1)),
{
    let one = seq![slots[i]];
    assert(slots =~= slots.take(i) + one + slots.skip(i + 1));
    lemma_compiled_concat(slots.take(i) + one, slots.skip(i + 1));
    lemma_compiled_concat(slots.take(i), one);
    assert(compiled(one) =~= match slots[i] {
        Some(token) => seq![token],
        None => Seq::empty(),
    }) by {
        reveal_with_fuel(Seq::filter_map, 2);
    }
}

/// Setting two different slots gives the same registry in either order.
pub proof fn lemma_assign_commutes(slots: Slots, a: Slot, x: Token, b: Slot, y: Token)
    requires
        slots.len() == SLOT_COUNT,
        a != b,
    ensures
        assign(assign(slots, a, x), b, y) == assign(assign(slots, b, y), a, x),
        compiled(assign(assign(slots, a, x), b, y)) == compiled(assign(assign(slots, b, y), a, x)),
{
    assert(assign(assign(slots, a, x), b, y) =~= assign(assign(slots, b, y), a, x));
}

/// Setting a slot again replaces what the earlier call stored: only the
/// last call counts.
pub proof fn lemma_assign_overwrites(slots: Slots, slot: Slot, earlier: Token, last: Token)
    requires
        slots.len() == SLOT_COUNT,
    ensures
        assign(assign(slots, slot, earlier), slot, last) == assign(slots, slot, last),
{
}

/// A slot that was set contributes exactly one argument, the token of the
/// call, at the slot's place: between the arguments of the slots before it
/// and those of the slots after it, which the call left alone.
pub proof fn lemma_assigned_token_once(slots: Slots, slot: Slot, token: Token)
    requires
        slots.len() == SLOT_COUNT,
    ensures
        compiled(assign(slots, slot, token)) == compiled(slots.take(slot.index())) + seq![token]
            + compiled(slots.skip(slot.index() + 1)),
{
    let set = assign(slots, slot, token);
    let i = slot.index();
    lemma_compiled_in_slot_order(set, i);
    assert(set.take(i) =~= slots.take(i));
    assert(set.skip(i + 1) =~= slots.skip(i + 1));
}

/// A run of calls leaves a registry with its fifteen slots.
pub proof fn lemma_applied_len(slots: Slots, calls: Seq<(Slot, Token)>)
    requires
        slots.len() == SLOT_COUNT,
    ensures
        applied(slots, calls).len() == SLOT_COUNT,
    decreases calls.len(),
{
    if calls.len() > 0 {
        lemma_applied_len(slots, calls.drop_last());
    }
}

/// The last call to set a slot decides what the slot holds: if no call after
/// call `i` sets the slot that call `i` set, the slot holds the token of
/// call `i`, whatever the calls before it stored there.
pub proof fn lemma_last_call_wins(slots: Slots, calls: Seq<(Slot, Token)>, i: int)
    requires
        slots.len() == SLOT_COUNT,
        0 <= i < calls.len(),
        forall|j: int| i < j < calls.len() ==> calls[j].0 != calls[i].0,
    ensures
        applied(slots, calls)[calls[i].0.index()] == Some(calls[i].1),
    decreases calls.len(),
{
    let rest = calls.drop_last();
    lemma_applied_len(slots, rest);
    if i < calls.len() - 1 {
        assert forall|j: int| i < j < rest.len() implies rest[j].0 != rest[i].0 by {
        }
        lemma_last_call_wins(slots, rest, i);
    }
}

/// A slot that no call of a run sets holds what it held before the run.
pub proof fn lemma_unset_slot_keeps(slots: Slots, calls: Seq<(Slot, Token)>, slot: Slot)
    requires
        slots.len() == SLOT_COUNT,
        forall|i: int| 0 <= i < calls.len() ==> calls[i].0 != slot,
    ensures
        applied(slots, calls)[slot.index()] == slots[slot.index()],
    decreases calls.len(),
{
    if calls.len() > 0 {
        let rest = calls.drop_last();
        lemma_applied_len(slots, rest);
        assert forall|i: int| 0 <= i < rest.len() implies rest[i].0 != slot by {
        }
        lemma_unset_slot_keeps(slots, rest, slot);
    }
}

/// In a run whose calls agree, a slot holds the token of any call that set
/// it.
proof fn lemma_agreed_slot(slots: Slots, calls: Seq<(Slot, Token)>, i: int)
    requires
        slots.len() == SLOT_COUNT,
        agreeing(calls),
        0 <= i < calls.len(),
    ensures
        applied(slots, calls)[calls[i].0.index()] == Some(calls[i].1),
    decreases calls.len() - i,
{
    if exists|j: int| i < j < calls.len() && calls[j].0 == calls[i].0 {
        let j = choose|j: int| i < j < calls.len() && calls[j].0 == calls[i].0;
        lemma_agreed_slot(slots, calls, j);
    } else {
        lemma_last_call_wins(slots, calls, i);
    }
}

/// The order of the calls does not matter: two runs made of the same calls,
/// in which no slot is set to two different tokens, leave the same registry
/// and so the same argument list.
pub proof fn lemma_call_order_irrelevant(
    slots: Slots,
    first: Seq<(Slot, Token)>,
    second: Seq<(Slot, Token)>,
)
    requires
        slots.len() == SLOT_COUNT,
        agreeing(first),
        forall|call: (Slot, Token)| first.contains(call) <==> second.contains(call),
    ensures
        applied(slots, first) == applied(slots, second),
        compiled(applied(slots, first)) == compiled(applied(slots, second)),
{
    assert(agreeing(second)) by {
        assert forall|i: int, j: int|
            0 <= i < second.len() && 0 <= j < second.len() && second[i].0
                == second[j].0 implies second[i].1 == second[j].1 by {
            assert(first.contains(second[i]) && first.contains(second[j]));
            let p = choose|p: int| 0 <= p < first.len() && first[p] == second[i];
            let q = choose|q: int| 0 <= q < first.len() && first[q] == second[j];
        }
    }
    let left = applied(slots, first);
    let right = applied(slots, second);
    lemma_applied_len(slots, first);
    lemma_applied_len(slots, second);
    assert forall|k: int| 0 <= k < SLOT_COUNT implies left[k] == right[k] by {
        lemma_every_position_is_a_slot(k);
        let slot = choose|slot: Slot| slot.index() == k;
        if exists|i: int| 0 <= i < first.len() && first[i].0 == slot {
            let i = choose|i: int| 0 <= i < first.len() && first[i].0 == slot;
            assert(second.contains(first[i]));
            let j = choose|j: int| 0 <= j < second.len() && second[j] == first[i];
            lemma_agreed_slot(slots, first, i);
            lemma_agreed_slot(slots, second, j);
        } else {
            assert forall|j: int| 0 <= j < second.len() implies second[j].0 != slot by {
                assert(first.contains(second[j]));
                let p = choose|p: int| 0 <= p < first.len() && first[p] == second[j];
            }
            lemma_unset_slot_keeps(slots, first, slot);
            lemma_unset_slot_keeps(slots, second, slot);
        }
    }
    assert(left =~= right);
}

/// Each of the fifteen positions belongs to a slot.
pub proof fn lemma_every_position_is_a_slot(k: int)
    requires
        0 <= k < SLOT_COUNT,
    ensures
        exists|slot: Slot| slot.index() == k,
{
    let slot = if k == 0 {
        Slot::ByteCount
    } else if k == 1 {
        Slot::Checksum
    } else if k == 2 {
        Slot::Data
    } else if k == 3 {
        Slot::Features
    } else if k == 4 {
        Slot::Force
    } else if k == 5 {
        Slot::Label
    } else if k == 6 {
        Slot::Metadata
    } else if k == 7 {
        Slot::Mixed
    } else if k == 8 {
        Slot::NoDiscard
    } else if k == 9 {
        Slot::NodeSize
    } else if k == 10 {
        Slot::RootDir
    } else if k == 11 {
        Slot::RuntimeFeatures
    } else if k == 12 {
        Slot::SectorSize
    } else if k == 13 {
        Slot::Shrink
    } else {
        Slot::Uuid
    };
    assert(slot.index() == k);
}

} // verus!
