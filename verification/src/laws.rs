//! What holds of every registry, whatever calls are made on it.
//!
//! The laws are stated over [`RegistryState`], the model in which the
//! contracts of [`crate::registry::Registry`] are written, so each of them
//! holds of every registry that runs.

use crate::account::AccountId;
use crate::error::Error;
use crate::kitty::{combine_dna, combine_genomes, Kitty};
use crate::registry::{Event, RegistryState};
use vstd::prelude::*;

verus! {

/// One call on a registry, together with the sixteen bytes it draws.
pub enum Call {
    Create { sender: AccountId, dna: [u8; 16] },
    Breed { sender: AccountId, kitty_id_1: u32, kitty_id_2: u32, selector: [u8; 16] },
}

/// Bit `bit` of `byte`, counted from the lowest.
pub open spec fn bit_of(byte: u8, bit: u8) -> bool {
    (byte >> bit) & 1 == 1
}

impl RegistryState {
    /// Every kitty held has an id below the counter, and no id is held by
    /// two owners.
    pub open spec fn well_formed(self) -> bool {
        &&& forall|owner: AccountId, kitty_id: u32| #[trigger]
            self.kitties.contains_key((owner, kitty_id)) ==> kitty_id < self.next_kitty_id
        &&& forall|owner1: AccountId, owner2: AccountId, kitty_id: u32|
            #[trigger] self.kitties.contains_key((owner1, kitty_id))
                && #[trigger] self.kitties.contains_key((owner2, kitty_id)) ==> owner1 == owner2
    }

    /// State and report after one call.
    pub open spec fn apply(self, call: Call) -> (RegistryState, Result<Event, Error>) {
        match call {
            Call::Create { sender, dna } => self.create(sender, dna),
            Call::Breed { sender, kitty_id_1, kitty_id_2, selector } => self.breed(
                sender,
                kitty_id_1,
                kitty_id_2,
                selector,
            ),
        }
    }

    /// State after a sequence of calls, made in order.
    pub open spec fn run(self, calls: Seq<Call>) -> RegistryState
        decreases calls.len(),
    {
        if calls.len() == 0 {
            self
        } else {
            self.run(calls.drop_last()).apply(calls.last()).0
        }
    }

    /// Report of call number `i` in a sequence of calls made in order.
    pub open spec fn report(self, calls: Seq<Call>, i: int) -> Result<Event, Error> {
        self.run(calls.take(i)).apply(calls[i]).1
    }
}

/// Gender depends on nothing but the parity of the first genome byte: two
/// kitties have the same gender exactly when their first bytes have the same
/// parity, and a kitty never differs from itself.
pub proof fn gender_is_parity_of_first_byte(kitty1: Kitty, kitty2: Kitty)
    ensures
        kitty1.gender() == kitty2.gender() <==> kitty1.0[0] % 2 == kitty2.0[0] % 2,
        !(kitty1.gender() != kitty1.gender()),
{
}

/// Each bit of a combined byte is the first parent's bit where the selector
/// bit is 0 and the second parent's bit where it is 1.
pub proof fn combine_dna_selects_bits(dna1: u8, dna2: u8, selector: u8, bit: u8)
    requires
        bit < 8,
    ensures
        bit_of(combine_dna(dna1, dna2, selector), bit) == if bit_of(selector, bit) {
            bit_of(dna2, bit)
        } else {
            bit_of(dna1, bit)
        },
{
    assert(((((!selector & dna1) | (selector & dna2)) >> bit) & 1 == 1) == if (selector >> bit) & 1
        == 1 {
        (dna2 >> bit) & 1 == 1
    } else {
        (dna1 >> bit) & 1 == 1
    }) by (bit_vector)
        requires
            bit < 8,
    ;
}

/// A combined byte falls apart into its parents again: under the selector it
/// is the second parent, under the selector's complement the first.
pub proof fn combine_dna_decomposes(dna1: u8, dna2: u8, selector: u8)
    ensures
        combine_dna(dna1, dna2, selector) & selector == dna2 & selector,
        combine_dna(dna1, dna2, selector) & !selector == dna1 & !selector,
        combine_dna(dna1, dna2, 0x00) == dna1,
        combine_dna(dna1, dna2, 0xff) == dna2,
{
    assert(((!selector & dna1) | (selector & dna2)) & selector == dna2 & selector) by (bit_vector);
    assert(((!selector & dna1) | (selector & dna2)) & !selector == dna1 & !selector)
        by (bit_vector);
    assert((!0x00u8 & dna1) | (0x00u8 & dna2) == dna1) by (bit_vector);
    assert((!0xffu8 & dna1) | (0xffu8 & dna2) == dna2) by (bit_vector);
}

/// Genomes are combined bit by bit: every bit of the child is the first
/// parent's bit where the selector bit is 0 and the second parent's bit where
/// it is 1.
pub proof fn combine_genomes_selects_bits(
    dna1: [u8; 16],
    dna2: [u8; 16],
    selector: [u8; 16],
    byte: int,
    bit: u8,
)
    requires
        0 <= byte < 16,
        bit < 8,
    ensures
        bit_of(combine_genomes(dna1, dna2, selector)[byte], bit) == if bit_of(selector[byte], bit) {
            bit_of(dna2[byte], bit)
        } else {
            bit_of(dna1[byte], bit)
        },
{
    combine_dna_selects_bits(dna1[byte], dna2[byte], selector[byte], bit);
}

/// A child genome falls apart into its parents again, byte by byte: under
/// the selector it is the second parent, under the selector's complement
/// the first.
pub proof fn combine_genomes_decomposes(
    dna1: [u8; 16],
    dna2: [u8; 16],
    selector: [u8; 16],
    byte: int,
)
    requires
        0 <= byte < 16,
    ensures
        combine_genomes(dna1, dna2, selector)[byte] & selector[byte] == dna2[byte] & selector[byte],
        combine_genomes(dna1, dna2, selector)[byte] & !selector[byte] == dna1[byte]
            & !selector[byte],
{
    combine_dna_decomposes(dna1[byte], dna2[byte], selector[byte]);
}

/// A selector of zeros gives the first parent's genome, a selector of ones
/// the second parent's.
pub proof fn combine_genomes_under_constant_selectors(
    dna1: [u8; 16],
    dna2: [u8; 16],
    selector: [u8; 16],
)
    ensures
        (forall|i: int| 0 <= i < 16 ==> selector[i] == 0x00) ==> combine_genomes(
            dna1,
            dna2,
            selector,
        ) == dna1,
        (forall|i: int| 0 <= i < 16 ==> selector[i] == 0xff) ==> combine_genomes(
            dna1,
            dna2,
            selector,
        ) == dna2,
{
    assert forall|i: int| 0 <= i < 16 implies combine_dna(dna1[i], dna2[i], 0x00) == dna1[i]
        && combine_dna(dna1[i], dna2[i], 0xff) == dna2[i] by {
        combine_dna_decomposes(dna1[i], dna2[i], 0);
    }
    if forall|i: int| 0 <= i < 16 ==> selector[i] == 0x00 {
        assert(combine_genomes(dna1, dna2, selector) =~= dna1);
    }
    if forall|i: int| 0 <= i < 16 ==> selector[i] == 0xff {
        assert(combine_genomes(dna1, dna2, selector) =~= dna2);
    }
}

/// A refused call changes neither the counter nor the store.
pub proof fn refused_calls_change_nothing(state: RegistryState, call: Call)
    ensures
        state.apply(call).1 is Err ==> state.apply(call).0 == state,
{
}

/// A successful call hands out the value of the counter, moves the counter
/// up by one, and stores the reported kitty for the reported owner under the
/// reported id, leaving every other entry as it was.
pub proof fn successful_calls_take_the_next_id(state: RegistryState, call: Call)
    ensures
        state.apply(call).1 matches Ok(event) ==> {
            &&& event.kitty_id() == state.next_kitty_id
            &&& state.apply(call).0.next_kitty_id == state.next_kitty_id + 1
            &&& state.apply(call).0.kitties == state.kitties.insert(
                (event.owner(), event.kitty_id()),
                event.kitty(),
            )
        },
{
}

/// The counter never moves down.
pub proof fn counter_never_decreases(start: RegistryState, calls: Seq<Call>, i: int)
    requires
        0 <= i <= calls.len(),
    ensures
        start.run(calls.take(i)).next_kitty_id <= start.run(calls).next_kitty_id,
    decreases calls.len(),
{
    if i == calls.len() {
        assert(calls.take(i) =~= calls);
    } else {
        counter_never_decreases(start, calls.drop_last(), i);
        assert(calls.drop_last().take(i) =~= calls.take(i));
    }
}

/// In any sequence of calls, the ids handed out grow strictly: of two
/// successful calls the later gets the larger id, so no id is handed out
/// twice.
pub proof fn ids_strictly_increase(start: RegistryState, calls: Seq<Call>, i: int, j: int)
    requires
        0 <= i < j < calls.len(),
        start.report(calls, i) is Ok,
        start.report(calls, j) is Ok,
    ensures
        start.report(calls, i)->Ok_0.kitty_id() < start.report(calls, j)->Ok_0.kitty_id(),
{
    let before_j = calls.take(j);
    counter_never_decreases(start, before_j, i + 1);
    assert(before_j.take(i + 1) =~= calls.take(i + 1));
    assert(calls.take(i + 1).drop_last() =~= calls.take(i));
    successful_calls_take_the_next_id(start.run(calls.take(i)), calls[i]);
    successful_calls_take_the_next_id(start.run(calls.take(j)), calls[j]);
}

/// Creation is refused exactly when the counter is spent, and then for
/// that reason.
pub proof fn creation_fails_only_on_exhaustion(state: RegistryState, sender: AccountId, dna: [u8; 16])
    ensures
        state.exhausted() ==> state.create(sender, dna) == (
            state,
            Err::<Event, Error>(Error::KittiesIdOverflow),
        ),
        !state.exhausted() ==> state.create(sender, dna).1 == Ok::<Event, Error>(
            Event::KittyCreated(sender, state.next_kitty_id, Kitty(dna)),
        ),
{
}

/// Once the counter is spent, a breeding whose parents would be accepted is
/// refused for want of an id.
pub proof fn breeding_fails_on_exhaustion(
    state: RegistryState,
    sender: AccountId,
    kitty_id_1: u32,
    kitty_id_2: u32,
    selector: [u8; 16],
)
    requires
        state.exhausted(),
        state.lookup(sender, kitty_id_1) is Some,
        state.lookup(sender, kitty_id_2) is Some,
        state.lookup(sender, kitty_id_1)->0.gender() != state.lookup(sender, kitty_id_2)->0.gender(),
    ensures
        state.breed(sender, kitty_id_1, kitty_id_2, selector) == (
            state,
            Err::<Event, Error>(Error::KittiesIdOverflow),
        ),
{
}

/// A spent counter stays spent: from then on every call is refused and the
/// registry never changes again.
pub proof fn exhaustion_is_final(start: RegistryState, calls: Seq<Call>)
    requires
        start.exhausted(),
    ensures
        start.run(calls) == start,
        forall|i: int|
            0 <= i < calls.len() ==> {
                &&& (#[trigger] start.report(calls, i)) is Err
                &&& start.report(calls, i) == start.apply(calls[i]).1
                &&& calls[i] is Create ==> start.report(calls, i) == Err::<Event, Error>(
                    Error::KittiesIdOverflow,
                )
            },
    decreases calls.len(),
{
    if calls.len() > 0 {
        exhaustion_is_final(start, calls.drop_last());
        assert forall|i: int| 0 <= i < calls.len() implies {
            &&& (#[trigger] start.report(calls, i)) is Err
            &&& start.report(calls, i) == start.apply(calls[i]).1
            &&& calls[i] is Create ==> start.report(calls, i) == Err::<Event, Error>(
                Error::KittiesIdOverflow,
            )
        } by {
            if i < calls.len() - 1 {
                assert(calls.drop_last().take(i) =~= calls.take(i));
                assert(start.report(calls.drop_last(), i) is Err);
            } else {
                assert(calls.take(i) =~= calls.drop_last());
            }
        }
    }
}

/// Two parents of the same gender are never bred, whatever their genomes
/// and whatever the selector.
pub proof fn same_gender_is_refused(
    state: RegistryState,
    sender: AccountId,
    kitty_id_1: u32,
    kitty_id_2: u32,
    selector: [u8; 16],
)
    requires
        state.lookup(sender, kitty_id_1) is Some,
        state.lookup(sender, kitty_id_2) is Some,
        state.lookup(sender, kitty_id_1)->0.gender() == state.lookup(sender, kitty_id_2)->0.gender(),
    ensures
        state.breed(sender, kitty_id_1, kitty_id_2, selector) == (
            state,
            Err::<Event, Error>(Error::SameGender),
        ),
{
}

/// A kitty is never bred with itself: the call is refused for the equal
/// genders if the sender holds the kitty, and for the missing kitty if not.
pub proof fn breeding_with_itself_is_refused(
    state: RegistryState,
    sender: AccountId,
    kitty_id: u32,
    selector: [u8; 16],
)
    ensures
        state.breed(sender, kitty_id, kitty_id, selector) == (
            state,
            Err::<Event, Error>(
                if state.lookup(sender, kitty_id) is Some {
                    Error::SameGender
                } else {
                    Error::InvalidKittyId
                },
            ),
        ),
{
}

/// A breeding that names a kitty which the sender does not hold, be it
/// nobody's or somebody else's, is refused and takes no id.
pub proof fn missing_parent_is_refused(
    state: RegistryState,
    sender: AccountId,
    kitty_id_1: u32,
    kitty_id_2: u32,
    selector: [u8; 16],
)
    requires
        state.lookup(sender, kitty_id_1) is None || state.lookup(sender, kitty_id_2) is None,
    ensures
        state.breed(sender, kitty_id_1, kitty_id_2, selector) == (
            state,
            Err::<Event, Error>(Error::InvalidKittyId),
        ),
{
}

/// A registry that holds nothing is well formed.
pub proof fn empty_is_well_formed()
    ensures
        RegistryState::empty().well_formed(),
{
}

/// No call breaks well-formedness: ids held stay below the counter, and an
/// id never comes to a second owner.
pub proof fn calls_preserve_well_formedness(state: RegistryState, call: Call)
    requires
        state.well_formed(),
    ensures
        state.apply(call).0.well_formed(),
{
}

/// Whatever calls are made on a well-formed registry, it stays well formed.
pub proof fn runs_preserve_well_formedness(start: RegistryState, calls: Seq<Call>)
    requires
        start.well_formed(),
    ensures
        start.run(calls).well_formed(),
    decreases calls.len(),
{
    if calls.len() > 0 {
        runs_preserve_well_formedness(start, calls.drop_last());
        calls_preserve_well_formedness(start.run(calls.drop_last()), calls.last());
    }
}

/// A kitty, once stored in a well-formed registry, stays where it is and as
/// it is: no later call replaces or removes it.
pub proof fn kitties_are_never_replaced(
    start: RegistryState,
    calls: Seq<Call>,
    owner: AccountId,
    kitty_id: u32,
)
    requires
        start.well_formed(),
        start.lookup(owner, kitty_id) is Some,
    ensures
        start.run(calls).lookup(owner, kitty_id) == start.lookup(owner, kitty_id),
    decreases calls.len(),
{
    if calls.len() > 0 {
        let before = start.run(calls.drop_last());
        kitties_are_never_replaced(start, calls.drop_last(), owner, kitty_id);
        runs_preserve_well_formedness(start, calls.drop_last());
        successful_calls_take_the_next_id(before, calls.last());
        refused_calls_change_nothing(before, calls.last());
    }
}

} // verus!
