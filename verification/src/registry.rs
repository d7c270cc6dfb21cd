//! The registry: an id counter and a kitty store that change together.
//!
//! Every call is all or nothing. A call that is refused leaves counter and
//! store as they were; a call that succeeds takes one id and stores one
//! kitty under it.

use crate::account::AccountId;
use crate::allocator::IdAllocator;
use crate::entropy::{EntropySource, FixedEntropy};
use crate::error::Error;
use crate::kitty::{breeding_pair, combine_genomes, Kitty};
use crate::store::KittyStore;
use vstd::prelude::*;

verus! {

/// What a successful call reports: the owner, the new kitty's id, the kitty.
#[derive(Clone, Copy, Debug, PartialEq, Eq)]
pub enum Event {
    /// A kitty was created.
    KittyCreated(AccountId, u32, Kitty),
    /// A kitty was bred from two others.
    KittyBred(AccountId, u32, Kitty),
}

impl Event {
    /// The account that the new kitty belongs to.
    pub open spec fn spec_owner(&self) -> AccountId {
        match *self {
            Event::KittyCreated(owner, _, _) => owner,
            Event::KittyBred(owner, _, _) => owner,
        }
    }

    /// The id that the new kitty was given.
    pub open spec fn spec_kitty_id(&self) -> u32 {
        match *self {
            Event::KittyCreated(_, kitty_id, _) => kitty_id,
            Event::KittyBred(_, kitty_id, _) => kitty_id,
        }
    }

    /// The new kitty.
    pub open spec fn spec_kitty(&self) -> Kitty {
        match *self {
            Event::KittyCreated(_, _, kitty) => kitty,
            Event::KittyBred(_, _, kitty) => kitty,
        }
    }

    /// The account that the new kitty belongs to.
    #[verifier::when_used_as_spec(spec_owner)]
    pub fn owner(&self) -> (owner: AccountId)
        ensures
            owner == self.spec_owner(),
    {
        match *self {
            Event::KittyCreated(owner, _, _) => owner,
            Event::KittyBred(owner, _, _) => owner,
        }
    }

    /// The id that the new kitty was given.
    #[verifier::when_used_as_spec(spec_kitty_id)]
    pub fn kitty_id(&self) -> (kitty_id: u32)
        ensures
            kitty_id == self.spec_kitty_id(),
    {
        match *self {
            Event::KittyCreated(_, kitty_id, _) => kitty_id,
            Event::KittyBred(_, kitty_id, _) => kitty_id,
        }
    }

    /// The new kitty.
    #[verifier::when_used_as_spec(spec_kitty)]
    pub fn kitty(&self) -> (kitty: Kitty)
        ensures
            kitty == self.spec_kitty(),
    {
        match *self {
            Event::KittyCreated(_, _, kitty) => kitty,
            Event::KittyBred(_, _, kitty) => kitty,
        }
    }
}

/// A registry as mathematics: the next id and the kitties held.
pub struct RegistryState {
    pub next_kitty_id: u32,
    pub kitties: Map<(AccountId, u32), Kitty>,
}

impl RegistryState {
    /// Counter at zero, no kitties.
    pub open spec fn empty() -> RegistryState {
        RegistryState { next_kitty_id: 0, kitties: Map::empty() }
    }

    /// The kitty that `owner` holds under `kitty_id`, if any.
    pub open spec fn lookup(self, owner: AccountId, kitty_id: u32) -> Option<Kitty> {
        if self.kitties.contains_key((owner, kitty_id)) {
            Some(self.kitties[(owner, kitty_id)])
        } else {
            None
        }
    }

    /// No id is left to hand out.
    pub open spec fn exhausted(self) -> bool {
        self.next_kitty_id == u32::MAX
    }

    /// This state after `kitty` went to `owner` under the next id.
    pub open spec fn with_kitty(self, owner: AccountId, kitty: Kitty) -> RegistryState {
        RegistryState {
            next_kitty_id: (self.next_kitty_id + 1) as u32,
            kitties: self.kitties.insert((owner, self.next_kitty_id), kitty),
        }
    }

    /// Why a creation is refused in this state, if it is.
    pub open spec fn create_refusal(self) -> Option<Error> {
        if self.exhausted() {
            Some(Error::KittiesIdOverflow)
        } else {
            None
        }
    }

    /// State and report after `sender` creates a kitty with genome `dna`.
    pub open spec fn create(self, sender: AccountId, dna: [u8; 16]) -> (
        RegistryState,
        Result<Event, Error>,
    ) {
        match self.create_refusal() {
            Some(error) => (self, Err(error)),
            None => (
                self.with_kitty(sender, Kitty(dna)),
                Ok(Event::KittyCreated(sender, self.next_kitty_id, Kitty(dna))),
            ),
        }
    }

    /// Why a breeding is refused in this state, if it is. A missing parent
    /// comes first, equal genders second, a spent counter last.
    pub open spec fn breed_refusal(self, sender: AccountId, kitty_id_1: u32, kitty_id_2: u32) -> Option<
        Error,
    > {
        match breeding_pair(self.lookup(sender, kitty_id_1), self.lookup(sender, kitty_id_2)) {
            Err(error) => Some(error),
            Ok(_) => self.create_refusal(),
        }
    }

    /// State and report after `sender` breeds the kitties held under the two
    /// ids, with `selector` choosing the child's bits.
    pub open spec fn breed(
        self,
        sender: AccountId,
        kitty_id_1: u32,
        kitty_id_2: u32,
        selector: [u8; 16],
    ) -> (RegistryState, Result<Event, Error>) {
        match self.breed_refusal(sender, kitty_id_1, kitty_id_2) {
            Some(error) => (self, Err(error)),
            None => {
                let new_kitty = Kitty(
                    combine_genomes(
                        self.kitties[(sender, kitty_id_1)].0,
                        self.kitties[(sender, kitty_id_2)].0,
                        selector,
                    ),
                );
                (
                    self.with_kitty(sender, new_kitty),
                    Ok(Event::KittyBred(sender, self.next_kitty_id, new_kitty)),
                )
            },
        }
    }
}

/// The registry itself.
pub struct Registry {
    ids: IdAllocator,
    kitties: KittyStore,
}

impl View for Registry {
    type V = RegistryState;

    closed spec fn view(&self) -> RegistryState {
        RegistryState { next_kitty_id: self.ids@, kitties: self.kitties@ }
    }
}

impl Registry {
    /// A registry with no kitties, whose first id is zero.
    pub fn new() -> (registry: Registry)
        ensures
            registry@ == RegistryState::empty(),
    {
        Registry { ids: IdAllocator::new(), kitties: KittyStore::new() }
    }

    /// A registry with no kitties, whose first id is `next_kitty_id`.
    pub fn starting_at(next_kitty_id: u32) -> (registry: Registry)
        ensures
            registry@ == (RegistryState { next_kitty_id, kitties: Map::empty() }),
    {
        Registry { ids: IdAllocator::starting_at(next_kitty_id), kitties: KittyStore::new() }
    }

    /// Creates a kitty for `sender` with a genome drawn from `entropy`. The
    /// source is asked once, for `sender`, and only when an id is secured.
    pub fn create<E: EntropySource>(&mut self, sender: AccountId, entropy: &E) -> (event: Result<
        Event,
        Error,
    >)
        ensures
            match old(self)@.create_refusal() {
                Some(error) => event == Err::<Event, Error>(error) && final(self)@ == old(self)@,
                None => exists|dna: [u8; 16]|
                    {
                        &&& call_ensures(E::derive_entropy, (entropy, &sender), dna)
                        &&& (final(self)@, event) == #[trigger] old(self)@.create(sender, dna)
                    },
            },
    {
        match self.ids.next() {
            Err(error) => Err(error),
            Ok(kitty_id) => {
                let dna = entropy.derive_entropy(&sender);
                let kitty = Kitty(dna);
                self.kitties.insert(sender, kitty_id, kitty);
                let event = Event::KittyCreated(sender, kitty_id, kitty);
                assert((self@, Ok::<Event, Error>(event)) == old(self)@.create(sender, dna));
                Ok(event)
            },
        }
    }

    /// Creates a kitty for `sender` with the genome `dna`.
    pub fn create_with_dna(&mut self, sender: AccountId, dna: [u8; 16]) -> (event: Result<
        Event,
        Error,
    >)
        ensures
            (final(self)@, event) == old(self)@.create(sender, dna),
    {
        self.create(sender, &FixedEntropy(dna))
    }

    /// Breeds the kitties that `sender` holds under the two ids, with a
    /// selector drawn from `entropy`. The source is asked once, for
    /// `sender`, and only when the parents are accepted and an id is
    /// secured.
    pub fn breed<E: EntropySource>(
        &mut self,
        sender: AccountId,
        kitty_id_1: u32,
        kitty_id_2: u32,
        entropy: &E,
    ) -> (event: Result<Event, Error>)
        ensures
            match old(self)@.breed_refusal(sender, kitty_id_1, kitty_id_2) {
                Some(error) => event == Err::<Event, Error>(error) && final(self)@ == old(self)@,
                None => exists|selector: [u8; 16]|
                    {
                        &&& call_ensures(E::derive_entropy, (entropy, &sender), selector)
                        &&& (final(self)@, event) == #[trigger] old(self)@.breed(
                            sender,
                            kitty_id_1,
                            kitty_id_2,
                            selector,
                        )
                    },
            },
    {
        let kitty1 = self.kitties.get(&sender, kitty_id_1);
        let kitty2 = self.kitties.get(&sender, kitty_id_2);
        match breeding_pair(kitty1, kitty2) {
            Err(error) => Err(error),
            Ok((kitty1, kitty2)) => match self.ids.next() {
                Err(error) => Err(error),
                Ok(kitty_id) => {
                    let selector = entropy.derive_entropy(&sender);
                    let new_kitty = Kitty(combine_genomes(kitty1.0, kitty2.0, selector));
                    self.kitties.insert(sender, kitty_id, new_kitty);
                    let event = Event::KittyBred(sender, kitty_id, new_kitty);
                    assert((self@, Ok::<Event, Error>(event)) == old(self)@.breed(
                        sender,
                        kitty_id_1,
                        kitty_id_2,
                        selector,
                    ));
                    Ok(event)
                },
            },
        }
    }

    /// Breeds the kitties that `sender` holds under the two ids, with
    /// `selector` choosing the child's bits.
    pub fn breed_with_selector(
        &mut self,
        sender: AccountId,
        kitty_id_1: u32,
        kitty_id_2: u32,
        selector: [u8; 16],
    ) -> (event: Result<Event, Error>)
        ensures
            (final(self)@, event) == old(self)@.breed(sender, kitty_id_1, kitty_id_2, selector),
    {
        self.breed(sender, kitty_id_1, kitty_id_2, &FixedEntropy(selector))
    }

    /// The kitty that `owner` holds under `kitty_id`, if any.
    pub fn kitties(&self, owner: &AccountId, kitty_id: u32) -> (kitty: Option<Kitty>)
        ensures
            kitty == self@.lookup(*owner, kitty_id),
    {
        self.kitties.get(owner, kitty_id)
    }

    /// The id that the next kitty will get.
    pub fn next_kitty_id(&self) -> (next_id: u32)
        ensures
            next_id == self@.next_kitty_id,
    {
        self.ids.next_id()
    }
}

} // verus!
