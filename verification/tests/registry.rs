use kitties::entropy::{random_value, ChainEntropy, EntropySource, FixedEntropy};
use kitties::{AccountId, Error, Event, Kitty, KittyGender, Registry};
use std::cell::RefCell;

const ALICE: AccountId = AccountId([1; 32]);
const BOB: AccountId = AccountId([2; 32]);

/// Entropy that gives out a prepared list of values, and keeps a record of
/// who asked.
struct Script {
    values: Vec<[u8; 16]>,
    callers: RefCell<Vec<AccountId>>,
}

impl Script {
    fn of(values: &[[u8; 16]]) -> Script {
        Script { values: values.to_vec(), callers: RefCell::new(Vec::new()) }
    }

    fn calls(&self) -> usize {
        self.callers.borrow().len()
    }
}

impl EntropySource for Script {
    fn derive_entropy(&self, caller: &AccountId) -> [u8; 16] {
        let mut callers = self.callers.borrow_mut();
        let value = self.values[callers.len()];
        callers.push(*caller);
        value
    }
}

fn genome(first: u8) -> [u8; 16] {
    let mut dna = [0u8; 16];
    dna[0] = first;
    dna
}

#[test]
fn new_registry_is_empty() {
    let registry = Registry::new();
    assert_eq!(registry.next_kitty_id(), 0);
    assert_eq!(registry.kitties(&ALICE, 0), None);
}

#[test]
fn create_stores_the_kitty_and_reports_it() {
    let mut registry = Registry::new();
    let event = registry.create_with_dna(ALICE, [0x2a; 16]);
    assert_eq!(event, Ok(Event::KittyCreated(ALICE, 0, Kitty([0x2a; 16]))));
    assert_eq!(registry.kitties(&ALICE, 0), Some(Kitty([0x2a; 16])));
    assert_eq!(registry.kitties(&BOB, 0), None);
    assert_eq!(registry.next_kitty_id(), 1);
}

#[test]
fn created_ids_increase_across_owners() {
    let mut registry = Registry::new();
    let mut previous = None;
    for round in 0..50u32 {
        let sender = if round % 3 == 0 { BOB } else { ALICE };
        let event = registry.create_with_dna(sender, genome(round as u8)).unwrap();
        assert_eq!(event.kitty_id(), round);
        assert_eq!(event.owner(), sender);
        assert_eq!(event.kitty(), Kitty(genome(round as u8)));
        if let Some(previous) = previous {
            assert!(previous < event.kitty_id());
        }
        previous = Some(event.kitty_id());
    }
    assert_eq!(registry.next_kitty_id(), 50);
}

#[test]
fn breeding_male_and_female_with_zero_selector_gives_the_first_parent() {
    let mut registry = Registry::new();
    let entropy = Script::of(&[[0x00; 16], genome(0x01), [0x00; 16]]);
    let first = registry.create(ALICE, &entropy);
    assert_eq!(first, Ok(Event::KittyCreated(ALICE, 0, Kitty([0x00; 16]))));
    let second = registry.create(ALICE, &entropy);
    assert_eq!(second, Ok(Event::KittyCreated(ALICE, 1, Kitty(genome(0x01)))));
    assert_eq!(registry.kitties(&ALICE, 0).unwrap().gender(), KittyGender::Male);
    assert_eq!(registry.kitties(&ALICE, 1).unwrap().gender(), KittyGender::Female);

    let bred = registry.breed(ALICE, 0, 1, &entropy);
    assert_eq!(bred, Ok(Event::KittyBred(ALICE, 2, Kitty([0x00; 16]))));
    assert_eq!(registry.kitties(&ALICE, 2), Some(Kitty([0x00; 16])));
    assert_eq!(registry.kitties(&ALICE, 2), registry.kitties(&ALICE, 0));
    assert_eq!(registry.next_kitty_id(), 3);
    assert_eq!(entropy.calls(), 3);
    assert_eq!(*entropy.callers.borrow(), vec![ALICE, ALICE, ALICE]);
}

#[test]
fn breeding_with_full_selector_gives_the_second_parent() {
    let mut registry = Registry::new();
    registry.create_with_dna(ALICE, [0x10; 16]).unwrap();
    registry.create_with_dna(ALICE, [0x21; 16]).unwrap();
    let bred = registry.breed_with_selector(ALICE, 0, 1, [0xff; 16]);
    assert_eq!(bred, Ok(Event::KittyBred(ALICE, 2, Kitty([0x21; 16]))));
}

#[test]
fn breeding_with_mixed_selector_mixes_the_parents() {
    let mut registry = Registry::new();
    registry.create_with_dna(ALICE, [0xf0; 16]).unwrap();
    registry.create_with_dna(ALICE, [0x0f; 16]).unwrap();
    let bred = registry.breed_with_selector(ALICE, 0, 1, [0x3c; 16]);
    assert_eq!(bred, Ok(Event::KittyBred(ALICE, 2, Kitty([0xcc; 16]))));
    let bred = registry.breed_with_selector(ALICE, 1, 0, [0x3c; 16]);
    assert_eq!(bred, Ok(Event::KittyBred(ALICE, 3, Kitty([0x33; 16]))));
    assert_eq!(registry.kitties(&ALICE, 0), Some(Kitty([0xf0; 16])));
    assert_eq!(registry.kitties(&ALICE, 1), Some(Kitty([0x0f; 16])));
}

#[test]
fn breeding_kitties_of_different_owners_is_refused() {
    let mut registry = Registry::new();
    registry.create_with_dna(ALICE, genome(0x00)).unwrap();
    registry.create_with_dna(BOB, genome(0x01)).unwrap();
    assert_eq!(registry.next_kitty_id(), 2);

    assert_eq!(registry.breed_with_selector(ALICE, 0, 1, [0; 16]), Err(Error::InvalidKittyId));
    assert_eq!(registry.breed_with_selector(BOB, 0, 1, [0; 16]), Err(Error::InvalidKittyId));
    assert_eq!(registry.next_kitty_id(), 2);
    assert_eq!(registry.kitties(&ALICE, 2), None);
    assert_eq!(registry.kitties(&BOB, 2), None);
    assert_eq!(registry.kitties(&ALICE, 0), Some(Kitty(genome(0x00))));
    assert_eq!(registry.kitties(&BOB, 1), Some(Kitty(genome(0x01))));
}

#[test]
fn breeding_a_missing_kitty_is_refused() {
    let mut registry = Registry::new();
    registry.create_with_dna(ALICE, genome(0x00)).unwrap();
    registry.create_with_dna(ALICE, genome(0x01)).unwrap();

    assert_eq!(registry.breed_with_selector(ALICE, 0, 7, [0; 16]), Err(Error::InvalidKittyId));
    assert_eq!(registry.breed_with_selector(ALICE, 7, 1, [0; 16]), Err(Error::InvalidKittyId));
    assert_eq!(registry.breed_with_selector(ALICE, 8, 9, [0; 16]), Err(Error::InvalidKittyId));
    assert_eq!(registry.next_kitty_id(), 2);
    assert_eq!(registry.kitties(&ALICE, 2), None);
}

#[test]
fn missing_kitty_is_reported_before_gender() {
    let mut registry = Registry::new();
    registry.create_with_dna(ALICE, genome(0x00)).unwrap();
    assert_eq!(registry.breed_with_selector(ALICE, 0, 1, [0; 16]), Err(Error::InvalidKittyId));
    assert_eq!(registry.breed_with_selector(ALICE, 1, 1, [0; 16]), Err(Error::InvalidKittyId));
}

#[test]
fn breeding_kitties_of_the_same_gender_is_refused() {
    let mut registry = Registry::new();
    registry.create_with_dna(ALICE, [0x02; 16]).unwrap();
    registry.create_with_dna(ALICE, [0xfe; 16]).unwrap();
    registry.create_with_dna(ALICE, [0x01; 16]).unwrap();
    registry.create_with_dna(ALICE, [0xff; 16]).unwrap();

    for selector in [[0x00; 16], [0xff; 16], [0xaa; 16]] {
        assert_eq!(registry.breed_with_selector(ALICE, 0, 1, selector), Err(Error::SameGender));
        assert_eq!(registry.breed_with_selector(ALICE, 2, 3, selector), Err(Error::SameGender));
        assert_eq!(registry.breed_with_selector(ALICE, 3, 2, selector), Err(Error::SameGender));
    }
    assert_eq!(registry.next_kitty_id(), 4);
    assert_eq!(registry.kitties(&ALICE, 4), None);
    assert_eq!(registry.kitties(&ALICE, 0), Some(Kitty([0x02; 16])));
    assert_eq!(registry.kitties(&ALICE, 3), Some(Kitty([0xff; 16])));
}

#[test]
fn breeding_a_kitty_with_itself_is_refused() {
    let mut registry = Registry::new();
    registry.create_with_dna(ALICE, genome(0x00)).unwrap();
    registry.create_with_dna(ALICE, genome(0x01)).unwrap();
    assert_eq!(registry.breed_with_selector(ALICE, 0, 0, [0; 16]), Err(Error::SameGender));
    assert_eq!(registry.breed_with_selector(ALICE, 1, 1, [0; 16]), Err(Error::SameGender));
    assert_eq!(registry.next_kitty_id(), 2);
}

#[test]
fn spent_registry_refuses_every_creation() {
    let mut registry = Registry::starting_at(u32::MAX - 1);
    assert_eq!(
        registry.create_with_dna(ALICE, genome(0x00)),
        Ok(Event::KittyCreated(ALICE, u32::MAX - 1, Kitty(genome(0x00))))
    );
    assert_eq!(registry.next_kitty_id(), u32::MAX);
    for _ in 0..3 {
        assert_eq!(registry.create_with_dna(ALICE, genome(0x01)), Err(Error::KittiesIdOverflow));
        assert_eq!(registry.create_with_dna(BOB, genome(0x01)), Err(Error::KittiesIdOverflow));
        assert_eq!(registry.next_kitty_id(), u32::MAX);
        assert_eq!(registry.kitties(&ALICE, u32::MAX), None);
        assert_eq!(registry.kitties(&BOB, u32::MAX), None);
        assert_eq!(registry.kitties(&ALICE, u32::MAX - 1), Some(Kitty(genome(0x00))));
    }
}

#[test]
fn spent_registry_refuses_breeding_for_want_of_an_id() {
    let mut registry = Registry::starting_at(u32::MAX - 2);
    registry.create_with_dna(ALICE, genome(0x00)).unwrap();
    registry.create_with_dna(ALICE, genome(0x01)).unwrap();
    assert_eq!(registry.next_kitty_id(), u32::MAX);

    assert_eq!(
        registry.breed_with_selector(ALICE, u32::MAX - 2, u32::MAX - 1, [0; 16]),
        Err(Error::KittiesIdOverflow)
    );
    assert_eq!(registry.next_kitty_id(), u32::MAX);
    assert_eq!(registry.kitties(&ALICE, u32::MAX), None);
    assert_eq!(registry.kitties(&ALICE, u32::MAX - 2), Some(Kitty(genome(0x00))));
    assert_eq!(registry.kitties(&ALICE, u32::MAX - 1), Some(Kitty(genome(0x01))));
}

#[test]
fn spent_registry_still_reports_parents_first() {
    let mut registry = Registry::starting_at(u32::MAX - 2);
    registry.create_with_dna(ALICE, genome(0x00)).unwrap();
    registry.create_with_dna(ALICE, genome(0x02)).unwrap();
    assert_eq!(
        registry.breed_with_selector(ALICE, u32::MAX - 2, 5, [0; 16]),
        Err(Error::InvalidKittyId)
    );
    assert_eq!(
        registry.breed_with_selector(ALICE, u32::MAX - 2, u32::MAX - 1, [0; 16]),
        Err(Error::SameGender)
    );
}

#[test]
fn refused_calls_draw_no_entropy() {
    let mut registry = Registry::starting_at(u32::MAX - 2);
    let entropy = Script::of(&[genome(0x00), genome(0x01)]);
    registry.create(ALICE, &entropy).unwrap();
    registry.create(ALICE, &entropy).unwrap();
    assert_eq!(entropy.calls(), 2);

    assert_eq!(registry.create(ALICE, &entropy), Err(Error::KittiesIdOverflow));
    assert_eq!(
        registry.breed(ALICE, u32::MAX - 2, u32::MAX - 1, &entropy),
        Err(Error::KittiesIdOverflow)
    );
    assert_eq!(registry.breed(ALICE, u32::MAX - 2, u32::MAX - 2, &entropy), Err(Error::SameGender));
    assert_eq!(registry.breed(ALICE, 0, 1, &entropy), Err(Error::InvalidKittyId));
    assert_eq!(
        registry.breed(BOB, u32::MAX - 2, u32::MAX - 1, &entropy),
        Err(Error::InvalidKittyId)
    );
    assert_eq!(entropy.calls(), 2);
}

#[test]
fn entropy_is_asked_for_the_sender() {
    let mut registry = Registry::new();
    let entropy = Script::of(&[genome(0x00), genome(0x01), genome(0x02), [0xff; 16]]);
    registry.create(ALICE, &entropy).unwrap();
    registry.create(BOB, &entropy).unwrap();
    registry.create(BOB, &entropy).unwrap();
    assert_eq!(registry.breed(BOB, 1, 2, &entropy), Ok(Event::KittyBred(BOB, 3, Kitty(genome(0x02)))));
    assert_eq!(*entropy.callers.borrow(), vec![ALICE, BOB, BOB, BOB]);
}

#[test]
fn create_uses_what_the_entropy_source_gives() {
    let mut registry = Registry::new();
    let fixed = FixedEntropy([0x77; 16]);
    assert_eq!(registry.create(BOB, &fixed), Ok(Event::KittyCreated(BOB, 0, Kitty([0x77; 16]))));

    let chain = ChainEntropy { random_seed: [9; 32], extrinsic_index: Some(1) };
    let expected = random_value(&[9; 32], &ALICE, Some(1));
    assert_eq!(registry.create(ALICE, &chain), Ok(Event::KittyCreated(ALICE, 1, Kitty(expected))));
    assert_eq!(registry.kitties(&ALICE, 1), Some(Kitty(expected)));
}

#[test]
fn breed_uses_what_the_entropy_source_gives() {
    let mut registry = Registry::new();
    registry.create_with_dna(ALICE, [0xf0; 16]).unwrap();
    registry.create_with_dna(ALICE, [0x0f; 16]).unwrap();
    assert_eq!(
        registry.breed(ALICE, 0, 1, &FixedEntropy([0x3c; 16])),
        Ok(Event::KittyBred(ALICE, 2, Kitty([0xcc; 16])))
    );

    let chain = ChainEntropy { random_seed: [9; 32], extrinsic_index: None };
    let selector = random_value(&[9; 32], &ALICE, None);
    let mut expected = [0u8; 16];
    for i in 0..16 {
        expected[i] = (!selector[i] & 0xf0) | (selector[i] & 0x0f);
    }
    assert_eq!(
        registry.breed(ALICE, 0, 1, &chain),
        Ok(Event::KittyBred(ALICE, 3, Kitty(expected)))
    );
}

#[test]
fn event_reports_owner_id_and_kitty() {
    let created = Event::KittyCreated(ALICE, 3, Kitty([1; 16]));
    assert_eq!(created.owner(), ALICE);
    assert_eq!(created.kitty_id(), 3);
    assert_eq!(created.kitty(), Kitty([1; 16]));
    let bred = Event::KittyBred(BOB, 4, Kitty([2; 16]));
    assert_eq!(bred.owner(), BOB);
    assert_eq!(bred.kitty_id(), 4);
    assert_eq!(bred.kitty(), Kitty([2; 16]));
    assert_ne!(created, Event::KittyBred(ALICE, 3, Kitty([1; 16])));
}
