use kitties::{encode_dna_input, kitty_dna, AccountId, Allocator, Error, Event, Kitty, Overflow, Pallet};

fn alice() -> AccountId {
    AccountId([1u8; 32])
}

fn bob() -> AccountId {
    AccountId([2u8; 32])
}

#[test]
fn fresh_registry_creates_for_alice_then_bob() {
    let mut p = Pallet::new();
    assert_eq!(p.next_kitty(), 0);
    assert_eq!(p.create(alice()), Ok(0));
    assert_eq!(p.next_kitty(), 1);
    let a = p.get_kitties(&alice(), 0).expect("kitty stored under (alice, 0)");
    assert_eq!(p.create(bob()), Ok(1));
    assert_eq!(p.next_kitty(), 2);
    let b = p.get_kitties(&bob(), 1).expect("kitty stored under (bob, 1)");
    assert_ne!(a, b);
    assert_ne!(a.dna, b.dna);
    assert_eq!(
        p.events(),
        &[Event::KittyCreated(0, alice()), Event::KittyCreated(1, bob())][..]
    );
}

#[test]
fn create_fails_at_capacity_and_changes_nothing() {
    let mut p = Pallet::starting_at(u32::MAX);
    assert_eq!(p.create(alice()), Err(Error::CapacityExceeded));
    assert_eq!(p.next_kitty(), u32::MAX);
    assert!(p.get_kitties(&alice(), u32::MAX).is_none());
    assert!(p.events().is_empty());
    assert_eq!(p.create(bob()), Err(Error::CapacityExceeded));
    assert_eq!(p.next_kitty(), u32::MAX);
}

#[test]
fn last_identifier_below_the_maximum_is_issued() {
    let mut p = Pallet::starting_at(u32::MAX - 1);
    assert_eq!(p.create(alice()), Ok(u32::MAX - 1));
    assert_eq!(p.next_kitty(), u32::MAX);
    assert!(p.get_kitties(&alice(), u32::MAX - 1).is_some());
    assert_eq!(p.create(alice()), Err(Error::CapacityExceeded));
    assert_eq!(p.events().len(), 1);
}

#[test]
fn identifiers_are_issued_in_order_without_gaps() {
    let mut p = Pallet::new();
    let mut ids = Vec::new();
    for i in 0..10u32 {
        let who = if i % 3 == 0 { alice() } else { bob() };
        ids.push(p.create(who).expect("capacity left"));
    }
    assert_eq!(ids, (0..10u32).collect::<Vec<u32>>());
    assert_eq!(p.next_kitty(), 10);
}

#[test]
fn issued_identifiers_are_never_reissued() {
    let mut p = Pallet::starting_at(41);
    let k = p.create(alice()).expect("capacity left");
    assert_eq!(k, 41);
    assert_eq!(p.next_kitty(), k + 1);
    for _ in 0..5 {
        let later = p.create(alice()).expect("capacity left");
        assert!(later > k);
    }
}

#[test]
fn stored_kitty_has_the_dna_of_its_id_and_owner() {
    let mut p = Pallet::new();
    let id = p.create(bob()).expect("capacity left");
    let k = p.get_kitties(&bob(), id).expect("kitty stored");
    assert_eq!(k, Kitty { dna: kitty_dna(id, &bob()) });
    assert!(p.get_kitties(&alice(), id).is_none());
    assert!(p.get_kitties(&bob(), id + 1).is_none());
}

#[test]
fn same_owner_gets_different_dna_for_different_ids() {
    let mut p = Pallet::new();
    let id0 = p.create(alice()).expect("capacity left");
    let id1 = p.create(alice()).expect("capacity left");
    let k0 = p.get_kitties(&alice(), id0).expect("kitty stored");
    let k1 = p.get_kitties(&alice(), id1).expect("kitty stored");
    assert_ne!(k0, k1);
}

#[test]
fn dna_input_is_little_endian_id_then_owner() {
    let input = encode_dna_input(0x0102_0304, &alice());
    let mut expected = vec![4u8, 3, 2, 1];
    expected.extend_from_slice(&[1u8; 32]);
    assert_eq!(input, expected);
    let zero = encode_dna_input(0, &bob());
    assert_eq!(&zero[..4], &[0u8, 0, 0, 0]);
    assert_eq!(zero.len(), 36);
}

#[test]
fn dna_is_a_digest_of_the_input() {
    let input = encode_dna_input(7, &alice());
    let dna = kitty_dna(7, &alice());
    assert_ne!(&dna[..], &input[..16]);
    assert_eq!(dna, kitty_dna(7, &alice()));
    assert_ne!(dna, kitty_dna(7, &bob()));
    assert_ne!(dna, kitty_dna(8, &alice()));
}

#[test]
fn allocator_issues_then_overflows() {
    let mut a = Allocator::new();
    assert_eq!(a.peek(), 0);
    assert_eq!(a.reserve(), Ok(0));
    assert_eq!(a.reserve(), Ok(1));
    assert_eq!(a.peek(), 2);
    let mut full = Allocator::starting_at(u32::MAX);
    assert_eq!(full.reserve(), Err(Overflow));
    assert_eq!(full.peek(), u32::MAX);
}

#[test]
fn account_and_kitty_equality_compare_bytes() {
    let mut bytes = [1u8; 32];
    assert_eq!(AccountId(bytes), alice());
    bytes[31] = 9;
    assert_ne!(AccountId(bytes), alice());
    assert_eq!(Kitty { dna: [3u8; 16] }, Kitty { dna: [3u8; 16] });
    assert_ne!(Kitty { dna: [3u8; 16] }, Kitty { dna: [4u8; 16] });
    assert_ne!(Event::KittyCreated(0, alice()), Event::KittyCreated(0, bob()));
    assert_ne!(Event::KittyCreated(0, alice()), Event::KittyCreated(1, alice()));
}
