use tcell::DomainRegistry;
use tcell::DuplicateDomainError;
use tcell::TCell;
use tcell::TCellOwner;

const MARKER: u64 = 1;
const MARKER1: u64 = 11;
const MARKER2: u64 = 12;

#[test]
#[should_panic]
fn tcell_singleton_1() {
    let mut registry = DomainRegistry::<u32>::new();
    let _owner1 = TCellOwner::<MARKER, u32>::new(&mut registry).unwrap();
    let _owner2 = TCellOwner::<MARKER, u32>::new(&mut registry).unwrap(); // Panic here
}

#[test]
fn tcell_singleton_2() {
    let mut registry = DomainRegistry::<u32>::new();
    let owner1 = TCellOwner::<MARKER, u32>::new(&mut registry).unwrap();
    owner1.release(&mut registry);
    let _owner2 = TCellOwner::<MARKER, u32>::new(&mut registry).unwrap();
}

#[test]
fn tcell_singleton_3() {
    let mut registry = DomainRegistry::<u32>::new();
    let _owner1 = TCellOwner::<MARKER1, u32>::new(&mut registry).unwrap();
    let _owner2 = TCellOwner::<MARKER2, u32>::new(&mut registry).unwrap();
}

#[test]
fn tcell() {
    type ACellOwner = TCellOwner<MARKER, u32>;
    type ACell = TCell<MARKER, u32>;
    let mut registry = DomainRegistry::new();
    let mut owner = ACellOwner::new(&mut registry).unwrap();
    let c1 = ACell::new(&mut owner, 100u32);
    let c2 = ACell::new(&mut owner, 200u32);
    (*owner.get_mut(&c1)) += 1;
    (*owner.get_mut(&c2)) += 2;
    let c1ref = owner.get(&c1);
    let c2ref = owner.get(&c2);
    let total = *c1ref + *c2ref;
    assert_eq!(total, 303);
}

#[test]
fn second_owner_is_refused_and_first_stays_usable() {
    let mut registry = DomainRegistry::new();
    let mut owner = TCellOwner::<MARKER, u32>::new(&mut registry).unwrap();
    let cell = TCell::new(&mut owner, 5);
    let refused: Option<DuplicateDomainError> =
        TCellOwner::<MARKER, u32>::new(&mut registry).err();
    assert_eq!(refused.map(|error| error.marker()), Some(MARKER));
    assert!(registry.is_live(MARKER));
    *owner.get_mut(&cell) += 1;
    assert_eq!(*owner.get(&cell), 6);
    assert!(TCellOwner::<MARKER, u32>::new(&mut registry).is_err());
}

#[test]
fn registry_follows_owners() {
    let mut registry = DomainRegistry::<u8>::new();
    assert!(!registry.is_live(MARKER1));
    assert!(!registry.is_live(MARKER2));
    let owner1 = TCellOwner::<MARKER1, u8>::new(&mut registry).unwrap();
    assert!(registry.is_live(MARKER1));
    assert!(!registry.is_live(MARKER2));
    let owner2 = TCellOwner::<MARKER2, u8>::new(&mut registry).unwrap();
    assert!(registry.is_live(MARKER1));
    assert!(registry.is_live(MARKER2));
    owner1.release(&mut registry);
    assert!(!registry.is_live(MARKER1));
    assert!(registry.is_live(MARKER2));
    owner2.release(&mut registry);
    assert!(!registry.is_live(MARKER1));
    assert!(!registry.is_live(MARKER2));
}

#[test]
fn owners_of_different_domains_do_not_interfere() {
    let mut registry = DomainRegistry::new();
    let mut owner1 = TCellOwner::<MARKER1, u32>::new(&mut registry).unwrap();
    let mut owner2 = TCellOwner::<MARKER2, u32>::new(&mut registry).unwrap();
    let a = TCell::new(&mut owner1, 1);
    let b = TCell::new(&mut owner2, 2);
    let in_first = owner1.get_mut(&a);
    let in_second = owner2.get_mut(&b);
    *in_first += 10;
    *in_second += 20;
    assert_eq!(*owner1.get(&a), 11);
    assert_eq!(*owner2.get(&b), 22);
    owner1.release(&mut registry);
    assert_eq!(*owner2.get(&b), 22);
    assert!(TCellOwner::<MARKER2, u32>::new(&mut registry).is_err());
    assert!(TCellOwner::<MARKER1, u32>::new(&mut registry).is_ok());
}

#[test]
fn cells_outlive_their_owner() {
    let mut registry = DomainRegistry::new();
    let mut owner = TCellOwner::<MARKER, String>::new(&mut registry).unwrap();
    let c1 = TCell::new(&mut owner, String::from("one"));
    let c2 = TCell::new(&mut owner, String::from("two"));
    owner.get_mut(&c2).push_str("fold");
    owner.release(&mut registry);
    let mut next = TCellOwner::<MARKER, String>::new(&mut registry).unwrap();
    assert!(next.governs(&c1));
    assert!(next.governs(&c2));
    assert_eq!(next.get(&c1), "one");
    assert_eq!(next.get(&c2), "twofold");
    let c3 = TCell::new(&mut next, String::from("three"));
    assert_eq!(c3.location(), 2);
    assert_eq!(next.get(&c1), "one");
    assert_eq!(next.get(&c3), "three");
}

#[test]
fn releasing_into_an_empty_registry_frees_nothing_else() {
    let mut registry = DomainRegistry::<u32>::new();
    let mut elsewhere = DomainRegistry::<u32>::new();
    let owner = TCellOwner::<MARKER, u32>::new(&mut registry).unwrap();
    owner.release(&mut elsewhere);
    assert!(registry.is_live(MARKER));
    assert!(!elsewhere.is_live(MARKER));
    assert!(TCellOwner::<MARKER, u32>::new(&mut registry).is_err());
}
