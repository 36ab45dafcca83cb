use rutzo::ids::{ActorId, Key, TokenId};
use rutzo::table::Table;

#[test]
fn insert_get_remove() {
    let mut t: Table<u8, u32> = Table::new();
    assert_eq!(t.get(&1), None);
    t.insert(1, 10);
    t.insert(2, 20);
    assert_eq!(t.get(&1), Some(&10));
    assert_eq!(t.get(&2), Some(&20));
    assert!(t.contains_key(&2));
    assert!(!t.contains_key(&3));
    t.insert(1, 11);
    assert_eq!(t.get(&1), Some(&11));
    assert_eq!(t.entries.len(), 2);
    t.remove(&1);
    assert_eq!(t.get(&1), None);
    assert_eq!(t.entries, vec![(2, 20)]);
    t.remove(&7);
    assert_eq!(t.entries, vec![(2, 20)]);
}

#[test]
fn pairs_are_kept_in_key_order() {
    let mut t: Table<u8, char> = Table::new();
    for (k, v) in [(5u8, 'e'), (1, 'a'), (9, 'i'), (3, 'c'), (1, 'A'), (0, 'z')] {
        t.insert(k, v);
    }
    assert_eq!(t.entries, vec![(0, 'z'), (1, 'A'), (3, 'c'), (5, 'e'), (9, 'i')]);
    assert_eq!(t.find(&3), Some(2));
    assert_eq!(t.find(&4), None);
    assert_eq!(t.place(&4), 3);
    assert_eq!(t.place(&200), 5);
    t.remove(&3);
    assert_eq!(t.entries, vec![(0, 'z'), (1, 'A'), (5, 'e'), (9, 'i')]);
}

#[test]
fn identities_order_by_upper_half_first() {
    let low = ActorId { hi: 0, lo: u128::MAX };
    let high = ActorId { hi: 1, lo: 0 };
    assert!(low.before(&high));
    assert!(!high.before(&low));
    assert!(!low.before(&low));
    assert!(low.same(&low));
    assert!(!low.same(&high));
    let a = TokenId { hi: 4, lo: 1 };
    let b = TokenId { hi: 4, lo: 2 };
    assert!(a.before(&b));
    assert!(!b.before(&a));
    assert!(!a.same(&b));
    let mut t: Table<ActorId, u8> = Table::new();
    t.insert(high, 1);
    t.insert(low, 2);
    t.insert(ActorId::new(5), 3);
    assert_eq!(t.entries, vec![(ActorId::new(5), 3), (low, 2), (high, 1)]);
}

#[test]
fn small_identities() {
    assert_eq!(ActorId::new(7), ActorId { hi: 0, lo: 7 });
    assert_eq!(TokenId::new(u64::MAX), TokenId { hi: 0, lo: u64::MAX as u128 });
    assert_eq!(ActorId::zero(), ActorId::new(0));
    assert_eq!(TokenId::zero(), TokenId::new(0));
}
