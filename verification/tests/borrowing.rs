use scoped_tasks::Bank;
use scoped_tasks::BorrowError;
use scoped_tasks::Vault;

#[test]
fn shared_borrows_all_granted_and_counted() {
    let bank = Bank::new(0x1000, 0x100);
    let mut v = Vault::new(42u32, 0x1010);

    let t1 = v.loan(&bank).unwrap();
    assert_eq!(v.shared_count(), 1);
    let t2 = v.loan(&bank).unwrap();
    assert_eq!(v.shared_count(), 2);
    let t3 = v.loan(&bank).unwrap();
    assert_eq!(v.shared_count(), 3);
    assert_eq!(v.exclusive_count(), 0);

    assert_eq!(*v.read(&t1), 42);
    assert_eq!(*v.read(&t2), 42);
    assert_eq!(*v.read(&t3), 42);

    v.release(t1);
    v.release(t2);
    v.release(t3);
    assert_eq!(v.shared_count(), 0);
}

#[test]
fn exclusive_refused_while_shared_outstanding() {
    let bank = Bank::new(0x1000, 0x100);
    let mut v = Vault::new(1u32, 0x1020);

    let shared = v.loan(&bank).unwrap();
    assert_eq!(v.loan_mut(&bank).err(), Some(BorrowError::BorrowConflict));
    assert_eq!(v.shared_count(), 1);
    assert_eq!(v.exclusive_count(), 0);
    v.release(shared);
}

#[test]
fn exclusive_refused_while_exclusive_outstanding() {
    let bank = Bank::new(0x1000, 0x100);
    let mut v = Vault::new(1u32, 0x1020);

    let excl = v.loan_mut(&bank).unwrap();
    assert_eq!(v.exclusive_count(), 1);
    assert_eq!(v.loan_mut(&bank).err(), Some(BorrowError::BorrowConflict));
    assert_eq!(v.exclusive_count(), 1);
    v.release_mut(excl);
    assert_eq!(v.exclusive_count(), 0);
}

#[test]
fn shared_refused_while_exclusive_outstanding() {
    let bank = Bank::new(0x1000, 0x100);
    let mut v = Vault::new(9u32, 0x1030);

    let excl = v.loan_mut(&bank).unwrap();
    assert_eq!(v.loan(&bank).err(), Some(BorrowError::BorrowConflict));
    assert_eq!(v.shared_count(), 0);
    v.release_mut(excl);
}

#[test]
fn release_decrements_by_exactly_one() {
    let bank = Bank::new(0x2000, 0x80);
    let mut v = Vault::new(5i64, 0x2008);

    let t1 = v.loan(&bank).unwrap();
    let t2 = v.loan(&bank).unwrap();
    assert_eq!(v.shared_count(), 2);
    v.release(t1);
    assert_eq!(v.shared_count(), 1);
    v.release(t2);
    assert_eq!(v.shared_count(), 0);
    assert_eq!(v.exclusive_count(), 0);

    let excl = v.loan_mut(&bank).unwrap();
    assert_eq!(v.exclusive_count(), 1);
    v.release_mut(excl);
    assert_eq!(v.exclusive_count(), 0);
    assert_eq!(v.shared_count(), 0);
}

#[test]
fn cloned_token_is_counted_and_carries_its_own_handle() {
    let bank = Bank::new(0x3000, 0x40);
    let mut v = Vault::new(11u8, 0x3004);

    let original = v.loan(&bank).unwrap();
    let copy = v.clone_loan(&original);
    assert_eq!(v.shared_count(), 2);
    assert_eq!(copy.slot_addr(), original.slot_addr());
    assert_eq!(*copy.bank(), bank);

    // The copy grants access on its own, after the original is gone.
    v.release(original);
    assert_eq!(v.shared_count(), 1);
    assert_eq!(*v.read(&copy), 11);
    v.release(copy);
    assert_eq!(v.shared_count(), 0);
}

#[test]
fn validation_rejects_addresses_outside_the_storage_block() {
    let bank = Bank::new(0x1000, 0x100);

    assert!(!bank.contains_addr(0x0FFF));
    assert!(bank.contains_addr(0x1000));
    assert!(bank.contains_addr(0x10FF));
    assert!(!bank.contains_addr(0x1100));
    assert!(!bank.contains_addr(0));

    // Two vaults holding the same value type: only placement decides.
    let mut inside = Vault::new(7u32, 0x1040);
    let mut outside = Vault::new(7u32, 0x5000);
    assert!(inside.check_bank(&bank));
    assert!(!outside.check_bank(&bank));
    let token = inside.loan(&bank).unwrap();
    assert_eq!(outside.loan(&bank).err(), Some(BorrowError::InvalidPlacement));
    assert_eq!(outside.loan_mut(&bank).err(), Some(BorrowError::InvalidPlacement));
    assert_eq!(outside.shared_count(), 0);
    assert_eq!(outside.exclusive_count(), 0);
    inside.release(token);
}

#[test]
fn empty_storage_block_contains_nothing() {
    let bank = Bank::new(0x1000, 0);
    assert!(!bank.contains_addr(0x1000));
    let mut v = Vault::new(1u32, 0x1000);
    assert_eq!(v.loan(&bank).err(), Some(BorrowError::InvalidPlacement));
}

#[test]
fn storage_block_covering_the_whole_address_space() {
    let bank = Bank::new(0, usize::MAX);
    assert!(bank.contains_addr(0));
    assert!(bank.contains_addr(usize::MAX - 1));
    assert!(!bank.contains_addr(usize::MAX));
    let mut v = Vault::new(3u16, usize::MAX - 1);
    let t = v.loan(&bank).unwrap();
    assert_eq!(*v.read(&t), 3);
    v.release(t);
}

#[test]
fn scenario_two_vaults_shared_read_and_exclusive_write() {
    // One scope, two slots: a list and an accumulator. One unit of work reads
    // the list; another reads the list and writes the accumulator.
    let bank = Bank::new(0x8000, 0x200);
    let mut a = Vault::new(vec![1, 2, 3], 0x8010);
    let mut x = Vault::new(0, 0x8040);

    // First unit of work: a shared token on the list.
    let a_token_1 = a.loan(&bank).unwrap();
    assert_eq!(*a.read(&a_token_1), vec![1, 2, 3]);

    // Second unit of work: a shared token on the list and the exclusive
    // token on the accumulator.
    let a_token_2 = a.loan(&bank).unwrap();
    let x_token = x.loan_mut(&bank).unwrap();
    let first = a.read(&a_token_2)[0];
    let third = a.read(&a_token_2)[2];
    assert_eq!(*x.read_mut(&x_token), 0);
    *x.borrow_mut(&x_token) += first + third;

    // Both units finish and every token is handed back.
    a.release(a_token_1);
    a.release(a_token_2);
    x.release_mut(x_token);

    assert_eq!(*x.value(), 4);
    assert_eq!(a.shared_count(), 0);
    assert_eq!(a.exclusive_count(), 0);
    assert_eq!(x.shared_count(), 0);
    assert_eq!(x.exclusive_count(), 0);
}

#[test]
fn exclusive_request_fails_while_a_shared_token_is_live() {
    let bank = Bank::new(0x4000, 0x100);
    let mut v = Vault::new(vec![1, 2, 3], 0x4010);

    let shared = v.loan(&bank).unwrap();
    // The unit of work holding `shared` has finished its reads, but the token
    // is still live: the exclusive request must still be refused.
    let _ = v.read(&shared);
    assert_eq!(v.loan_mut(&bank).err(), Some(BorrowError::BorrowConflict));

    // Only handing the token back makes the slot exclusively borrowable.
    v.release(shared);
    let excl = v.loan_mut(&bank).unwrap();
    v.release_mut(excl);
}
