use scoped_tasks::BankBuilder;
use scoped_tasks::ScopePhase;
use scoped_tasks::Vault;

#[test]
fn phases_advance_in_order() {
    let mut builder = BankBuilder::new(0x7000, 0x300);
    assert_eq!(builder.current_phase(), ScopePhase::Empty);
    builder.populate();
    assert_eq!(builder.current_phase(), ScopePhase::Populated);
    builder.start();
    assert_eq!(builder.current_phase(), ScopePhase::Running);
    builder.complete();
    assert_eq!(builder.current_phase(), ScopePhase::Completed);
}

#[test]
fn handle_covers_the_storage_block() {
    let builder = BankBuilder::new(0x7000, 0x300);
    let bank = builder.handle();
    assert!(bank.contains_addr(0x7000));
    assert!(bank.contains_addr(0x72FF));
    assert!(!bank.contains_addr(0x7300));
    assert!(!bank.contains_addr(0x6FFF));
}

#[test]
fn borrowing_through_the_builder_handle() {
    let mut builder = BankBuilder::new(0x7000, 0x300);
    let bank = builder.handle();
    builder.populate();
    builder.start();

    let mut v = Vault::new(8u32, 0x7020);
    let token = v.loan(&bank).unwrap();
    assert_eq!(*v.read(&token), 8);
    v.release(token);

    builder.complete();
    assert_eq!(v.shared_count(), 0);
}
