use std::cell::Cell;
use std::rc::Rc;

use knotty::wake::Debt;

fn counter() -> (Rc<Cell<u32>>, impl Fn()) {
    let paid = Rc::new(Cell::new(0));
    let wake = {
        let paid = Rc::clone(&paid);
        move || paid.set(paid.get() + 1)
    };
    (paid, wake)
}

#[test]
fn what_is_owed_is_paid_once() {
    let (paid, wake) = counter();
    let mut debt = Debt::default();
    debt.register(Some(wake));

    debt.owe();
    debt.settle();
    debt.settle();

    assert_eq!(paid.get(), 1);
}

#[test]
fn settling_what_is_not_owed_pays_nothing() {
    let (paid, wake) = counter();
    let mut debt = Debt::default();
    debt.register(Some(wake));

    debt.settle();

    assert_eq!(paid.get(), 0);
}

#[test]
fn a_debt_owed_to_nobody_is_paid_to_whoever_registers_next() {
    let (paid, wake) = counter();
    let mut debt = Debt::default();
    debt.owe();
    debt.settle();

    debt.register(Some(wake));

    assert_eq!(paid.get(), 1);
    assert!(!debt.owes(), "the debt was paid and still stands");
}

#[test]
fn clearing_the_wake_leaves_the_debt_where_it_is() {
    let (paid, wake) = counter();
    let mut debt = Debt::default();
    debt.register(Some(wake));

    debt.register(None);
    debt.owe();
    debt.settle();

    assert_eq!(paid.get(), 0, "a cleared wake was called");
    assert!(debt.owes());
}

#[test]
fn registering_with_nothing_owed_pays_nothing() {
    let (paid, wake) = counter();
    let mut debt = Debt::new();
    debt.register(Some(wake));
    assert_eq!(paid.get(), 0);
    assert!(!debt.owes());
}

#[test]
fn a_wake_registered_anew_replaces_the_old_one() {
    let old_paid = Rc::new(Cell::new(0u32));
    let new_paid = Rc::new(Cell::new(0u32));
    let mut debt: Debt<Box<dyn Fn()>> = Debt::new();
    debt.register(Some(Box::new({
        let old_paid = Rc::clone(&old_paid);
        move || old_paid.set(old_paid.get() + 1)
    })));
    debt.register(Some(Box::new({
        let new_paid = Rc::clone(&new_paid);
        move || new_paid.set(new_paid.get() + 1)
    })));

    debt.owe();
    debt.settle();

    assert_eq!(old_paid.get(), 0, "the replaced wake was called");
    assert_eq!(new_paid.get(), 1);
}
