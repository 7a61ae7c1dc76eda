use tileworld::records::StoreError;
use tileworld::resources::{Resource, ResourceDelta};
use tileworld::user::{User, UserWrite};
use uuid::Uuid;

fn user(credits: i64) -> User {
    User { id: Uuid::new_v4(), credits }
}

#[test]
fn delta_shorthand() {
    let delta = Resource::Credit.d(-4);
    assert_eq!(delta, ResourceDelta { resource: Resource::Credit, value: -4 });
    assert_eq!(Resource::Watt.d(9), ResourceDelta { resource: Resource::Watt, value: 9 });
}

#[test]
fn cost_is_never_positive() {
    assert_eq!(Resource::Credit.d(4).as_cost(), Resource::Credit.d(-4));
    assert_eq!(Resource::Credit.d(-4).as_cost(), Resource::Credit.d(-4));
    assert_eq!(Resource::Watt.d(0).as_cost(), Resource::Watt.d(0));
    assert_eq!(Resource::Credit.d(i32::MAX).as_cost(), Resource::Credit.d(-i32::MAX));
    assert_eq!(Resource::Credit.d(i32::MIN).as_cost(), Resource::Credit.d(i32::MIN));
}

#[test]
fn default_user_is_nil_and_broke() {
    let user = User::default();
    assert_eq!(user.id, Uuid::nil());
    assert_eq!(user.credits, 0);
}

#[test]
fn new_user_is_the_stored_one_or_a_fresh_one() {
    let id = Uuid::new_v4();
    let kept = User { id, credits: 12 };
    let (found, save) = User::new(Ok(kept), id);
    assert_eq!((found.id, found.credits, save), (id, 12, false));
    let (fresh, save) = User::new(Err(StoreError::NotFound), id);
    assert_eq!((fresh.id, fresh.credits, save), (id, 0, true));
}

#[test]
fn save_updates_or_inserts() {
    let user = user(30);
    assert_eq!(user.save(Ok(User { id: user.id, credits: 1 })), UserWrite::Update { credits: 30 });
    assert_eq!(user.save(Err(StoreError::NotFound)), UserWrite::Insert);
    assert_eq!(user.save(Err(StoreError::Failed)), UserWrite::Insert);
}

#[test]
fn pay_applies_a_delta_that_is_covered() {
    let mut account = user(10);
    assert!(account.pay_resources(&Resource::Credit.d(-4)));
    assert_eq!(account.credits, 6);
    assert!(account.pay_resources(&Resource::Credit.d(-6)));
    assert_eq!(account.credits, 0);
    assert!(!account.pay_resources(&Resource::Credit.d(-1)));
    assert_eq!(account.credits, 0);
    assert!(account.pay_resources(&Resource::Credit.d(0)));
    assert_eq!(account.credits, 0);
}

#[test]
fn pay_goes_by_the_size_of_the_delta() {
    let mut account = user(5);
    assert!(!account.pay_resources(&Resource::Credit.d(6)));
    assert_eq!(account.credits, 5);
    assert!(account.pay_resources(&Resource::Credit.d(5)));
    assert_eq!(account.credits, 10);
    let mut debtor = user(-3);
    assert!(!debtor.pay_resources(&Resource::Credit.d(0)));
    assert!(!debtor.pay_resources(&Resource::Credit.d(i32::MIN)));
    assert_eq!(debtor.credits, -3);
}

#[test]
fn give_adds_the_delta() {
    let mut account = user(1);
    account.give_resources(&Resource::Credit.d(3));
    assert_eq!(account.credits, 4);
    account.give_resources(&Resource::Credit.d(-10));
    assert_eq!(account.credits, -6);
}

#[test]
fn transaction_pays_all() {
    let mut account = user(10);
    let id = account.id;
    assert!(account.pay_resource_transaction(vec![
        Resource::Credit.d(3),
        Resource::Credit.d(0),
        Resource::Credit.d(7)
    ]));
    assert_eq!((account.id, account.credits), (id, 0));
}

#[test]
fn transaction_pays_nothing_when_one_cost_is_too_high() {
    let mut account = user(10);
    assert!(!account.pay_resource_transaction(vec![
        Resource::Credit.d(3),
        Resource::Credit.d(8),
        Resource::Credit.d(7)
    ]));
    assert_eq!(account.credits, 10);
    assert!(!account.pay_resource_transaction(vec![Resource::Credit.d(11)]));
    assert_eq!(account.credits, 10);
}

#[test]
fn empty_transaction_goes_through() {
    let mut account = user(-5);
    assert!(account.pay_resource_transaction(Vec::new()));
    assert_eq!(account.credits, -5);
    assert!(!account.pay_resource_transaction(vec![Resource::Credit.d(0)]));
    assert_eq!(account.credits, -5);
}

#[test]
fn transaction_reads_negative_deltas_as_costs() {
    let mut account = user(10);
    assert!(account.pay_resource_transaction(vec![Resource::Credit.d(-3), Resource::Credit.d(4)]));
    assert_eq!(account.credits, 3);
    assert!(!account
        .pay_resource_transaction(vec![Resource::Credit.d(-2), Resource::Credit.d(-2)]));
    assert_eq!(account.credits, 3);
    assert!(account.pay_resource_transaction(vec![Resource::Credit.d(-3)]));
    assert_eq!(account.credits, 0);
}

#[test]
fn failed_transaction_gives_back_the_largest_cost() {
    let size = 1i64 << 31;
    let mut account = user(size + 5);
    assert!(!account
        .pay_resource_transaction(vec![Resource::Credit.d(i32::MIN), Resource::Credit.d(6)]));
    assert_eq!(account.credits, size + 5);
    assert!(account
        .pay_resource_transaction(vec![Resource::Credit.d(i32::MIN), Resource::Credit.d(5)]));
    assert_eq!(account.credits, 0);
}
