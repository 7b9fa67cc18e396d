use asgard_rust::orders_repo::MemOrderRepository;
use asgard_rust::ports::{
    NewOrder, NewProduct, NewUser, RepoError, UpdateOrder, UpdateProduct, UpdateUser,
};
use asgard_rust::products_repo::MemProductRepository;
use asgard_rust::services::{OrderService, ProductService, UserService};
use asgard_rust::users_repo::MemUserRepository;

fn user_service() -> UserService<MemUserRepository> {
    UserService::new(MemUserRepository::new())
}

fn product_service() -> ProductService<MemProductRepository> {
    ProductService::new(MemProductRepository::new())
}

fn order_service() -> OrderService<MemOrderRepository> {
    OrderService::new(MemOrderRepository::new())
}

#[test]
fn user_service_crud_works_with_fake_repo() {
    let mut svc = user_service();

    let created = svc
        .create(NewUser { email: "a@b.com".into(), name: "Alice".into() })
        .unwrap();

    let fetched = svc.get(created.id).unwrap();
    assert_eq!(fetched.email, "a@b.com");

    let updated = svc
        .update(created.id, UpdateUser { email: None, name: Some("Alicia".into()) })
        .unwrap();
    assert_eq!(updated.name, "Alicia");

    svc.delete(created.id).unwrap();
    let err = svc.get(created.id).unwrap_err();
    assert!(matches!(err, RepoError::NotFound));
}

#[test]
fn create_then_get_returns_equal_record() {
    let mut svc = user_service();
    let created = svc
        .create(NewUser { email: "u@example.com".into(), name: "U".into() })
        .unwrap();
    assert_eq!(created.email, "u@example.com");
    assert_eq!(created.name, "U");
    assert_eq!(created.created_at, created.updated_at);
    let fetched = svc.get(created.id).unwrap();
    assert_eq!(fetched, created);
}

#[test]
fn product_create_then_get_returns_equal_record() {
    let mut svc = product_service();
    let created = svc
        .create(NewProduct { sku: "sku-1".into(), name: "Prod 1".into(), price_cents: 1234 })
        .unwrap();
    assert_eq!(created.sku, "sku-1");
    assert_eq!(created.price_cents, 1234);
    assert_eq!(created.created_at, created.updated_at);
    let fetched = svc.get(created.id).unwrap();
    assert_eq!(fetched, created);
}

#[test]
fn update_with_empty_patch_bumps_updated_at_only() {
    let mut svc = user_service();
    let created = svc
        .create(NewUser { email: "e@example.com".into(), name: "Eve".into() })
        .unwrap();
    let updated = svc
        .update(created.id, UpdateUser { email: None, name: None })
        .unwrap();
    assert_eq!(updated.email, created.email);
    assert_eq!(updated.name, created.name);
    assert_eq!(updated.created_at, created.created_at);
    assert!(updated.updated_at > created.updated_at);
}

#[test]
fn update_changes_only_the_named_field() {
    let mut svc = product_service();
    let created = svc
        .create(NewProduct { sku: "sku-a".into(), name: "Widget".into(), price_cents: 100 })
        .unwrap();
    let updated = svc
        .update(
            created.id,
            UpdateProduct { sku: None, name: None, price_cents: Some(250) },
        )
        .unwrap();
    assert_eq!(updated.sku, created.sku);
    assert_eq!(updated.name, created.name);
    assert_eq!(updated.price_cents, 250);
    assert_eq!(updated.created_at, created.created_at);
    assert!(updated.updated_at > created.updated_at);

    let renamed = svc
        .update(
            created.id,
            UpdateProduct { sku: None, name: Some("Gadget".into()), price_cents: None },
        )
        .unwrap();
    assert_eq!(renamed.name, "Gadget");
    assert_eq!(renamed.price_cents, 250);
    assert_eq!(renamed.sku, created.sku);
}

#[test]
fn delete_missing_id_returns_not_found_and_get_after_delete_fails() {
    let mut svc = user_service();
    let err = svc.delete(12345).unwrap_err();
    assert!(matches!(err, RepoError::NotFound));

    let created = svc
        .create(NewUser { email: "d@example.com".into(), name: "Dee".into() })
        .unwrap();
    svc.delete(created.id).unwrap();
    let err = svc.get(created.id).unwrap_err();
    assert!(matches!(err, RepoError::NotFound));
    let err = svc.delete(created.id).unwrap_err();
    assert!(matches!(err, RepoError::NotFound));
}

#[test]
fn duplicate_email_conflicts_and_creates_no_second_record() {
    let mut svc = user_service();
    svc.create(NewUser { email: "dup@example.com".into(), name: "One".into() })
        .unwrap();
    let err = svc
        .create(NewUser { email: "dup@example.com".into(), name: "Two".into() })
        .unwrap_err();
    assert!(matches!(err, RepoError::Conflict));
    let all = svc.list().unwrap();
    assert_eq!(all.len(), 1);
    assert_eq!(all[0].name, "One");
}

#[test]
fn duplicate_sku_conflicts_and_creates_no_second_record() {
    let mut svc = product_service();
    svc.create(NewProduct { sku: "sku-dup".into(), name: "One".into(), price_cents: 1 })
        .unwrap();
    let err = svc
        .create(NewProduct { sku: "sku-dup".into(), name: "Two".into(), price_cents: 2 })
        .unwrap_err();
    assert!(matches!(err, RepoError::Conflict));
    assert_eq!(svc.list().unwrap().len(), 1);
}

#[test]
fn update_to_taken_email_conflicts_but_own_email_is_allowed() {
    let mut svc = user_service();
    let first = svc
        .create(NewUser { email: "first@example.com".into(), name: "F".into() })
        .unwrap();
    let second = svc
        .create(NewUser { email: "second@example.com".into(), name: "S".into() })
        .unwrap();
    let err = svc
        .update(
            second.id,
            UpdateUser { email: Some("first@example.com".into()), name: None },
        )
        .unwrap_err();
    assert!(matches!(err, RepoError::Conflict));
    // Re-writing a record's own email is not a conflict.
    let kept = svc
        .update(first.id, UpdateUser { email: Some("first@example.com".into()), name: None })
        .unwrap();
    assert_eq!(kept.email, "first@example.com");
}

#[test]
fn update_missing_id_returns_not_found() {
    let mut svc = order_service();
    let err = svc
        .update(999, UpdateOrder { status: Some("paid".into()), total_cents: None })
        .unwrap_err();
    assert!(matches!(err, RepoError::NotFound));
}

#[test]
fn list_returns_newest_first_and_is_stable() {
    let mut svc = user_service();
    let a = svc.create(NewUser { email: "a@example.com".into(), name: "A".into() }).unwrap();
    let b = svc.create(NewUser { email: "b@example.com".into(), name: "B".into() }).unwrap();
    let c = svc.create(NewUser { email: "c@example.com".into(), name: "C".into() }).unwrap();

    let listed = svc.list().unwrap();
    assert_eq!(listed.len(), 3);
    assert_eq!(listed[0].id, c.id);
    assert_eq!(listed[1].id, b.id);
    assert_eq!(listed[2].id, a.id);
    assert!(listed[0].created_at > listed[1].created_at);
    assert!(listed[1].created_at > listed[2].created_at);

    let again = svc.list().unwrap();
    assert_eq!(again, listed);
}

#[test]
fn empty_list_is_not_an_error() {
    let svc = order_service();
    let listed = svc.list().unwrap();
    assert!(listed.is_empty());
}

#[test]
fn user_and_order_end_to_end_scenario() {
    let mut users = user_service();
    let mut orders = order_service();

    let user = users
        .create(NewUser { email: "a@b.com".into(), name: "Alice".into() })
        .unwrap();

    let order = orders
        .create(NewOrder { user_id: user.id, status: "created".into(), total_cents: 1000 })
        .unwrap();
    assert_eq!(order.user_id, user.id);
    assert_eq!(order.status, "created");
    assert_eq!(order.total_cents, 1000);

    orders
        .update(order.id, UpdateOrder { status: Some("paid".into()), total_cents: None })
        .unwrap();
    let fetched = orders.get(order.id).unwrap();
    assert_eq!(fetched.status, "paid");
    assert_eq!(fetched.total_cents, 1000);

    orders.delete(order.id).unwrap();
    let err = orders.get(order.id).unwrap_err();
    assert!(matches!(err, RepoError::NotFound));
}
