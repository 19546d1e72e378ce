use shared_resources::AccessError;
use shared_resources::Resources;

#[derive(Debug, PartialEq)]
struct TestResource(&'static str);

#[test]
fn should_access_stored_resources() {
    let mut resources = Resources::default();
    resources.insert(TestResource("Hello, World!"));

    {
        let mut resource = resources.get_mut::<TestResource>().unwrap();
        resource.value_mut().0 = "Goodbye, World!";
    }

    let resource = resources.get::<TestResource>().unwrap();
    assert_eq!(resource.value().0, "Goodbye, World!");
}

#[test]
fn should_insert_and_remove_resources() {
    let mut resources = Resources::default();
    resources.insert(TestResource("Hello, World!"));

    {
        let resource = resources.get::<TestResource>().unwrap();
        assert_eq!(resource.value().0, "Hello, World!");
    }

    assert!(resources.remove::<TestResource>().is_some());
}

#[test]
fn should_block_invalid_borrows() {
    let mut resources = Resources::default();
    resources.insert(TestResource("Hello, World!"));
    {
        let borrow_a = resources.get::<TestResource>();
        let borrow_b = resources.get::<TestResource>();
        let borrow_c = resources.get_mut::<TestResource>();

        assert!(borrow_a.is_ok());
        assert!(borrow_b.is_ok());
        assert_eq!(borrow_c.unwrap_err(), AccessError::AlreadyBorrowed);
    }
    {
        let borrow_a = resources.get_mut::<TestResource>();
        let borrow_b = resources.get_mut::<TestResource>();
        let borrow_c = resources.get::<TestResource>();

        assert!(borrow_a.is_ok());
        assert_eq!(borrow_b.unwrap_err(), AccessError::AlreadyBorrowed);
        assert_eq!(borrow_c.unwrap_err(), AccessError::AlreadyBorrowed);
    }
}

#[test]
fn should_handle_missing_resources() {
    let resources = Resources::default();
    let borrow_a = resources.get::<TestResource>();
    let borrow_b = resources.get_mut::<TestResource>();

    assert_eq!(borrow_a.unwrap_err(), AccessError::NoSuchResource);
    assert_eq!(borrow_b.unwrap_err(), AccessError::NoSuchResource);
}

#[test]
fn second_insert_replaces_first() {
    let mut resources = Resources::new();
    resources.insert(TestResource("first"));
    resources.insert(TestResource("second"));

    {
        let resource = resources.get::<TestResource>().unwrap();
        assert_eq!(resource.value().0, "second");
    }

    assert_eq!(resources.remove::<TestResource>(), Some(TestResource("second")));
    assert_eq!(resources.remove::<TestResource>(), None);
}

#[test]
fn remove_returns_ownership() {
    let mut resources = Resources::new();
    resources.insert(TestResource("a"));

    assert_eq!(resources.remove::<TestResource>(), Some(TestResource("a")));
    assert_eq!(resources.remove::<TestResource>(), None);
}

#[test]
fn dropping_guards_readmits_exclusive() {
    let mut resources = Resources::new();
    resources.insert(TestResource("shared"));

    {
        let borrow_a = resources.get::<TestResource>();
        let borrow_b = resources.get::<TestResource>();
        assert!(borrow_a.is_ok());
        assert!(borrow_b.is_ok());
    }

    {
        let borrow = resources.get_mut::<TestResource>();
        assert!(borrow.is_ok());
    }

    let borrow = resources.get_mut::<TestResource>();
    assert!(borrow.is_ok());
}

#[derive(Debug, PartialEq)]
struct OtherResource(u64);

#[test]
fn unrelated_types_are_independent() {
    let mut resources = Resources::new();
    resources.insert(TestResource("a"));
    resources.insert(OtherResource(7));

    let borrow_a = resources.get_mut::<TestResource>();
    let borrow_b = resources.get_mut::<OtherResource>();
    assert!(borrow_a.is_ok());
    assert!(borrow_b.is_ok());

    let blocked = resources.get::<TestResource>();
    assert_eq!(blocked.unwrap_err(), AccessError::AlreadyBorrowed);

    let open = resources.get_mut::<OtherResource>();
    assert_eq!(open.unwrap_err(), AccessError::AlreadyBorrowed);
    drop(borrow_b);

    let reopened = resources.get_mut::<OtherResource>();
    assert!(reopened.is_ok());
}

#[test]
fn sync_handle_reaches_the_same_store() {
    let mut resources = Resources::new();
    resources.insert(TestResource("Hello, World!"));
    let resources_sync = resources.sync();

    {
        let mut resource = resources_sync.get_mut::<TestResource>().unwrap();
        resource.value_mut().0 = "Goodbye, World!";
    }

    let resource = resources_sync.get::<TestResource>().unwrap();
    assert_eq!(resource.value().0, "Goodbye, World!");
}

#[test]
fn sync_handle_reports_missing_resources() {
    let mut resources = Resources::new();
    let resources_sync = resources.sync();

    let borrow_a = resources_sync.get::<TestResource>();
    let borrow_b = resources_sync.get_mut::<TestResource>();
    assert_eq!(borrow_a.unwrap_err(), AccessError::NoSuchResource);
    assert_eq!(borrow_b.unwrap_err(), AccessError::NoSuchResource);
}

#[test]
fn sync_handle_tracks_borrows() {
    let mut resources = Resources::new();
    resources.insert(TestResource("x"));
    let resources_sync = resources.sync();

    let shared = resources_sync.get::<TestResource>();
    assert!(shared.is_ok());
    let blocked = resources_sync.get_mut::<TestResource>();
    assert_eq!(blocked.unwrap_err(), AccessError::AlreadyBorrowed);
    drop(shared);

    let exclusive = resources_sync.get_mut::<TestResource>();
    assert!(exclusive.is_ok());
}
