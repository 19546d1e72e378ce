use shared_resources::AccessError;

#[test]
fn error_kinds_compare_and_copy() {
    let missing = AccessError::NoSuchResource;
    let busy = AccessError::AlreadyBorrowed;
    assert_eq!(missing, AccessError::NoSuchResource);
    assert_eq!(busy, AccessError::AlreadyBorrowed);
    assert_ne!(missing, busy);

    let copied = missing;
    assert_eq!(copied, missing);
}

#[test]
fn error_messages_describe_the_failure() {
    assert_eq!(
        AccessError::NoSuchResource.message(),
        "There is no resource of the requested type."
    );
    assert_eq!(
        AccessError::AlreadyBorrowed.message(),
        "The requested resource is already borrowed."
    );
}
