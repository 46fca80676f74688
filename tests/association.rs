use graphql_api::association::{try_unwrap, unboxed, AssociationError, AssociationType, HasOne};

#[test]
fn loaded_one_is_lent_out() {
    let a: HasOne<u32> = Ok(7);
    assert_eq!(try_unwrap(&a), Ok(&7));
}

#[test]
fn missing_one_reports_why() {
    let a: HasOne<u32> = Err(AssociationError::NotLoaded(AssociationType::HasOne));
    assert_eq!(try_unwrap(&a), Err(AssociationError::NotLoaded(AssociationType::HasOne)));
    let b: HasOne<u32> = Err(AssociationError::LoadFailed(AssociationType::HasOne));
    assert_eq!(try_unwrap(&b), Err(AssociationError::LoadFailed(AssociationType::HasOne)));
}

#[test]
fn boxed_option_is_lent_unboxed() {
    let some: Option<Box<String>> = Some(Box::new("x".to_string()));
    assert_eq!(unboxed(&some), Some(&"x".to_string()));
    let none: Option<Box<String>> = None;
    assert_eq!(unboxed(&none), None);
}
