use report_views::error::{ReportError, StoreFault};

#[test]
fn fault_of_the_store_maps_to_an_outcome() {
    assert_eq!(ReportError::from_fault(StoreFault::NoRows), ReportError::NotFound);
    assert_eq!(ReportError::from_fault(StoreFault::Malformed), ReportError::InvalidArgument);
    assert_eq!(ReportError::from_fault(StoreFault::Other), ReportError::StoreUnavailable);
}

#[test]
fn query_without_rows_is_not_found() {
    let err = diesel::result::Error::NotFound;
    assert_eq!(ReportError::from_store_error(&err), ReportError::NotFound);
}

#[test]
fn query_that_cannot_be_built_is_an_invalid_argument() {
    let err = diesel::result::Error::QueryBuilderError("Page is < 1".into());
    assert_eq!(ReportError::from_store_error(&err), ReportError::InvalidArgument);
}

#[test]
fn other_store_errors_are_unavailability() {
    for err in [
        diesel::result::Error::RollbackTransaction,
        diesel::result::Error::AlreadyInTransaction,
        diesel::result::Error::NotInTransaction,
        diesel::result::Error::BrokenTransactionManager,
        diesel::result::Error::DeserializationError("bad row".into()),
        diesel::result::Error::SerializationError("bad value".into()),
    ] {
        assert_eq!(ReportError::from_store_error(&err), ReportError::StoreUnavailable);
    }
}
