use plannet::error::{classify, write_outcome, Failure, RepoError, StoreError};

#[test]
fn a_failure_without_a_code_is_a_data_failure() {
    assert_eq!(classify(None), Failure::Data);
}

#[test]
fn cannot_open_is_told_by_its_primary_code() {
    assert_eq!(classify(Some(14)), Failure::CannotOpen);
    assert_eq!(classify(Some(14 + 256)), Failure::CannotOpen);
    assert_eq!(classify(Some(14 + 4 * 256)), Failure::CannotOpen);
}

#[test]
fn file_trouble_is_io() {
    for primary in [3, 5, 6, 8, 10, 13, 15, 22] {
        assert_eq!(classify(Some(primary)), Failure::Io, "{}", primary);
        assert_eq!(classify(Some(primary + 2 * 256)), Failure::Io, "{}", primary);
    }
    assert_eq!(classify(Some(1032)), Failure::Io);
    assert_eq!(classify(Some(2570)), Failure::Io);
}

#[test]
fn everything_else_is_the_engine() {
    for code in [0, 1, 2, 4, 7, 9, 11, 12, 16, 17, 18, 19, 20, 21, 23, 24, 25, 26, 100, 101,
        255, 256, 257, 1 + 256, 19 + 8 * 256, 2067, i32::MAX] {
        assert_eq!(classify(Some(code)), Failure::Engine, "{}", code);
    }
    for code in [-1, -14, -256, -242, i32::MIN] {
        assert_eq!(classify(Some(code)), Failure::Engine, "{}", code);
    }
}

#[test]
fn each_kind_maps_to_its_errors() {
    assert_eq!(Failure::CannotOpen.as_store_error(), StoreError::Io);
    assert_eq!(Failure::Io.as_store_error(), StoreError::Io);
    assert_eq!(Failure::Data.as_store_error(), StoreError::Schema);
    assert_eq!(Failure::Engine.as_store_error(), StoreError::Schema);

    assert_eq!(Failure::CannotOpen.as_open_error(), RepoError::NotFound);
    assert_eq!(Failure::Io.as_open_error(), RepoError::Io);
    assert_eq!(Failure::Data.as_open_error(), RepoError::Io);
    assert_eq!(Failure::Engine.as_open_error(), RepoError::Io);

    assert_eq!(Failure::CannotOpen.as_read_error(), RepoError::Io);
    assert_eq!(Failure::Io.as_read_error(), RepoError::Io);
    assert_eq!(Failure::Data.as_read_error(), RepoError::InvalidState);
    assert_eq!(Failure::Engine.as_read_error(), RepoError::Schema);

    assert_eq!(Failure::CannotOpen.as_write_error(), RepoError::Io);
    assert_eq!(Failure::Io.as_write_error(), RepoError::Io);
    assert_eq!(Failure::Data.as_write_error(), RepoError::Schema);
    assert_eq!(Failure::Engine.as_write_error(), RepoError::Schema);
}

#[test]
fn a_write_of_a_row_takes_effect_if_it_changed_a_row() {
    assert_eq!(write_outcome(Ok(1), true), Ok(true));
    assert_eq!(write_outcome(Ok(2), true), Ok(true));
    assert_eq!(write_outcome(Ok(usize::MAX), true), Ok(true));
    assert_eq!(write_outcome(Ok(0), true), Ok(false));
}

#[test]
fn a_write_that_needs_no_row_takes_effect_when_carried_out() {
    assert_eq!(write_outcome(Ok(0), false), Ok(true));
    assert_eq!(write_outcome(Ok(1), false), Ok(true));
    assert_eq!(write_outcome(Ok(7), false), Ok(true));
}

#[test]
fn a_failed_write_is_sorted_by_its_code() {
    for needs_row in [true, false] {
        assert_eq!(write_outcome(Err(None), needs_row), Err(Failure::Data));
        assert_eq!(write_outcome(Err(Some(14)), needs_row), Err(Failure::CannotOpen));
        assert_eq!(write_outcome(Err(Some(8)), needs_row), Err(Failure::Io));
        assert_eq!(write_outcome(Err(Some(1032)), needs_row), Err(Failure::Io));
        assert_eq!(write_outcome(Err(Some(1)), needs_row), Err(Failure::Engine));
        assert_eq!(write_outcome(Err(Some(2067)), needs_row), Err(Failure::Engine));
        assert_eq!(write_outcome(Err(Some(-1)), needs_row), Err(Failure::Engine));
    }
}
