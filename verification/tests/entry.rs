use oxic::entry::check_entry;
use oxic::entry::EntryError;

#[test]
fn async_function_without_parameters_is_accepted() {
    assert_eq!(check_entry(true, 0), Ok(()));
}

#[test]
fn function_that_is_not_async_is_refused() {
    assert_eq!(check_entry(false, 0), Err(EntryError::NotAsync));
    // That it is not async is found before its parameters are counted.
    assert_eq!(check_entry(false, 2), Err(EntryError::NotAsync));
}

#[test]
fn function_with_parameters_is_refused() {
    assert_eq!(check_entry(true, 1), Err(EntryError::HasParameters));
    assert_eq!(check_entry(true, usize::MAX), Err(EntryError::HasParameters));
}

#[test]
fn messages_are_exact() {
    assert_eq!(EntryError::NotAsync.message(), "entry point function must be async");
    assert_eq!(
        EntryError::HasParameters.message(),
        "entry point function must not have any parameters"
    );
}
