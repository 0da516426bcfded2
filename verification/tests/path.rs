use grm::path::{expand_path, Error};

#[test]
fn check_expand_tilde() -> Result<(), Error> {
    assert_eq!(expand_path("~/file", "/home/test")?, "/home/test/file");
    Ok(())
}

#[test]
fn check_expand_invalid_tilde() -> Result<(), Error> {
    assert_eq!(expand_path("/home/~/file", "/home/test")?, "/home/~/file");
    Ok(())
}

#[test]
fn check_expand_home() -> Result<(), Error> {
    assert_eq!(expand_path("$HOME/file", "/home/test")?, "/home/test/file");
    assert_eq!(expand_path("${HOME}/file", "/home/test")?, "/home/test/file");
    Ok(())
}

#[test]
fn other_variables_stay_as_they_are() -> Result<(), Error> {
    assert_eq!(expand_path("$OTHER/file", "/home/test")?, "$OTHER/file");
    Ok(())
}
