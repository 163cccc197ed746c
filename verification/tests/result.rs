use dbcell::DbResult;
use dbcell::Error;
use dbcell::ErrorKind;

#[test]
fn result() {
    let result: DbResult<&str> = Ok("test");
    assert_eq!(result.unwrap(), "test");

    let result: DbResult<&str> = Err(Error::from(ErrorKind::Other));
    assert_eq!(result.unwrap_err().description(), "other");

    let result: DbResult<&str> = Err(Error::new(ErrorKind::Other, "test other"));
    assert_eq!(result.unwrap_err().description(), "test other");
}
