use twotter::data::{Response, TwotterError, TwotterErrorKind};
use twotter::session::{announced_twotts, login_after_reply};

#[test]
fn identity_replaced_only_by_new_one() {
    let mut login = String::new();
    login_after_reply(&mut login, None);
    assert_eq!(login, "");
    login_after_reply(&mut login, Some(String::from("alice")));
    assert_eq!(login, "alice");
    login_after_reply(&mut login, None);
    assert_eq!(login, "alice");
    login_after_reply(&mut login, Some(String::from("bob")));
    assert_eq!(login, "bob");
}

#[test]
fn announced_twotts_counts() {
    assert_eq!(announced_twotts(&Ok(Response::NumberOfTwotts(3))), Some(3));
    assert_eq!(announced_twotts(&Ok(Response::NumberOfTwotts(0))), Some(0));
    assert_eq!(announced_twotts(&Ok(Response::Empty)), None);
    assert_eq!(announced_twotts(&Ok(Response::NumberOfPages(3))), None);
    let err: Result<Response, TwotterError> = Err(TwotterError::new(TwotterErrorKind::WrongPassword));
    assert_eq!(announced_twotts(&err), None);
}
