use twotter::data::{TwotterError, TwotterErrorKind, TWOTTS_ON_A_PAGE};

#[test]
fn error_messages() {
    let cases = [
        (TwotterErrorKind::UserAlreadyExists, "User already exists"),
        (TwotterErrorKind::UserDoesntExist, "User doesn't exist"),
        (TwotterErrorKind::WrongPassword, "Wrong password"),
        (TwotterErrorKind::UnloggedAccessAttempt, "Unlogged access attempt"),
        (TwotterErrorKind::ErrorParsingResponse, "Error parsing response"),
    ];
    for (kind, text) in cases {
        let e = TwotterError::new(kind);
        assert_eq!(e.kind, kind);
        assert_eq!(e.message(), text);
    }
}

#[test]
fn page_size() {
    assert_eq!(TWOTTS_ON_A_PAGE, 10);
}
