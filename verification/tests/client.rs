use twotter::client::{Awaiting, ClientAction, Message, State, Twottr};
use twotter::data::{Request, Response, Timestamp, TwotterError, TwotterErrorKind};

fn s(x: &str) -> String {
    String::from(x)
}

fn logged_in(name: &str) -> Twottr {
    let mut t = Twottr::new();
    t.update(Message::LoginChanged(s(name)));
    t.update(Message::PasswordChanged(s("pw")));
    t.update(Message::LoginRequestSubmitted);
    t.receive(Ok(Response::Empty));
    t.receive(Ok(Response::SubscriptionList(s(""))));
    t.receive(Ok(Response::Page(vec![], 0)));
    assert_eq!(t.receive(Ok(Response::UserList(vec![]))), ClientAction::Idle);
    t
}

#[test]
fn starts_on_connection_screen() {
    let t = Twottr::new();
    assert_eq!(t.state, State::Connection);
    assert_eq!(State::default(), State::Connection);
    assert_eq!(t.login_status, None);
    assert_eq!(t.awaiting, Awaiting::Nothing);
    assert!(t.page.is_empty());
    assert_eq!(t.error_banner(), "");
}

#[test]
fn connect_to_typed_address() {
    let mut t = Twottr::new();
    assert_eq!(t.update(Message::AddressChanged(s("10.0.0.1:8080"))), ClientAction::Idle);
    assert_eq!(t.update(Message::AddressSubmitted), ClientAction::Connect(s("10.0.0.1:8080")));
    assert_eq!(t.connected(true), ClientAction::Idle);
    assert_eq!(t.state, State::LoginScreen);
    assert_eq!(t.address_textbox, "");
    assert!(!t.connection_error);
    assert_eq!(t.awaiting, Awaiting::Nothing);
}

#[test]
fn failed_local_connection() {
    let mut t = Twottr::new();
    assert_eq!(t.update(Message::LocalServer), ClientAction::Connect(s("127.0.0.1:8080")));
    assert_eq!(t.connected(false), ClientAction::Idle);
    assert!(t.connection_error);
    assert_eq!(t.state, State::Connection);
    // a connection outcome nobody waits for changes nothing
    assert_eq!(t.connected(true), ClientAction::Idle);
    assert_eq!(t.state, State::Connection);
}

#[test]
fn full_login_exchange() {
    let mut t = Twottr::new();
    t.update(Message::LoginChanged(s("alice")));
    t.update(Message::PasswordChanged(s("secret")));
    assert_eq!(
        t.update(Message::LoginRequestSubmitted),
        ClientAction::Send(Request::LoginInfo(s("alice"), s("secret")))
    );
    assert_eq!(t.subscription_list, vec![s("debug1,")]);
    assert_eq!(t.receive(Ok(Response::Empty)), ClientAction::Send(Request::SubscriptionList));
    assert_eq!(t.state, State::Main);
    assert_eq!(t.login_status, Some(s("alice")));
    assert_eq!(t.login_textbox, "");
    assert_eq!(t.password_textbox, "");
    assert_eq!(
        t.receive(Ok(Response::SubscriptionList(s("bob,")))),
        ClientAction::Send(Request::Feed(0))
    );
    assert_eq!(t.subscription_list, vec![s("bob,")]);
    let entry = (s("bob"), s("hi"), Timestamp { bits: 1 });
    assert_eq!(
        t.receive(Ok(Response::Page(vec![entry.clone()], 1))),
        ClientAction::Send(Request::UserList)
    );
    assert_eq!(t.page, vec![entry]);
    assert_eq!(t.num_of_pages, 1);
    assert_eq!(t.receive(Ok(Response::UserList(vec![s("bob"), s("alice")]))), ClientAction::Idle);
    assert_eq!(t.user_list, vec![s("bob"), s("alice")]);
    assert_eq!(t.awaiting, Awaiting::Nothing);
}

#[test]
fn login_needs_both_boxes() {
    let mut t = Twottr::new();
    t.update(Message::LoginChanged(s("alice")));
    assert_eq!(t.update(Message::LoginRequestSubmitted), ClientAction::Idle);
    assert_eq!(t.subscription_list, vec![s("debug1,")]);
    assert_eq!(t.awaiting, Awaiting::Nothing);
}

#[test]
fn refused_login_shows_error() {
    let mut t = Twottr::new();
    t.update(Message::LoginChanged(s("alice")));
    t.update(Message::PasswordChanged(s("x")));
    t.update(Message::LoginRequestSubmitted);
    let e = TwotterError::new(TwotterErrorKind::WrongPassword);
    assert_eq!(t.receive(Err(e)), ClientAction::Idle);
    assert_eq!(t.error, Some(e));
    assert_eq!(t.login_status, None);
    assert_eq!(t.error_banner(), "Error: Wrong password");
}

#[test]
fn errors_during_login_exchange_are_shown() {
    let mut t = Twottr::new();
    t.update(Message::LoginChanged(s("alice")));
    t.update(Message::PasswordChanged(s("x")));
    t.update(Message::LoginRequestSubmitted);
    t.receive(Ok(Response::Empty));
    let e = TwotterError::new(TwotterErrorKind::UnloggedAccessAttempt);
    assert_eq!(t.receive(Err(e)), ClientAction::Send(Request::Feed(0)));
    assert_eq!(t.error, Some(e));
}

#[test]
fn registration_needs_matching_passwords() {
    let mut t = Twottr::new();
    t.update(Message::Registration);
    assert_eq!(t.state, State::RegistrationScreen);
    t.update(Message::LoginChanged(s("bob")));
    t.update(Message::PasswordChanged(s("a")));
    t.update(Message::PasswordConfirmationChanged(s("b")));
    assert_eq!(t.update(Message::RegistrationRequestSubmitted), ClientAction::Idle);
    t.update(Message::PasswordConfirmationChanged(s("a")));
    assert_eq!(
        t.update(Message::RegistrationRequestSubmitted),
        ClientAction::Send(Request::RegistrationInfo(s("bob"), s("a")))
    );
    assert_eq!(t.receive(Ok(Response::Empty)), ClientAction::Idle);
    assert_eq!(t.state, State::LoginScreen);
    assert_eq!(t.login_textbox, "");
    assert_eq!(t.password_textbox, "");
    assert_eq!(t.password_conf_textbox, "");
}

#[test]
fn registration_refused() {
    let mut t = Twottr::new();
    t.update(Message::LoginChanged(s("bob")));
    t.update(Message::PasswordChanged(s("a")));
    t.update(Message::PasswordConfirmationChanged(s("a")));
    t.update(Message::RegistrationRequestSubmitted);
    let e = TwotterError::new(TwotterErrorKind::UserAlreadyExists);
    assert_eq!(t.receive(Err(e)), ClientAction::Idle);
    assert_eq!(t.error, Some(e));
    assert_eq!(t.login_textbox, "bob");
}

#[test]
fn log_out() {
    let mut t = logged_in("alice");
    t.page = vec![(s("a"), s("b"), Timestamp { bits: 0 })];
    assert_eq!(t.update(Message::LogOut), ClientAction::Send(Request::LogOut));
    assert_eq!(t.receive(Ok(Response::Empty)), ClientAction::ResetReader);
    assert_eq!(t.login_status, None);
    assert!(t.page.is_empty());
    assert_eq!(t.state, State::LoginScreen);
}

#[test]
fn post_then_own_page() {
    let mut t = logged_in("alice");
    assert_eq!(t.update(Message::TwottSubmitted), ClientAction::Idle);
    t.update(Message::TwottChanged(s("hello")));
    assert_eq!(t.update(Message::TwottSubmitted), ClientAction::Send(Request::Post(s("hello"))));
    assert_eq!(t.receive(Ok(Response::Empty)), ClientAction::Send(Request::Page(s("alice"), 0)));
    assert_eq!(t.twott_textbox, "");
    let entry = (s("alice"), s("hello"), Timestamp { bits: 2 });
    assert_eq!(t.receive(Ok(Response::Page(vec![entry.clone()], 1))), ClientAction::Idle);
    assert_eq!(t.page, vec![entry]);
}

#[test]
fn pages_and_users() {
    let mut t = logged_in("alice");
    assert_eq!(t.update(Message::MyPage(2)), ClientAction::Send(Request::Page(s("alice"), 0)));
    t.receive(Ok(Response::Page(vec![], 4)));
    assert_eq!(t.state, State::MyPage);
    assert_eq!(t.current_page_num, 2);
    assert_eq!(t.num_of_pages, 4);
    assert_eq!(t.update(Message::Page(s("bob"), 1)), ClientAction::Send(Request::Page(s("bob"), 1)));
    t.receive(Ok(Response::Page(vec![], 2)));
    assert_eq!(t.state, State::Page(s("bob")));
    assert_eq!(t.current_page_num, 1);
    assert_eq!(t.update(Message::RefreshUsers), ClientAction::Send(Request::UserList));
    t.receive(Ok(Response::UserList(vec![s("carol")])));
    assert_eq!(t.state, State::Page(s("bob")));
    assert_eq!(t.user_list, vec![s("carol")]);
    assert_eq!(t.update(Message::Users), ClientAction::Send(Request::UserList));
    t.receive(Ok(Response::UserList(vec![s("dave")])));
    assert_eq!(t.state, State::Users);
    assert_eq!(t.update(Message::Feed), ClientAction::Send(Request::Feed(0)));
    t.receive(Ok(Response::Page(vec![], 0)));
    assert_eq!(t.state, State::Main);
}

#[test]
fn unexpected_answers_leave_screen() {
    let mut t = logged_in("alice");
    t.update(Message::Users);
    assert_eq!(t.receive(Ok(Response::Empty)), ClientAction::Idle);
    assert_eq!(t.state, State::Main);
    assert_eq!(t.awaiting, Awaiting::Nothing);
    assert_eq!(t.receive(Ok(Response::Empty)), ClientAction::Idle);
}

#[test]
fn small_messages() {
    let mut t = Twottr::new();
    assert!(!t.show_password);
    t.update(Message::ShowPassword(true));
    assert!(t.show_password);
    t.update(Message::ShowPassword(true));
    assert!(!t.show_password);
    assert_eq!(t.update(Message::Subscribe(s("bob"))), ClientAction::SendOnly(Request::Subscribe(s("bob"))));
    assert_eq!(t.awaiting, Awaiting::Nothing);
    assert_eq!(t.update(Message::SearchChanged(s("x"))), ClientAction::Idle);
    assert_eq!(t.update(Message::SearchSubmitted), ClientAction::Idle);
    assert_eq!(t.search_textbox, "");
}

#[test]
fn own_page_needs_login() {
    let t = Twottr::new();
    assert!(!t.update_allowed(&Message::MyPage(0)));
    assert!(t.update_allowed(&Message::Feed));
    let u = logged_in("alice");
    assert!(u.update_allowed(&Message::MyPage(0)));
    let mut v = Twottr::new();
    v.update(Message::TwottChanged(s("x")));
    v.update(Message::TwottSubmitted);
    assert!(!v.receive_allowed(&Ok(Response::Empty)));
    assert!(v.receive_allowed(&Err(TwotterError::new(TwotterErrorKind::WrongPassword))));
}
