//! The messages that client and server exchange.

use vstd::prelude::*;
use vstd::string::*;

verus! {

/// How many twotts a page of the feed holds.
pub const TWOTTS_ON_A_PAGE: usize = 10;

/// What a client asks of the server.
#[derive(Debug, Clone, PartialEq, Eq)]
pub enum Request {
    /// Log in with a login and a password.
    LoginInfo(String, String),
    /// Register a login with a password.
    RegistrationInfo(String, String),
    /// Post a twott.
    Post(String),
    /// One page of the feed; the number is the page number.
    Feed(usize),
    /// Subscribe to the twotts of a user.
    Subscribe(String),
    /// The list of users.
    UserList,
    /// The list of subscriptions of the logged-in user.
    SubscriptionList,
    /// Log out.
    LogOut,
    /// One page of the twotts of a user.
    Page(String, usize),
}

/// A moment, as seconds since the Unix epoch, that the store keeps as a
/// 64-bit float; it is held here by the bits of that float and carried
/// through unread.
#[derive(Debug, Clone, Copy, PartialEq, Eq, Structural)]
pub struct Timestamp {
    pub bits: u64,
}

/// A twott as the client shows it: author, text and the moment it was posted.
pub type TwottEntry = (String, String, Timestamp);

/// What the server answers.
#[derive(Debug, Clone, PartialEq, Eq)]
pub enum Response {
    NumberOfTwotts(usize),
    NumberOfPages(usize),
    /// (author, twott, timestamp)
    Twott(String, String, Timestamp),
    /// The twotts of one page and the number of pages.
    Page(Vec<TwottEntry>, usize),
    /// The subscriptions, each name followed by a comma.
    SubscriptionList(String),
    UserList(Vec<String>),
    /// An answer that carries nothing.
    Empty,
}

/// An error the server reports, or the client meets.
#[derive(Debug, Clone, Copy, PartialEq, Eq, Structural)]
pub struct TwotterError {
    pub kind: TwotterErrorKind,
}

#[derive(Debug, Clone, Copy, PartialEq, Eq, Structural)]
pub enum TwotterErrorKind {
    UserAlreadyExists,
    UserDoesntExist,
    WrongPassword,
    UnloggedAccessAttempt,
    ErrorParsingResponse,
}

/// The views of a list of strings.
pub open spec fn string_views(names: Seq<String>) -> Seq<Seq<char>> {
    names.map_values(|s: String| s@)
}

/// A twott as seen in contracts: author, text and moment.
pub type TwottEntryView = (Seq<char>, Seq<char>, Timestamp);

/// The views of a list of twotts.
pub open spec fn entry_views(entries: Seq<TwottEntry>) -> Seq<TwottEntryView> {
    entries.map_values(|e: TwottEntry| (e.0@, e.1@, e.2))
}

/// A request as seen in contracts.
pub enum RequestView {
    LoginInfo(Seq<char>, Seq<char>),
    RegistrationInfo(Seq<char>, Seq<char>),
    Post(Seq<char>),
    Feed(usize),
    Subscribe(Seq<char>),
    UserList,
    SubscriptionList,
    LogOut,
    Page(Seq<char>, usize),
}

impl View for Request {
    type V = RequestView;

    open spec fn view(&self) -> RequestView {
        match self {
            Request::LoginInfo(l, p) => RequestView::LoginInfo(l@, p@),
            Request::RegistrationInfo(l, p) => RequestView::RegistrationInfo(l@, p@),
            Request::Post(t) => RequestView::Post(t@),
            Request::Feed(n) => RequestView::Feed(*n),
            Request::Subscribe(name) => RequestView::Subscribe(name@),
            Request::UserList => RequestView::UserList,
            Request::SubscriptionList => RequestView::SubscriptionList,
            Request::LogOut => RequestView::LogOut,
            Request::Page(name, n) => RequestView::Page(name@, *n),
        }
    }
}

/// The text shown for an error of the given kind.
pub open spec fn error_text(kind: TwotterErrorKind) -> Seq<char> {
    match kind {
        TwotterErrorKind::UserAlreadyExists => "User already exists"@,
        TwotterErrorKind::UserDoesntExist => "User doesn't exist"@,
        TwotterErrorKind::WrongPassword => "Wrong password"@,
        TwotterErrorKind::UnloggedAccessAttempt => "Unlogged access attempt"@,
        TwotterErrorKind::ErrorParsingResponse => "Error parsing response"@,
    }
}

impl TwotterError {
    /// An error of the given kind.
    pub fn new(kind: TwotterErrorKind) -> (e: TwotterError)
        ensures
            e.kind == kind,
    {
        TwotterError { kind }
    }

    /// The text shown for this error.
    pub fn message(&self) -> (text: String)
        ensures
            text@ == error_text(self.kind),
    {
        match self.kind {
            TwotterErrorKind::UserAlreadyExists => "User already exists".to_owned(),
            TwotterErrorKind::UserDoesntExist => "User doesn't exist".to_owned(),
            TwotterErrorKind::WrongPassword => "Wrong password".to_owned(),
            TwotterErrorKind::UnloggedAccessAttempt => "Unlogged access attempt".to_owned(),
            TwotterErrorKind::ErrorParsingResponse => "Error parsing response".to_owned(),
        }
    }
}

} // verus!
