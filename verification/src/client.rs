//! The client's screen logic. The window hands each user [`Message`] to
//! [`Twottr::update`]; the action that comes back tells it what to do with
//! the connection (connect, send a request), and the outcome of that is
//! handed back through [`Twottr::connected`] or [`Twottr::receive`], which
//! may ask for more, until an action ends the exchange.

use crate::data::{
    entry_views, error_text, string_views, Request, RequestView, Response, TwottEntry, TwottEntryView,
    TwotterError,
};
use vstd::prelude::*;
use vstd::string::*;

verus! {

/// The address of a server on this machine.
pub open spec fn local_server() -> Seq<char> {
    "127.0.0.1:8080"@
}

/// The text that the login button adds to the subscriptions it shows.
pub open spec fn debug_subscription() -> Seq<char> {
    "debug1,"@
}

/// The screen the client shows.
#[derive(Debug, Clone, PartialEq, Eq)]
pub enum State {
    Connection,
    LoginScreen,
    RegistrationScreen,
    Main,
    Users,
    MyPage,
    /// The twotts of the named user.
    Page(String),
}

impl Default for State {
    fn default() -> (s: State)
        ensures
            s == State::Connection,
    {
        State::Connection
    }
}

/// What the user did.
#[derive(Debug, Clone, PartialEq, Eq)]
pub enum Message {
    LocalServer,
    AddressChanged(String),
    AddressSubmitted,
    LoginChanged(String),
    PasswordChanged(String),
    PasswordConfirmationChanged(String),
    LoginRequestSubmitted,
    Registration,
    RegistrationRequestSubmitted,
    ShowPassword(bool),
    LogOut,
    TwottChanged(String),
    TwottSubmitted,
    SearchChanged(String),
    SearchSubmitted,
    Subscribe(String),
    RefreshUsers,
    Feed,
    MyPage(usize),
    Page(String, usize),
    Users,
}

/// The reply the client waits for, and what it is for.
#[derive(Debug, Clone, PartialEq, Eq)]
pub enum Awaiting {
    Nothing,
    Connection,
    LoginResult,
    LoginSubscriptions,
    LoginFeed,
    LoginUsers,
    Registration,
    LogOut,
    PostResult,
    PostPage,
    /// The user list; `show` switches to the user screen.
    Users { show: bool },
    Feed,
    MyPage(usize),
    Page(String, usize),
}

/// What the window does next with the connection.
#[derive(Debug, PartialEq, Eq)]
pub enum ClientAction {
    /// Nothing: the exchange is over.
    Idle,
    /// Connect to the address and report whether it worked.
    Connect(String),
    /// Send the request and hand back the reply.
    Send(Request),
    /// Send the request; no reply is read.
    SendOnly(Request),
    /// The exchange is over; drop whatever was received and not yet read.
    ResetReader,
}

/// The client's state.
#[derive(Debug)]
pub struct Twottr {
    pub state: State,
    pub address_textbox: String,
    pub connection_error: bool,
    pub login_status: Option<String>,
    pub login_textbox: String,
    pub password_textbox: String,
    pub password_conf_textbox: String,
    pub show_password: bool,
    pub twott_textbox: String,
    pub search_textbox: String,
    pub page: Vec<TwottEntry>,
    pub num_of_pages: usize,
    pub current_page_num: usize,
    pub subscription_list: Vec<String>,
    pub user_list: Vec<String>,
    pub error: Option<TwotterError>,
    pub awaiting: Awaiting,
}

pub enum StateView {
    Connection,
    LoginScreen,
    RegistrationScreen,
    Main,
    Users,
    MyPage,
    Page(Seq<char>),
}

impl View for State {
    type V = StateView;

    open spec fn view(&self) -> StateView {
        match self {
            State::Connection => StateView::Connection,
            State::LoginScreen => StateView::LoginScreen,
            State::RegistrationScreen => StateView::RegistrationScreen,
            State::Main => StateView::Main,
            State::Users => StateView::Users,
            State::MyPage => StateView::MyPage,
            State::Page(name) => StateView::Page(name@),
        }
    }
}

pub enum AwaitingView {
    Nothing,
    Connection,
    LoginResult,
    LoginSubscriptions,
    LoginFeed,
    LoginUsers,
    Registration,
    LogOut,
    PostResult,
    PostPage,
    Users { show: bool },
    Feed,
    MyPage(usize),
    Page(Seq<char>, usize),
}

impl View for Awaiting {
    type V = AwaitingView;

    open spec fn view(&self) -> AwaitingView {
        match self {
            Awaiting::Nothing => AwaitingView::Nothing,
            Awaiting::Connection => AwaitingView::Connection,
            Awaiting::LoginResult => AwaitingView::LoginResult,
            Awaiting::LoginSubscriptions => AwaitingView::LoginSubscriptions,
            Awaiting::LoginFeed => AwaitingView::LoginFeed,
            Awaiting::LoginUsers => AwaitingView::LoginUsers,
            Awaiting::Registration => AwaitingView::Registration,
            Awaiting::LogOut => AwaitingView::LogOut,
            Awaiting::PostResult => AwaitingView::PostResult,
            Awaiting::PostPage => AwaitingView::PostPage,
            Awaiting::Users { show } => AwaitingView::Users { show: *show },
            Awaiting::Feed => AwaitingView::Feed,
            Awaiting::MyPage(n) => AwaitingView::MyPage(*n),
            Awaiting::Page(name, n) => AwaitingView::Page(name@, *n),
        }
    }
}

pub enum ActionView {
    Idle,
    Connect(Seq<char>),
    Send(RequestView),
    SendOnly(RequestView),
    ResetReader,
}

impl View for ClientAction {
    type V = ActionView;

    open spec fn view(&self) -> ActionView {
        match self {
            ClientAction::Idle => ActionView::Idle,
            ClientAction::Connect(a) => ActionView::Connect(a@),
            ClientAction::Send(r) => ActionView::Send(r@),
            ClientAction::SendOnly(r) => ActionView::SendOnly(r@),
            ClientAction::ResetReader => ActionView::ResetReader,
        }
    }
}

/// The client's state as seen in contracts.
pub struct TwottrView {
    pub state: StateView,
    pub address_textbox: Seq<char>,
    pub connection_error: bool,
    pub login_status: Option<Seq<char>>,
    pub login_textbox: Seq<char>,
    pub password_textbox: Seq<char>,
    pub password_conf_textbox: Seq<char>,
    pub show_password: bool,
    pub twott_textbox: Seq<char>,
    pub search_textbox: Seq<char>,
    pub page: Seq<TwottEntryView>,
    pub num_of_pages: usize,
    pub current_page_num: usize,
    pub subscription_list: Seq<Seq<char>>,
    pub user_list: Seq<Seq<char>>,
    pub error: Option<TwotterError>,
    pub awaiting: AwaitingView,
}

impl View for Twottr {
    type V = TwottrView;

    open spec fn view(&self) -> TwottrView {
        TwottrView {
            state: self.state@,
            address_textbox: self.address_textbox@,
            connection_error: self.connection_error,
            login_status: match self.login_status {
                Some(l) => Some(l@),
                None => None,
            },
            login_textbox: self.login_textbox@,
            password_textbox: self.password_textbox@,
            password_conf_textbox: self.password_conf_textbox@,
            show_password: self.show_password,
            twott_textbox: self.twott_textbox@,
            search_textbox: self.search_textbox@,
            page: entry_views(self.page@),
            num_of_pages: self.num_of_pages,
            current_page_num: self.current_page_num,
            subscription_list: string_views(self.subscription_list@),
            user_list: string_views(self.user_list@),
            error: self.error,
            awaiting: self.awaiting@,
        }
    }
}

/// The state a client starts in: the connection screen, every box empty,
/// nothing shown and nothing awaited.
pub open spec fn initial_view() -> TwottrView {
    TwottrView {
        state: StateView::Connection,
        address_textbox: Seq::empty(),
        connection_error: false,
        login_status: None,
        login_textbox: Seq::empty(),
        password_textbox: Seq::empty(),
        password_conf_textbox: Seq::empty(),
        show_password: false,
        twott_textbox: Seq::empty(),
        search_textbox: Seq::empty(),
        page: Seq::empty(),
        num_of_pages: 0,
        current_page_num: 0,
        subscription_list: Seq::empty(),
        user_list: Seq::empty(),
        error: None,
        awaiting: AwaitingView::Nothing,
    }
}

/// A message that the client can take in its state: the own page needs a
/// login.
pub open spec fn update_allowed_spec(pre: TwottrView, message: Message) -> bool {
    message is MyPage ==> pre.login_status is Some
}

/// What the client does with a user's message.
pub open spec fn update_spec(
    pre: TwottrView,
    message: Message,
    post: TwottrView,
    action: ActionView,
) -> bool {
    match message {
        Message::AddressChanged(a) => post == TwottrView { address_textbox: a@, ..pre }
            && action == ActionView::Idle,
        Message::AddressSubmitted => post == TwottrView { awaiting: AwaitingView::Connection, ..pre }
            && action == ActionView::Connect(pre.address_textbox),
        Message::LocalServer => post == TwottrView { awaiting: AwaitingView::Connection, ..pre }
            && action == ActionView::Connect(local_server()),
        Message::LoginChanged(l) => post == TwottrView { login_textbox: l@, ..pre } && action
            == ActionView::Idle,
        Message::PasswordChanged(p) => post == TwottrView { password_textbox: p@, ..pre }
            && action == ActionView::Idle,
        Message::PasswordConfirmationChanged(p) => post == TwottrView {
            password_conf_textbox: p@,
            ..pre
        } && action == ActionView::Idle,
        Message::LoginRequestSubmitted => {
            let shown = TwottrView {
                subscription_list: pre.subscription_list.push(debug_subscription()),
                ..pre
            };
            if pre.login_textbox.len() != 0 && pre.password_textbox.len() != 0 {
                post == TwottrView { awaiting: AwaitingView::LoginResult, ..shown } && action
                    == ActionView::Send(
                    RequestView::LoginInfo(pre.login_textbox, pre.password_textbox),
                )
            } else {
                post == shown && action == ActionView::Idle
            }
        },
        Message::Registration => post == TwottrView { state: StateView::RegistrationScreen, ..pre }
            && action == ActionView::Idle,
        Message::RegistrationRequestSubmitted => {
            if pre.login_textbox.len() != 0 && pre.password_textbox.len() != 0
                && pre.password_conf_textbox.len() != 0 && pre.password_textbox
                == pre.password_conf_textbox {
                post == TwottrView { awaiting: AwaitingView::Registration, ..pre } && action
                    == ActionView::Send(
                    RequestView::RegistrationInfo(pre.login_textbox, pre.password_textbox),
                )
            } else {
                post == pre && action == ActionView::Idle
            }
        },
        Message::LogOut => post == TwottrView { awaiting: AwaitingView::LogOut, ..pre } && action
            == ActionView::Send(RequestView::LogOut),
        Message::TwottChanged(t) => post == TwottrView { twott_textbox: t@, ..pre } && action
            == ActionView::Idle,
        Message::TwottSubmitted => {
            if pre.twott_textbox.len() != 0 {
                post == TwottrView { awaiting: AwaitingView::PostResult, ..pre } && action
                    == ActionView::Send(RequestView::Post(pre.twott_textbox))
            } else {
                post == pre && action == ActionView::Idle
            }
        },
        Message::SearchChanged(_) => post == pre && action == ActionView::Idle,
        Message::SearchSubmitted => post == pre && action == ActionView::Idle,
        Message::ShowPassword(_) => post == TwottrView { show_password: !pre.show_password, ..pre }
            && action == ActionView::Idle,
        Message::Subscribe(name) => post == pre && action == ActionView::SendOnly(
            RequestView::Subscribe(name@),
        ),
        Message::RefreshUsers => post == TwottrView {
            awaiting: AwaitingView::Users { show: false },
            ..pre
        } && action == ActionView::Send(RequestView::UserList),
        Message::Feed => post == TwottrView { awaiting: AwaitingView::Feed, ..pre } && action
            == ActionView::Send(RequestView::Feed(0)),
        Message::MyPage(n) => post == TwottrView { awaiting: AwaitingView::MyPage(n), ..pre }
            && action == ActionView::Send(RequestView::Page(pre.login_status->0, 0)),
        Message::Page(name, n) => post == TwottrView {
            awaiting: AwaitingView::Page(name@, n),
            ..pre
        } && action == ActionView::Send(RequestView::Page(name@, n)),
        Message::Users => post == TwottrView {
            awaiting: AwaitingView::Users { show: true },
            ..pre
        } && action == ActionView::Send(RequestView::UserList),
    }
}

/// What the client does once a connection attempt succeeded (`ok`) or
/// failed.
pub open spec fn connected_spec(pre: TwottrView, ok: bool, post: TwottrView, action: ActionView) -> bool {
    &&& action == ActionView::Idle
    &&& if pre.awaiting is Connection {
        if ok {
            post == TwottrView {
                connection_error: false,
                address_textbox: Seq::empty(),
                state: StateView::LoginScreen,
                awaiting: AwaitingView::Nothing,
                ..pre
            }
        } else {
            post == TwottrView { connection_error: true, awaiting: AwaitingView::Nothing, ..pre }
        }
    } else {
        post == pre
    }
}

/// A reply that the client can take in its state: after a post it asks for
/// its own page, which needs a login.
pub open spec fn receive_allowed_spec(pre: TwottrView, reply: Result<Response, TwotterError>) -> bool {
    pre.awaiting is PostResult && reply is Ok ==> pre.login_status is Some
}

/// `pre` with the error of `reply` shown, if it is one.
pub open spec fn with_error(pre: TwottrView, reply: Result<Response, TwotterError>) -> TwottrView {
    match reply {
        Err(e) => TwottrView { error: Some(e), ..pre },
        Ok(_) => pre,
    }
}

/// `pre` showing the page that `reply` carries, if it carries one.
pub open spec fn with_page(pre: TwottrView, reply: Result<Response, TwotterError>) -> TwottrView {
    match reply {
        Ok(Response::Page(entries, pages)) => TwottrView {
            page: entry_views(entries@),
            num_of_pages: pages,
            ..pre
        },
        _ => with_error(pre, reply),
    }
}

/// `pre` showing the user list that `reply` carries, if it carries one.
pub open spec fn with_users(pre: TwottrView, reply: Result<Response, TwotterError>) -> TwottrView {
    match reply {
        Ok(Response::UserList(users)) => TwottrView { user_list: string_views(users@), ..pre },
        _ => with_error(pre, reply),
    }
}

/// What the client does with a reply of the server.
pub open spec fn receive_spec(
    pre: TwottrView,
    reply: Result<Response, TwotterError>,
    post: TwottrView,
    action: ActionView,
) -> bool {
    let done = TwottrView { awaiting: AwaitingView::Nothing, ..pre };
    match pre.awaiting {
        AwaitingView::LoginResult => match reply {
            Ok(_) => post == TwottrView {
                state: StateView::Main,
                login_status: Some(pre.login_textbox),
                login_textbox: Seq::empty(),
                password_textbox: Seq::empty(),
                error: None,
                awaiting: AwaitingView::LoginSubscriptions,
                ..pre
            } && action == ActionView::Send(RequestView::SubscriptionList),
            Err(e) => post == TwottrView { error: Some(e), ..done } && action == ActionView::Idle,
        },
        AwaitingView::LoginSubscriptions => {
            let next = TwottrView { awaiting: AwaitingView::LoginFeed, ..pre };
            &&& action == ActionView::Send(RequestView::Feed(0))
            &&& match reply {
                Ok(Response::SubscriptionList(list)) => post == TwottrView {
                    subscription_list: seq![list@],
                    ..next
                },
                _ => post == with_error(next, reply),
            }
        },
        AwaitingView::LoginFeed => post == with_page(
            TwottrView { awaiting: AwaitingView::LoginUsers, ..pre },
            reply,
        ) && action == ActionView::Send(RequestView::UserList),
        AwaitingView::LoginUsers => post == with_users(done, reply) && action == ActionView::Idle,
        AwaitingView::Registration => action == ActionView::Idle && match reply {
            Ok(_) => post == TwottrView {
                state: StateView::LoginScreen,
                login_textbox: Seq::empty(),
                password_textbox: Seq::empty(),
                password_conf_textbox: Seq::empty(),
                ..done
            },
            Err(e) => post == TwottrView { error: Some(e), ..done },
        },
        AwaitingView::LogOut => match reply {
            Ok(_) => post == TwottrView {
                login_status: None,
                page: Seq::empty(),
                state: StateView::LoginScreen,
                ..done
            } && action == ActionView::ResetReader,
            Err(e) => post == TwottrView { error: Some(e), ..done } && action == ActionView::Idle,
        },
        AwaitingView::PostResult => match reply {
            Ok(_) => post == TwottrView {
                twott_textbox: Seq::empty(),
                awaiting: AwaitingView::PostPage,
                ..pre
            } && action == ActionView::Send(
                RequestView::Page(pre.login_status->0, pre.current_page_num),
            ),
            Err(e) => post == TwottrView { error: Some(e), ..done } && action == ActionView::Idle,
        },
        AwaitingView::PostPage => post == with_page(done, reply) && action == ActionView::Idle,
        AwaitingView::Users { show } => action == ActionView::Idle && match reply {
            Ok(Response::UserList(users)) => post == TwottrView {
                user_list: string_views(users@),
                state: if show {
                    StateView::Users
                } else {
                    pre.state
                },
                ..done
            },
            _ => post == with_error(done, reply),
        },
        AwaitingView::Feed => action == ActionView::Idle && match reply {
            Ok(Response::Page(entries, pages)) => post == TwottrView {
                page: entry_views(entries@),
                num_of_pages: pages,
                state: StateView::Main,
                ..done
            },
            _ => post == with_error(done, reply),
        },
        AwaitingView::MyPage(n) => action == ActionView::Idle && match reply {
            Ok(Response::Page(entries, pages)) => post == TwottrView {
                page: entry_views(entries@),
                num_of_pages: pages,
                current_page_num: n,
                state: StateView::MyPage,
                ..done
            },
            _ => post == with_error(done, reply),
        },
        AwaitingView::Page(name, n) => action == ActionView::Idle && match reply {
            Ok(Response::Page(entries, pages)) => post == TwottrView {
                page: entry_views(entries@),
                num_of_pages: pages,
                current_page_num: n,
                state: StateView::Page(name),
                ..done
            },
            _ => post == with_error(done, reply),
        },
        _ => post == pre && action == ActionView::Idle,
    }
}

impl Twottr {
    /// A client on the connection screen, with every box empty.
    pub fn new() -> (t: Twottr)
        ensures
            t@ == initial_view(),
    {
        let t = Twottr {
            state: State::Connection,
            address_textbox: String::new(),
            connection_error: false,
            login_status: None,
            login_textbox: String::new(),
            password_textbox: String::new(),
            password_conf_textbox: String::new(),
            show_password: false,
            twott_textbox: String::new(),
            search_textbox: String::new(),
            page: Vec::new(),
            num_of_pages: 0,
            current_page_num: 0,
            subscription_list: Vec::new(),
            user_list: Vec::new(),
            error: None,
            awaiting: Awaiting::Nothing,
        };
        proof {
            assert(entry_views(t.page@) =~= Seq::empty());
            assert(string_views(t.subscription_list@) =~= Seq::empty());
            assert(string_views(t.user_list@) =~= Seq::empty());
        }
        t
    }

    /// The logged-in name; the caller makes sure there is one.
    fn logged_in_name(&self) -> (name: String)
        requires
            self.login_status is Some,
        ensures
            name@ == self.login_status->0@,
    {
        match &self.login_status {
            Some(name) => name.clone(),
            None => String::new(),
        }
    }

    /// Adds the debugging entry to the subscriptions shown.
    fn debugger(&mut self)
        ensures
            final(self)@ == (TwottrView {
                subscription_list: old(self)@.subscription_list.push(debug_subscription()),
                ..old(self)@
            }),
    {
        let ghost pre = self@;
        self.subscription_list.push(String::from_str("debug1,"));
        proof {
            assert(string_views(self.subscription_list@) =~= pre.subscription_list.push(
                debug_subscription(),
            ));
        }
    }

    /// The line shown under the screen: `Error: ` and the text of the error
    /// shown, or nothing.
    pub fn error_banner(&self) -> (banner: String)
        ensures
            banner@ == (match self.error {
                Some(e) => "Error: "@ + error_text(e.kind),
                None => Seq::empty(),
            }),
    {
        match &self.error {
            Some(e) => {
                let mut banner = String::from_str("Error: ");
                let text = e.message();
                banner.append(text.as_str());
                banner
            },
            None => String::new(),
        }
    }

    /// Whether the client can take `message` now.
    pub fn update_allowed(&self, message: &Message) -> (allowed: bool)
        ensures
            allowed == update_allowed_spec(self@, *message),
    {
        match message {
            Message::MyPage(_) => self.login_status.is_some(),
            _ => true,
        }
    }

    /// Takes a message of the user; the action says what to do with the
    /// connection.
    pub fn update(&mut self, message: Message) -> (action: ClientAction)
        requires
            update_allowed_spec(old(self)@, message),
        ensures
            update_spec(old(self)@, message, final(self)@, action@),
    {
        match message {
            Message::AddressChanged(address_typed) => {
                self.address_textbox = address_typed;
                ClientAction::Idle
            },
            Message::AddressSubmitted => {
                self.awaiting = Awaiting::Connection;
                ClientAction::Connect(self.address_textbox.clone())
            },
            Message::LocalServer => {
                self.awaiting = Awaiting::Connection;
                ClientAction::Connect(String::from_str("127.0.0.1:8080"))
            },
            Message::LoginChanged(login_typed) => {
                self.login_textbox = login_typed;
                ClientAction::Idle
            },
            Message::PasswordChanged(password_typed) => {
                self.password_textbox = password_typed;
                ClientAction::Idle
            },
            Message::PasswordConfirmationChanged(password_conf_typed) => {
                self.password_conf_textbox = password_conf_typed;
                ClientAction::Idle
            },
            Message::LoginRequestSubmitted => {
                self.debugger();
                if !self.login_textbox.as_str().is_empty() && !self.password_textbox.as_str().is_empty() {
                    self.awaiting = Awaiting::LoginResult;
                    ClientAction::Send(
                        Request::LoginInfo(self.login_textbox.clone(), self.password_textbox.clone()),
                    )
                } else {
                    ClientAction::Idle
                }
            },
            Message::Registration => {
                self.state = State::RegistrationScreen;
                ClientAction::Idle
            },
            Message::RegistrationRequestSubmitted => {
                if !self.login_textbox.as_str().is_empty() && !self.password_textbox.as_str().is_empty()
                    && !self.password_conf_textbox.as_str().is_empty() && self.password_textbox
                    == self.password_conf_textbox {
                    self.awaiting = Awaiting::Registration;
                    ClientAction::Send(
                        Request::RegistrationInfo(
                            self.login_textbox.clone(),
                            self.password_textbox.clone(),
                        ),
                    )
                } else {
                    ClientAction::Idle
                }
            },
            Message::LogOut => {
                self.awaiting = Awaiting::LogOut;
                ClientAction::Send(Request::LogOut)
            },
            Message::TwottChanged(twott_typed) => {
                self.twott_textbox = twott_typed;
                ClientAction::Idle
            },
            Message::TwottSubmitted => {
                if !self.twott_textbox.as_str().is_empty() {
                    self.awaiting = Awaiting::PostResult;
                    ClientAction::Send(Request::Post(self.twott_textbox.clone()))
                } else {
                    ClientAction::Idle
                }
            },
            Message::SearchChanged(_) => ClientAction::Idle,
            Message::SearchSubmitted => ClientAction::Idle,
            Message::ShowPassword(_) => {
                self.show_password = !self.show_password;
                ClientAction::Idle
            },
            Message::Subscribe(name) => ClientAction::SendOnly(Request::Subscribe(name)),
            Message::RefreshUsers => {
                self.awaiting = Awaiting::Users { show: false };
                ClientAction::Send(Request::UserList)
            },
            Message::Feed => {
                self.awaiting = Awaiting::Feed;
                ClientAction::Send(Request::Feed(0))
            },
            Message::MyPage(current_page_num) => {
                let name = self.logged_in_name();
                self.awaiting = Awaiting::MyPage(current_page_num);
                ClientAction::Send(Request::Page(name, 0))
            },
            Message::Page(name, current_page_num) => {
                self.awaiting = Awaiting::Page(name.clone(), current_page_num);
                ClientAction::Send(Request::Page(name, current_page_num))
            },
            Message::Users => {
                self.awaiting = Awaiting::Users { show: true };
                ClientAction::Send(Request::UserList)
            },
        }
    }

    /// Takes the outcome of a connection attempt.
    pub fn connected(&mut self, ok: bool) -> (action: ClientAction)
        ensures
            connected_spec(old(self)@, ok, final(self)@, action@),
    {
        if let Awaiting::Connection = self.awaiting {
            self.awaiting = Awaiting::Nothing;
            if ok {
                self.connection_error = false;
                self.address_textbox = String::new();
                self.state = State::LoginScreen;
            } else {
                self.connection_error = true;
            }
        }
        ClientAction::Idle
    }

    /// Whether the client can take `reply` now.
    pub fn receive_allowed(&self, reply: &Result<Response, TwotterError>) -> (allowed: bool)
        ensures
            allowed == receive_allowed_spec(self@, *reply),
    {
        match (&self.awaiting, reply) {
            (Awaiting::PostResult, Ok(_)) => self.login_status.is_some(),
            _ => true,
        }
    }

    /// Shows the error of `reply`, if it is one.
    fn show_error(&mut self, reply: &Result<Response, TwotterError>)
        ensures
            final(self)@ == with_error(old(self)@, *reply),
    {
        if let Err(e) = reply {
            self.error = Some(*e);
        }
    }

    /// Shows the page that `reply` carries, or its error.
    fn show_page(&mut self, reply: Result<Response, TwotterError>)
        ensures
            final(self)@ == with_page(old(self)@, reply),
    {
        match reply {
            Ok(Response::Page(page, num_of_pages)) => {
                self.page = page;
                self.num_of_pages = num_of_pages;
            },
            Err(e) => {
                self.error = Some(e);
            },
            _ => {},
        }
    }

    /// Shows the user list that `reply` carries, or its error.
    fn show_users(&mut self, reply: Result<Response, TwotterError>)
        ensures
            final(self)@ == with_users(old(self)@, reply),
    {
        match reply {
            Ok(Response::UserList(user_list)) => {
                self.user_list = user_list;
            },
            Err(e) => {
                self.error = Some(e);
            },
            _ => {},
        }
    }

    /// Takes a reply of the server to the request last sent.
    pub fn receive(&mut self, reply: Result<Response, TwotterError>) -> (action: ClientAction)
        requires
            receive_allowed_spec(old(self)@, reply),
        ensures
            receive_spec(old(self)@, reply, final(self)@, action@),
    {
        match self.awaiting {
            Awaiting::LoginResult => {
                match reply {
                    Ok(_) => {
                        self.state = State::Main;
                        self.login_status = Some(self.login_textbox.clone());
                        self.login_textbox = String::new();
                        self.password_textbox = String::new();
                        self.error = None;
                        self.awaiting = Awaiting::LoginSubscriptions;
                        ClientAction::Send(Request::SubscriptionList)
                    },
                    Err(e) => {
                        self.error = Some(e);
                        self.awaiting = Awaiting::Nothing;
                        ClientAction::Idle
                    },
                }
            },
            Awaiting::LoginSubscriptions => {
                self.awaiting = Awaiting::LoginFeed;
                match reply {
                    Ok(Response::SubscriptionList(list)) => {
                        self.subscription_list = vec![list];
                        proof {
                            assert(string_views(self.subscription_list@) =~= seq![
                                self.subscription_list@[0]@,
                            ]);
                        }
                    },
                    Err(e) => {
                        self.error = Some(e);
                    },
                    _ => {},
                }
                ClientAction::Send(Request::Feed(0))
            },
            Awaiting::LoginFeed => {
                self.awaiting = Awaiting::LoginUsers;
                self.show_page(reply);
                ClientAction::Send(Request::UserList)
            },
            Awaiting::LoginUsers => {
                self.awaiting = Awaiting::Nothing;
                self.show_users(reply);
                ClientAction::Idle
            },
            Awaiting::Registration => {
                self.awaiting = Awaiting::Nothing;
                match reply {
                    Ok(_) => {
                        self.state = State::LoginScreen;
                        self.login_textbox = String::new();
                        self.password_textbox = String::new();
                        self.password_conf_textbox = String::new();
                    },
                    Err(e) => {
                        self.error = Some(e);
                    },
                }
                ClientAction::Idle
            },
            Awaiting::LogOut => {
                self.awaiting = Awaiting::Nothing;
                match reply {
                    Ok(_) => {
                        self.login_status = None;
                        self.page = Vec::new();
                        self.state = State::LoginScreen;
                        proof {
                            assert(entry_views(self.page@) =~= Seq::empty());
                        }
                        ClientAction::ResetReader
                    },
                    Err(e) => {
                        self.error = Some(e);
                        ClientAction::Idle
                    },
                }
            },
            Awaiting::PostResult => {
                match reply {
                    Ok(_) => {
                        self.twott_textbox = String::new();
                        self.awaiting = Awaiting::PostPage;
                        let name = self.logged_in_name();
                        ClientAction::Send(Request::Page(name, self.current_page_num))
                    },
                    Err(e) => {
                        self.error = Some(e);
                        self.awaiting = Awaiting::Nothing;
                        ClientAction::Idle
                    },
                }
            },
            Awaiting::PostPage => {
                self.awaiting = Awaiting::Nothing;
                self.show_page(reply);
                ClientAction::Idle
            },
            Awaiting::Users { show } => {
                self.awaiting = Awaiting::Nothing;
                match reply {
                    Ok(Response::UserList(user_list)) => {
                        self.user_list = user_list;
                        if show {
                            self.state = State::Users;
                        }
                    },
                    Err(e) => {
                        self.error = Some(e);
                    },
                    _ => {},
                }
                ClientAction::Idle
            },
            Awaiting::Feed => {
                self.awaiting = Awaiting::Nothing;
                match reply {
                    Ok(Response::Page(page, num_of_pages)) => {
                        self.page = page;
                        self.num_of_pages = num_of_pages;
                        self.state = State::Main;
                    },
                    Err(e) => {
                        self.error = Some(e);
                    },
                    _ => {},
                }
                ClientAction::Idle
            },
            Awaiting::MyPage(current_page_num) => {
                self.awaiting = Awaiting::Nothing;
                match reply {
                    Ok(Response::Page(page, num_of_pages)) => {
                        self.page = page;
                        self.num_of_pages = num_of_pages;
                        self.current_page_num = current_page_num;
                        self.state = State::MyPage;
                    },
                    Err(e) => {
                        self.error = Some(e);
                    },
                    _ => {},
                }
                ClientAction::Idle
            },
            Awaiting::Page(ref name, current_page_num) => {
                let name = name.clone();
                self.awaiting = Awaiting::Nothing;
                match reply {
                    Ok(Response::Page(page, num_of_pages)) => {
                        self.page = page;
                        self.num_of_pages = num_of_pages;
                        self.current_page_num = current_page_num;
                        self.state = State::Page(name);
                    },
                    Err(e) => {
                        self.error = Some(e);
                    },
                    _ => {},
                }
                ClientAction::Idle
            },
            _ => ClientAction::Idle,
        }
    }
} // impl Twottr

/// The client waits for a reply of the server.
pub open spec fn awaits_reply(awaiting: AwaitingView) -> bool {
    !(awaiting is Nothing) && !(awaiting is Connection)
}

/// How many more replies the client can wait for, at most, before the
/// exchange ends.
pub open spec fn replies_left(awaiting: AwaitingView) -> nat {
    match awaiting {
        AwaitingView::Nothing => 0,
        AwaitingView::Connection => 0,
        AwaitingView::LoginResult => 4,
        AwaitingView::LoginSubscriptions => 3,
        AwaitingView::LoginFeed => 2,
        AwaitingView::PostResult => 2,
        _ => 1,
    }
}

/// Every exchange ends: from a client that waits for nothing, an action that sends a request leaves the client
/// waiting for its reply, any other action leaves it waiting for nothing,
/// and each reply brings the exchange closer to its end.
pub proof fn lemma_exchanges_end(
    pre: TwottrView,
    message: Message,
    reply: Result<Response, TwotterError>,
    ok: bool,
    post: TwottrView,
    action: ActionView,
)
    ensures
        update_spec(pre, message, post, action) && pre.awaiting is Nothing ==> ((action is Send)
            == awaits_reply(post.awaiting))
            && ((action is Connect) == (post.awaiting is Connection)) && (!(action is Send)
            && !(action is Connect) ==> post.awaiting == pre.awaiting),
        receive_spec(pre, reply, post, action) && awaits_reply(pre.awaiting) ==> (action is Send)
            == awaits_reply(post.awaiting) && replies_left(post.awaiting) < replies_left(
            pre.awaiting,
        ),
        connected_spec(pre, ok, post, action) && pre.awaiting is Connection ==> post.awaiting is Nothing,
{
}

/// Every error that the server answers with is shown.
pub proof fn lemma_errors_are_shown(
    pre: TwottrView,
    reply: Result<Response, TwotterError>,
    post: TwottrView,
    action: ActionView,
)
    requires
        receive_spec(pre, reply, post, action),
        awaits_reply(pre.awaiting),
        reply is Err,
    ensures
        post.error == Some(reply->Err_0),
{
}

/// The login the client acts as changes only with the server's consent: a
/// message never changes it, a successful login reply sets it to the login
/// typed, and a successful logout reply clears it.
pub proof fn lemma_login_status_changes(
    pre: TwottrView,
    message: Message,
    reply: Result<Response, TwotterError>,
    ok: bool,
    post: TwottrView,
    action: ActionView,
)
    ensures
        update_spec(pre, message, post, action) ==> post.login_status == pre.login_status,
        connected_spec(pre, ok, post, action) ==> post.login_status == pre.login_status,
        receive_spec(pre, reply, post, action) && post.login_status != pre.login_status ==> {
            ||| pre.awaiting is LoginResult && reply is Ok && post.login_status == Some(
                pre.login_textbox,
            )
            ||| pre.awaiting is LogOut && reply is Ok && post.login_status is None
        },
{
}

/// A registration is sent only when login, password and confirmation are
/// all given and the confirmation equals the password; it sends that login
/// and password.
pub proof fn lemma_registration_needs_confirmation(
    pre: TwottrView,
    message: Message,
    post: TwottrView,
    login: Seq<char>,
    password: Seq<char>,
)
    requires
        update_spec(pre, message, post, ActionView::Send(RequestView::RegistrationInfo(login, password))),
    ensures
        login == pre.login_textbox,
        password == pre.password_textbox,
        login.len() != 0,
        password.len() != 0,
        password == pre.password_conf_textbox,
{
}

/// Showing the password twice leaves the client as it was.
pub proof fn lemma_show_password_twice(
    pre: TwottrView,
    first: bool,
    mid: TwottrView,
    a1: ActionView,
    second: bool,
    post: TwottrView,
    a2: ActionView,
)
    requires
        update_spec(pre, Message::ShowPassword(first), mid, a1),
        update_spec(mid, Message::ShowPassword(second), post, a2),
    ensures
        post == pre,
{
}

/// The client waits for a page of twotts.
pub open spec fn awaits_page(awaiting: AwaitingView) -> bool {
    ||| awaiting is LoginFeed
    ||| awaiting is PostPage
    ||| awaiting is Feed
    ||| awaiting is MyPage
    ||| awaiting is Page
}

/// The twotts shown are exactly the entries given, in their order.
pub open spec fn shows_entries(shown: Seq<TwottEntryView>, entries: Vec<TwottEntry>) -> bool {
    &&& shown.len() == entries.len()
    &&& forall|i: int|
        0 <= i < entries.len() ==> #[trigger] shown[i] == (entries[i].0@, entries[i].1@, entries[i].2)
}

/// Whenever a page of twotts comes back for a page the client asked for
/// (the feed, its own page, a user's page, after logging in or after
/// posting), the client shows exactly the twotts of that reply and its
/// number of pages; the feed is shown on the main screen, the own page on
/// its screen and a user's page on that user's screen, each with the page
/// number asked for.
pub proof fn lemma_page_replies_are_shown(
    pre: TwottrView,
    entries: Vec<TwottEntry>,
    pages: usize,
    post: TwottrView,
    action: ActionView,
)
    requires
        receive_spec(pre, Ok(Response::Page(entries, pages)), post, action),
        awaits_page(pre.awaiting),
    ensures
        shows_entries(post.page, entries),
        post.num_of_pages == pages,
        pre.awaiting is Feed ==> post.state is Main,
        pre.awaiting matches AwaitingView::MyPage(n) ==> post.state is MyPage
            && post.current_page_num == n,
        pre.awaiting matches AwaitingView::Page(name, n) ==> post.state == StateView::Page(name)
            && post.current_page_num == n,
        pre.awaiting is LoginFeed ==> action == ActionView::Send(RequestView::UserList),
        !(pre.awaiting is LoginFeed) ==> action == ActionView::Idle,
{
}

/// Whenever a user list comes back, the client holds exactly that list,
/// whether or not it switches to the user screen; it switches when the user
/// asked for the user screen.
pub proof fn lemma_user_lists_are_held(
    pre: TwottrView,
    users: Vec<String>,
    post: TwottrView,
    action: ActionView,
)
    requires
        receive_spec(pre, Ok(Response::UserList(users)), post, action),
        pre.awaiting is LoginUsers || pre.awaiting is Users,
    ensures
        post.user_list.len() == users.len(),
        forall|i: int| 0 <= i < users.len() ==> #[trigger] post.user_list[i] == users[i]@,
        pre.awaiting == (AwaitingView::Users { show: true }) ==> post.state is Users,
        pre.awaiting == (AwaitingView::Users { show: false }) ==> post.state == pre.state,
        action == ActionView::Idle,
{
}

/// Asking for a user's page and receiving it leaves the client on that
/// user's screen, at the page number asked for, showing the twotts received;
/// the request names that user and page.
pub proof fn lemma_user_page_visit(
    pre: TwottrView,
    name: String,
    n: usize,
    mid: TwottrView,
    asked: ActionView,
    entries: Vec<TwottEntry>,
    pages: usize,
    post: TwottrView,
    done: ActionView,
)
    requires
        update_spec(pre, Message::Page(name, n), mid, asked),
        receive_spec(mid, Ok(Response::Page(entries, pages)), post, done),
    ensures
        asked == ActionView::Send(RequestView::Page(name@, n)),
        post.state == StateView::Page(name@),
        post.current_page_num == n,
        shows_entries(post.page, entries),
        post.num_of_pages == pages,
        done == ActionView::Idle,
{
}

/// Asking for the own page and receiving it leaves the client on its own
/// screen, at the page number of the message, showing the twotts received;
/// the request names the logged-in user and its first page.
pub proof fn lemma_own_page_visit(
    pre: TwottrView,
    n: usize,
    mid: TwottrView,
    asked: ActionView,
    entries: Vec<TwottEntry>,
    pages: usize,
    post: TwottrView,
    done: ActionView,
)
    requires
        pre.login_status is Some,
        update_spec(pre, Message::MyPage(n), mid, asked),
        receive_spec(mid, Ok(Response::Page(entries, pages)), post, done),
    ensures
        asked == ActionView::Send(RequestView::Page(pre.login_status->0, 0)),
        post.state is MyPage,
        post.current_page_num == n,
        shows_entries(post.page, entries),
        post.login_status == pre.login_status,
{
}

/// Asking for the feed and receiving it shows the twotts received on the
/// main screen; the request asks for the first page of the feed.
pub proof fn lemma_feed_visit(
    pre: TwottrView,
    mid: TwottrView,
    asked: ActionView,
    entries: Vec<TwottEntry>,
    pages: usize,
    post: TwottrView,
    done: ActionView,
)
    requires
        update_spec(pre, Message::Feed, mid, asked),
        receive_spec(mid, Ok(Response::Page(entries, pages)), post, done),
    ensures
        asked == ActionView::Send(RequestView::Feed(0)),
        post.state is Main,
        shows_entries(post.page, entries),
        post.num_of_pages == pages,
{
}

/// The requests the client sends carry what the user typed: a login sends
/// the login and password boxes when both are filled and nothing otherwise,
/// and always adds the debugging entry to the subscriptions; a post sends
/// the twott box when it is filled; typing into a box sets that box; the
/// other messages send the request they name; searching and subscribing
/// leave the client as it is.
pub proof fn lemma_requests_carry_input(
    pre: TwottrView,
    message: Message,
    post: TwottrView,
    action: ActionView,
)
    requires
        update_spec(pre, message, post, action),
    ensures
        message is LoginRequestSubmitted ==> post.subscription_list == pre.subscription_list.push(
            "debug1,"@,
        ) && (if pre.login_textbox.len() != 0 && pre.password_textbox.len() != 0 {
            action == ActionView::Send(
                RequestView::LoginInfo(pre.login_textbox, pre.password_textbox),
            )
        } else {
            action == ActionView::Idle
        }),
        message is TwottSubmitted ==> (if pre.twott_textbox.len() != 0 {
            action == ActionView::Send(RequestView::Post(pre.twott_textbox))
        } else {
            action == ActionView::Idle
        }),
        message matches Message::AddressChanged(a) ==> post.address_textbox == a@ && action
            == ActionView::Idle,
        message matches Message::LoginChanged(l) ==> post.login_textbox == l@ && action
            == ActionView::Idle,
        message matches Message::PasswordChanged(p) ==> post.password_textbox == p@ && action
            == ActionView::Idle,
        message matches Message::PasswordConfirmationChanged(p) ==> post.password_conf_textbox
            == p@ && action == ActionView::Idle,
        message matches Message::TwottChanged(t) ==> post.twott_textbox == t@ && action
            == ActionView::Idle,
        message is AddressSubmitted ==> action == ActionView::Connect(pre.address_textbox),
        message is LocalServer ==> action == ActionView::Connect("127.0.0.1:8080"@),
        message matches Message::Subscribe(name) ==> action == ActionView::SendOnly(
            RequestView::Subscribe(name@),
        ),
        message is LogOut ==> action == ActionView::Send(RequestView::LogOut),
        (message is Users || message is RefreshUsers) ==> action == ActionView::Send(
            RequestView::UserList,
        ),
        (message is SearchChanged || message is SearchSubmitted || message is Subscribe) ==> post
            == pre,
        message is Registration ==> post.state is RegistrationScreen && action == ActionView::Idle,
{
}

/// What the replies of the login exchange and of the other exchanges do: a
/// successful login makes the client the login typed, on the main screen,
/// with login and password boxes emptied and no error, and asks for the
/// subscriptions; the subscriptions received are held as the one entry
/// received; a successful registration goes to the login screen with the
/// boxes emptied; a successful logout forgets the login and the twotts shown
/// and goes to the login screen; a successful post empties the twott box
/// and asks for the own page at the page shown.
pub proof fn lemma_exchange_replies(
    pre: TwottrView,
    reply: Result<Response, TwotterError>,
    post: TwottrView,
    action: ActionView,
)
    requires
        receive_spec(pre, reply, post, action),
        reply is Ok,
    ensures
        pre.awaiting is LoginResult ==> post.login_status == Some(pre.login_textbox)
            && post.state is Main && post.login_textbox.len() == 0
            && post.password_textbox.len() == 0 && post.error is None && action
            == ActionView::Send(RequestView::SubscriptionList),
        pre.awaiting is LoginSubscriptions ==> (reply matches Ok(Response::SubscriptionList(list))
            ==> post.subscription_list == seq![list@]) && action == ActionView::Send(
            RequestView::Feed(0),
        ),
        pre.awaiting is Registration ==> post.state is LoginScreen && post.login_textbox.len()
            == 0 && post.password_textbox.len() == 0 && post.password_conf_textbox.len() == 0,
        pre.awaiting is LogOut ==> post.login_status is None && post.page.len() == 0
            && post.state is LoginScreen && action == ActionView::ResetReader,
        pre.awaiting is PostResult ==> post.twott_textbox.len() == 0 && action
            == ActionView::Send(RequestView::Page(pre.login_status->0, pre.current_page_num)),
{
}

/// A connection that worked leads to the login screen with the address box
/// emptied and no connection error; one that failed shows the error and
/// stays on the screen it was on.
pub proof fn lemma_connection_outcome(
    pre: TwottrView,
    ok: bool,
    post: TwottrView,
    action: ActionView,
)
    requires
        connected_spec(pre, ok, post, action),
        pre.awaiting is Connection,
    ensures
        ok ==> post.state is LoginScreen && post.address_textbox.len() == 0
            && !post.connection_error,
        !ok ==> post.connection_error && post.state == pre.state,
        action == ActionView::Idle,
{
}

} // verus!
