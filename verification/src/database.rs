//! The decisions of the server's database task. A request is answered by a
//! short run of store commands; the task asks the store one command at a
//! time and decides, from each reply, the next command or the answer.
//! [`database_handler`] takes a request and [`database_handler_resume`] a
//! reply of the store; both hand back a [`DbOutcome`].

use crate::data::{
    Request, Response, Timestamp, string_views, TwottEntry, TwotterError, TwotterErrorKind, TWOTTS_ON_A_PAGE,
};
use crate::feed_entry::{
    author_twott_parser, lemma_feed_entry_round_trip, member_of, member_parsable, member_rest, no_separator_before, separator,
    twott_member,
};
use vstd::prelude::*;
use vstd::string::*;

verus! {

/// The key of the hash that holds a user's password.
pub open spec fn user_key(login: Seq<char>) -> Seq<char> {
    "user:"@ + login
}

/// The key of the sorted set of a user's twotts.
pub open spec fn twotts_key(user: Seq<char>) -> Seq<char> {
    "twotts-by:"@ + user
}

/// The key of the sorted set that caches a user's feed.
pub open spec fn feed_key(user: Seq<char>) -> Seq<char> {
    "temp-feed:"@ + user
}

/// The key of the list of a user's subscriptions, as subscribing and the
/// feed use it.
pub open spec fn subscriptions_key(user: Seq<char>) -> Seq<char> {
    "subscription-list:"@ + user
}

/// The key that a subscription listing reads: it is spelled with an
/// underscore, and no request writes it.
pub open spec fn subscription_listing_key(user: Seq<char>) -> Seq<char> {
    "subscription_list:"@ + user
}

/// How long, in seconds, a cached feed lives.
pub const FEED_CACHE_SECONDS: i64 = 60;

/// The time-to-live the store reports for a key that does not exist.
pub const TTL_MISSING_KEY: i64 = -2;

/// A command for the store.
#[derive(Debug, PartialEq, Eq)]
pub enum DbCommand {
    /// Does the key exist?
    Exists { key: String },
    /// Set field `password` of the hash at `key`.
    SetPassword { key: String, password: String },
    /// Get field `password` of the hash at `key`.
    GetPassword { key: String },
    /// Add `member` to the sorted set at `key`, scored by the present time.
    AddTwott { key: String, member: String },
    /// The time-to-live of the key.
    TimeToLive { key: String },
    /// The whole list at `key`.
    ListRange { key: String },
    /// Store at `destination` the union of the sorted sets at `keys`.
    UnionStore { destination: String, keys: Vec<String> },
    /// Let the key expire after `seconds`.
    Expire { key: String, seconds: i64 },
    /// The number of members of the sorted set at `key`.
    Count { key: String },
    /// The members, with their scores, from rank `start` to rank `stop`
    /// (both included) of the sorted set at `key`, highest score first.
    RevRangeWithScores { key: String, start: isize, stop: isize },
    /// Push `value` at the head of the list at `key`.
    PushFront { key: String, value: String },
}

/// A reply of the store.
#[derive(Debug, PartialEq, Eq)]
pub enum DbEvent {
    /// The answer to `Exists`.
    Exists(bool),
    /// The command was carried out and answers nothing.
    Stored,
    /// The answer to `GetPassword`.
    Password(String),
    /// The answer to `TimeToLive`.
    TimeToLive(i64),
    /// The answer to `ListRange`.
    Names(Vec<String>),
    /// The answer to `Count`.
    Count(usize),
    /// The answer to `RevRangeWithScores`.
    Entries(Vec<(String, Timestamp)>),
}

/// Where the handling of a request stands, and what it remembers.
#[derive(Debug, PartialEq, Eq)]
pub enum DbStep {
    /// Registering: was the login taken?
    RegisterCheck { login: String, password: String },
    /// Registering: the password was written.
    RegisterStore,
    /// Logging in: does the login exist?
    LoginCheck { login: String, password: String },
    /// Logging in: the stored password.
    LoginPassword { login: String, password: String },
    /// Posting: the twott was stored.
    PostStore,
    /// Feed: how long the cached feed lives.
    FeedTtl { user: String, page: usize },
    /// Feed: the subscriptions, to rebuild the cache.
    FeedSubscriptions { user: String, page: usize },
    /// Feed: the cache was rebuilt.
    FeedUnion { user: String, page: usize },
    /// Feed: the cache was given its lifetime.
    FeedExpire { user: String, page: usize },
    /// Feed: the number of twotts in the cache.
    FeedCount { user: String, page: usize },
    /// Feed: the twotts of the page; `pages` is the number of pages.
    FeedRange { pages: usize },
    /// Subscribing: the name was pushed.
    SubscribeStore,
    /// Listing the subscriptions.
    SubscriptionListFetch,
}

/// What the task does next.
#[derive(Debug, PartialEq, Eq)]
pub enum DbOutcome {
    /// Send the command to the store and resume at the step with its reply.
    Run(DbCommand, DbStep),
    /// Answer the connection: the identity it is now logged in as, if that
    /// changes, and the answer.
    Reply(Option<String>, Result<Response, TwotterError>),
    /// Answer nothing: the request is not handled.
    Drop,
}

/// The greatest page number whose window the server can compute.
pub open spec fn page_fits(page: int) -> bool {
    page * TWOTTS_ON_A_PAGE + TWOTTS_ON_A_PAGE <= usize::MAX
}

/// The first rank of page `page` of a feed of `n` twotts.
pub open spec fn window_start(page: int, n: int) -> int {
    if page * TWOTTS_ON_A_PAGE <= n {
        page * TWOTTS_ON_A_PAGE
    } else {
        n
    }
}

/// The last rank asked for page `page` of a feed of `n` twotts.
pub open spec fn window_stop(page: int, n: int) -> int {
    if page * TWOTTS_ON_A_PAGE + TWOTTS_ON_A_PAGE <= n {
        page * TWOTTS_ON_A_PAGE + TWOTTS_ON_A_PAGE
    } else {
        n
    }
}

/// The number of pages of a feed of `n` twotts: `n / 10` rounded up.
pub open spec fn page_count(n: int) -> int {
    if n % (TWOTTS_ON_A_PAGE as int) == 0 {
        n / (TWOTTS_ON_A_PAGE as int)
    } else {
        n / (TWOTTS_ON_A_PAGE as int) + 1
    }
}

/// The subscriptions listed as the server sends them: each name followed by
/// a comma.
pub open spec fn comma_list(names: Seq<Seq<char>>) -> Seq<char>
    decreases names.len(),
{
    if names.len() == 0 {
        Seq::empty()
    } else {
        comma_list(names.drop_last()) + names.last() + ","@
    }
}

/// A step that the handling can be at: every feed step remembers a page
/// whose window can be computed.
pub open spec fn step_valid(step: DbStep) -> bool {
    match step {
        DbStep::FeedTtl { page, .. } => page_fits(page as int),
        DbStep::FeedSubscriptions { page, .. } => page_fits(page as int),
        DbStep::FeedUnion { page, .. } => page_fits(page as int),
        DbStep::FeedExpire { page, .. } => page_fits(page as int),
        DbStep::FeedCount { page, .. } => page_fits(page as int),
        _ => true,
    }
}

/// The reply that a step waits for is of the kind that its command answers.
pub open spec fn awaits(step: DbStep, event: DbEvent) -> bool {
    match step {
        DbStep::RegisterCheck { .. } => event is Exists,
        DbStep::LoginCheck { .. } => event is Exists,
        DbStep::LoginPassword { .. } => event is Password,
        DbStep::FeedTtl { .. } => event is TimeToLive,
        DbStep::FeedSubscriptions { .. } => event is Names,
        DbStep::FeedCount { .. } => event is Count,
        DbStep::FeedRange { .. } => event is Entries,
        DbStep::SubscriptionListFetch => event is Names,
        _ => event is Stored,
    }
}

/// The reply to hand back as its own answer, with no change of identity.
pub open spec fn answers(out: DbOutcome, answer: Result<Response, TwotterError>) -> bool {
    out == DbOutcome::Reply(None, answer)
}

/// The answer that refuses a request with an error of the given kind.
pub open spec fn refusal(kind: TwotterErrorKind) -> Result<Response, TwotterError> {
    Err(TwotterError { kind })
}

/// How the task answers a request from a connection logged in as `login`
/// (empty when it is not logged in).
pub open spec fn start_spec(request: Request, login: Seq<char>, out: DbOutcome) -> bool {
    if login.len() == 0 {
        match request {
            Request::RegistrationInfo(l, p) => out matches DbOutcome::Run(
                DbCommand::Exists { key },
                DbStep::RegisterCheck { login: sl, password: sp },
            ) && key@ == user_key(l@) && sl == l && sp == p,
            Request::LoginInfo(l, p) => out matches DbOutcome::Run(
                DbCommand::Exists { key },
                DbStep::LoginCheck { login: sl, password: sp },
            ) && key@ == user_key(l@) && sl == l && sp == p,
            _ => answers(out, refusal(TwotterErrorKind::UnloggedAccessAttempt)),
        }
    } else {
        match request {
            Request::Post(text) => out matches DbOutcome::Run(
                DbCommand::AddTwott { key, member },
                DbStep::PostStore,
            ) && key@ == twotts_key(login) && member@ == member_of(login, text@),
            Request::Feed(page) => out matches DbOutcome::Run(
                DbCommand::TimeToLive { key },
                DbStep::FeedTtl { user, page: p },
            ) && key@ == feed_key(login) && user@ == login && p == page,
            Request::Subscribe(name) => out matches DbOutcome::Run(
                DbCommand::PushFront { key, value },
                DbStep::SubscribeStore,
            ) && key@ == subscriptions_key(login) && value == name,
            Request::SubscriptionList => out matches DbOutcome::Run(
                DbCommand::ListRange { key },
                DbStep::SubscriptionListFetch,
            ) && key@ == subscription_listing_key(login),
            _ => out is Drop,
        }
    }
}

/// `entry` is what splitting the stored member `member` with score `score`
/// gives.
pub open spec fn entry_of(member: String, score: Timestamp, entry: TwottEntry) -> bool {
    &&& member_rest(member@) == entry.0@ + separator() + entry.1@
    &&& no_separator_before(member_rest(member@), entry.0@.len() as int)
    &&& entry.2 == score
}

/// The command that counts the cached feed of `user`, remembering `page`.
pub open spec fn counts_feed(out: DbOutcome, user: String, page: usize) -> bool {
    out matches DbOutcome::Run(DbCommand::Count { key }, DbStep::FeedCount { user: u, page: p })
        && key@ == feed_key(user@) && u == user && p == page
}

/// How the task goes on from `step` once the store replied `event`.
pub open spec fn resume_spec(step: DbStep, event: DbEvent, out: DbOutcome) -> bool {
    match step {
        DbStep::RegisterCheck { login, password } => match event {
            DbEvent::Exists(true) => answers(out, refusal(TwotterErrorKind::UserAlreadyExists)),
            _ => out matches DbOutcome::Run(
                DbCommand::SetPassword { key, password: p },
                DbStep::RegisterStore,
            ) && key@ == user_key(login@) && p == password,
        },
        DbStep::RegisterStore => answers(out, Ok(Response::Empty)),
        DbStep::LoginCheck { login, password } => match event {
            DbEvent::Exists(false) => answers(out, refusal(TwotterErrorKind::UserDoesntExist)),
            _ => out matches DbOutcome::Run(
                DbCommand::GetPassword { key },
                DbStep::LoginPassword { login: l, password: p },
            ) && key@ == user_key(login@) && l == login && p == password,
        },
        DbStep::LoginPassword { login, password } => match event {
            DbEvent::Password(stored) => if password@ == stored@ {
                out == DbOutcome::Reply(Some(login), Ok(Response::Empty))
            } else {
                answers(out, refusal(TwotterErrorKind::WrongPassword))
            },
            _ => false,
        },
        DbStep::PostStore => answers(out, Ok(Response::Empty)),
        DbStep::FeedTtl { user, page } => match event {
            DbEvent::TimeToLive(ttl) => if ttl == TTL_MISSING_KEY {
                out matches DbOutcome::Run(
                    DbCommand::ListRange { key },
                    DbStep::FeedSubscriptions { user: u, page: p },
                ) && key@ == subscriptions_key(user@) && u == user && p == page
            } else {
                counts_feed(out, user, page)
            },
            _ => false,
        },
        DbStep::FeedSubscriptions { user, page } => match event {
            DbEvent::Names(names) => if names.len() == 0 {
                counts_feed(out, user, page)
            } else {
                out matches DbOutcome::Run(
                    DbCommand::UnionStore { destination, keys },
                    DbStep::FeedUnion { user: u, page: p },
                ) && destination@ == feed_key(user@) && u == user && p == page && keys.len()
                    == names.len() && forall|i: int|
                    0 <= i < names.len() ==> #[trigger] keys[i]@ == twotts_key(names[i]@)
            },
            _ => false,
        },
        DbStep::FeedUnion { user, page } => out matches DbOutcome::Run(
            DbCommand::Expire { key, seconds },
            DbStep::FeedExpire { user: u, page: p },
        ) && key@ == feed_key(user@) && seconds == FEED_CACHE_SECONDS && u == user && p == page,
        DbStep::FeedExpire { user, page } => counts_feed(out, user, page),
        DbStep::FeedCount { user, page } => match event {
            DbEvent::Count(n) => out matches DbOutcome::Run(
                DbCommand::RevRangeWithScores { key, start, stop },
                DbStep::FeedRange { pages },
            ) && key@ == feed_key(user@) && start == window_start(page as int, n as int) as isize
                && stop == window_stop(page as int, n as int) as isize && pages == page_count(
                n as int,
            ),
            _ => false,
        },
        DbStep::FeedRange { pages } => match event {
            DbEvent::Entries(members) => out matches DbOutcome::Reply(
                None,
                Ok(Response::Page(entries, p)),
            ) && p == pages && entries.len() == members.len() && forall|i: int|
                0 <= i < members.len() ==> entry_of(
                    #[trigger] members[i].0,
                    members[i].1,
                    entries[i],
                ),
            _ => false,
        },
        DbStep::SubscribeStore => answers(out, Ok(Response::Empty)),
        DbStep::SubscriptionListFetch => match event {
            DbEvent::Names(names) => out matches DbOutcome::Reply(
                None,
                Ok(Response::SubscriptionList(list)),
            ) && list@ == comma_list(string_views(names@)),
            _ => false,
        },
    }
}

/// The members of a page of the feed can all be split into author and text.
pub open spec fn members_parsable(event: DbEvent) -> bool {
    event matches DbEvent::Entries(members) ==> forall|i: int|
        0 <= i < members.len() ==> member_parsable(#[trigger] members[i].0@)
}

/// `prefix` followed by `name`.
fn key(prefix: &str, name: &str) -> (k: String)
    ensures
        k@ == prefix@ + name@,
{
    let mut k = String::from_str(prefix);
    k.append(name);
    k
}

/// Whether the feed window of `page` can be computed; the server fails on a
/// page beyond it.
pub fn feed_page_fits(page: usize) -> (fits: bool)
    ensures
        fits == page_fits(page as int),
{
    page <= (usize::MAX - TWOTTS_ON_A_PAGE) / TWOTTS_ON_A_PAGE
}

/// The first step of answering `request` for a connection logged in as
/// `login_status` (empty when it is not logged in).
pub fn database_handler(request: Request, login_status: &String) -> (out: DbOutcome)
    requires
        login_status@.len() != 0 && request is Feed ==> page_fits(request->Feed_0 as int),
    ensures
        start_spec(request, login_status@, out),
        out matches DbOutcome::Run(_, step) ==> step_valid(step),
{
    let user = login_status.as_str();
    if user.is_empty() {
        match request {
            Request::RegistrationInfo(login, password) => {
                let k = key("user:", login.as_str());
                DbOutcome::Run(DbCommand::Exists { key: k }, DbStep::RegisterCheck { login, password })
            },
            Request::LoginInfo(login, password) => {
                let k = key("user:", login.as_str());
                DbOutcome::Run(DbCommand::Exists { key: k }, DbStep::LoginCheck { login, password })
            },
            _ => DbOutcome::Reply(
                None,
                Err(TwotterError::new(TwotterErrorKind::UnloggedAccessAttempt)),
            ),
        }
    } else {
        match request {
            Request::Post(text) => {
                let k = key("twotts-by:", user);
                let member = twott_member(user, text.as_str());
                DbOutcome::Run(DbCommand::AddTwott { key: k, member }, DbStep::PostStore)
            },
            Request::Feed(page) => {
                let k = key("temp-feed:", user);
                DbOutcome::Run(
                    DbCommand::TimeToLive { key: k },
                    DbStep::FeedTtl { user: login_status.clone(), page },
                )
            },
            Request::Subscribe(name) => {
                let k = key("subscription-list:", user);
                DbOutcome::Run(DbCommand::PushFront { key: k, value: name }, DbStep::SubscribeStore)
            },
            Request::SubscriptionList => {
                let k = key("subscription_list:", user);
                DbOutcome::Run(DbCommand::ListRange { key: k }, DbStep::SubscriptionListFetch)
            },
            _ => DbOutcome::Drop,
        }
    }
}

/// The stored twotts of a page, split into author, text and moment.
fn parse_entries(members: Vec<(String, Timestamp)>) -> (entries: Vec<TwottEntry>)
    requires
        forall|i: int| 0 <= i < members.len() ==> member_parsable(#[trigger] members[i].0@),
    ensures
        entries.len() == members.len(),
        forall|i: int|
            0 <= i < members.len() ==> entry_of(#[trigger] members[i].0, members[i].1, entries[i]),
{
    let mut entries: Vec<TwottEntry> = Vec::new();
    let mut i: usize = 0;
    while i < members.len()
        invariant
            i <= members.len(),
            entries.len() == i,
            forall|i: int| 0 <= i < members.len() ==> member_parsable(#[trigger] members[i].0@),
            forall|j: int|
                0 <= j < i ==> entry_of(#[trigger] members[j].0, members[j].1, entries[j]),
        decreases members.len() - i,
    {
        let line = members[i].0.clone();
        let (author, text) = author_twott_parser(line);
        entries.push((author, text, members[i].1));
        i = i + 1;
    }
    entries
}

/// The keys of the twotts of each of `names`.
fn twotts_keys(names: &Vec<String>) -> (keys: Vec<String>)
    ensures
        keys.len() == names.len(),
        forall|i: int| 0 <= i < names.len() ==> #[trigger] keys[i]@ == twotts_key(names[i]@),
{
    let mut keys: Vec<String> = Vec::new();
    let mut i: usize = 0;
    while i < names.len()
        invariant
            i <= names.len(),
            keys.len() == i,
            forall|j: int| 0 <= j < i ==> #[trigger] keys[j]@ == twotts_key(names[j]@),
        decreases names.len() - i,
    {
        keys.push(key("twotts-by:", names[i].as_str()));
        i = i + 1;
    }
    keys
}

/// Each of `names` followed by a comma, all in one string.
fn join_with_commas(names: &Vec<String>) -> (list: String)
    ensures
        list@ == comma_list(string_views(names@)),
{
    let mut list = String::new();
    let mut i: usize = 0;
    while i < names.len()
        invariant
            i <= names.len(),
            list@ == comma_list(string_views(names@).take(i as int)),
        decreases names.len() - i,
    {
        list.append(names[i].as_str());
        list.append(",");
        proof {
            let vs = string_views(names@);
            assert(vs.take(i + 1).drop_last() =~= vs.take(i as int));
            assert(vs.take(i + 1).last() == names@[i as int]@);
        }
        i = i + 1;
    }
    proof {
        assert(string_views(names@).take(names.len() as int) =~= string_views(names@));
    }
    list
}

/// The number of pages of a feed of `n` twotts.
fn number_of_pages(n: usize) -> (pages: usize)
    ensures
        pages == page_count(n as int),
{
    if n % TWOTTS_ON_A_PAGE == 0 {
        n / TWOTTS_ON_A_PAGE
    } else {
        n / TWOTTS_ON_A_PAGE + 1
    }
}

/// The next step of answering a request, once the store replied `event` to
/// the command of `step`.
pub fn database_handler_resume(step: DbStep, event: DbEvent) -> (out: DbOutcome)
    requires
        step_valid(step),
        awaits(step, event),
        members_parsable(event),
    ensures
        resume_spec(step, event, out),
        out matches DbOutcome::Run(_, next) ==> step_valid(next),
{
    match step {
        DbStep::RegisterCheck { login, password } => {
            if let DbEvent::Exists(true) = event {
                DbOutcome::Reply(None, Err(TwotterError::new(TwotterErrorKind::UserAlreadyExists)))
            } else {
                let k = key("user:", login.as_str());
                DbOutcome::Run(DbCommand::SetPassword { key: k, password }, DbStep::RegisterStore)
            }
        },
        DbStep::RegisterStore => DbOutcome::Reply(None, Ok(Response::Empty)),
        DbStep::LoginCheck { login, password } => {
            if let DbEvent::Exists(false) = event {
                DbOutcome::Reply(None, Err(TwotterError::new(TwotterErrorKind::UserDoesntExist)))
            } else {
                let k = key("user:", login.as_str());
                DbOutcome::Run(DbCommand::GetPassword { key: k }, DbStep::LoginPassword { login, password })
            }
        },
        DbStep::LoginPassword { login, password } => {
            let stored = match event {
                DbEvent::Password(stored) => stored,
                _ => String::new(),
            };
            if password != stored {
                DbOutcome::Reply(None, Err(TwotterError::new(TwotterErrorKind::WrongPassword)))
            } else {
                DbOutcome::Reply(Some(login), Ok(Response::Empty))
            }
        },
        DbStep::PostStore => DbOutcome::Reply(None, Ok(Response::Empty)),
        DbStep::FeedTtl { user, page } => {
            let ttl: i64 = match event {
                DbEvent::TimeToLive(ttl) => ttl,
                _ => 0,
            };
            if ttl == TTL_MISSING_KEY {
                let k = key("subscription-list:", user.as_str());
                DbOutcome::Run(DbCommand::ListRange { key: k }, DbStep::FeedSubscriptions { user, page })
            } else {
                let k = key("temp-feed:", user.as_str());
                DbOutcome::Run(DbCommand::Count { key: k }, DbStep::FeedCount { user, page })
            }
        },
        DbStep::FeedSubscriptions { user, page } => {
            let names: Vec<String> = match event {
                DbEvent::Names(names) => names,
                _ => Vec::new(),
            };
            let destination = key("temp-feed:", user.as_str());
            if names.len() == 0 {
                DbOutcome::Run(DbCommand::Count { key: destination }, DbStep::FeedCount { user, page })
            } else {
                let keys = twotts_keys(&names);
                DbOutcome::Run(
                    DbCommand::UnionStore { destination, keys },
                    DbStep::FeedUnion { user, page },
                )
            }
        },
        DbStep::FeedUnion { user, page } => {
            let k = key("temp-feed:", user.as_str());
            DbOutcome::Run(
                DbCommand::Expire { key: k, seconds: FEED_CACHE_SECONDS },
                DbStep::FeedExpire { user, page },
            )
        },
        DbStep::FeedExpire { user, page } => {
            let k = key("temp-feed:", user.as_str());
            DbOutcome::Run(DbCommand::Count { key: k }, DbStep::FeedCount { user, page })
        },
        DbStep::FeedCount { user, page } => {
            let n: usize = match event {
                DbEvent::Count(n) => n,
                _ => 0,
            };
            let first: usize = page * TWOTTS_ON_A_PAGE;
            let beginning: usize = if first <= n { first } else { n };
            let end: usize = if first + TWOTTS_ON_A_PAGE <= n { first + TWOTTS_ON_A_PAGE } else { n };
            let k = key("temp-feed:", user.as_str());
            DbOutcome::Run(
                DbCommand::RevRangeWithScores { key: k, start: beginning as isize, stop: end as isize },
                DbStep::FeedRange { pages: number_of_pages(n) },
            )
        },
        DbStep::FeedRange { pages } => {
            let members: Vec<(String, Timestamp)> = match event {
                DbEvent::Entries(members) => members,
                _ => Vec::new(),
            };
            let entries = parse_entries(members);
            DbOutcome::Reply(None, Ok(Response::Page(entries, pages)))
        },
        DbStep::SubscribeStore => DbOutcome::Reply(None, Ok(Response::Empty)),
        DbStep::SubscriptionListFetch => {
            let names: Vec<String> = match event {
                DbEvent::Names(names) => names,
                _ => Vec::new(),
            };
            let list = join_with_commas(&names);
            DbOutcome::Reply(None, Ok(Response::SubscriptionList(list)))
        },
    }
}

/// Only a login whose password equals the stored one gives a connection an
/// identity, and the identity is that login: no first step hands one back,
/// and no later step but the password check does.
pub proof fn lemma_identity_only_from_matching_password(
    request: Request,
    login_status: Seq<char>,
    first: DbOutcome,
    step: DbStep,
    event: DbEvent,
    out: DbOutcome,
)
    requires
        start_spec(request, login_status, first),
        resume_spec(step, event, out),
    ensures
        !(first matches DbOutcome::Reply(Some(_), _)),
        out matches DbOutcome::Reply(Some(id), answer) ==> {
            &&& step matches DbStep::LoginPassword { login, password }
            &&& event matches DbEvent::Password(stored)
            &&& password@ == stored@
            &&& id == login
            &&& answer == Ok::<Response, TwotterError>(Response::Empty)
        },
{
}

/// A password is written only for a login that the store reported missing,
/// under that login's key: registering never overwrites a user.
pub proof fn lemma_registration_never_overwrites(
    request: Request,
    login_status: Seq<char>,
    first: DbOutcome,
    step: DbStep,
    event: DbEvent,
    out: DbOutcome,
)
    requires
        start_spec(request, login_status, first),
        awaits(step, event),
        resume_spec(step, event, out),
    ensures
        !(first matches DbOutcome::Run(DbCommand::SetPassword { .. }, _)),
        out matches DbOutcome::Run(DbCommand::SetPassword { key, .. }, _) ==> {
            &&& step matches DbStep::RegisterCheck { login, .. }
            &&& key@ == user_key(login@)
            &&& event == DbEvent::Exists(false)
        },
{
}

/// The window of a feed page lies within the feed and holds at most a page
/// of twotts; the page count covers the feed with no page to spare, and
/// every page below the count starts inside the feed.
pub proof fn lemma_feed_window(page: int, n: int)
    requires
        0 <= page,
        0 <= n,
        page_fits(page),
    ensures
        0 <= window_start(page, n) <= window_stop(page, n) <= n,
        window_stop(page, n) - window_start(page, n) <= TWOTTS_ON_A_PAGE,
        page_count(n) * TWOTTS_ON_A_PAGE >= n,
        n > 0 ==> (page_count(n) - 1) * TWOTTS_ON_A_PAGE < n,
        page < page_count(n) ==> window_start(page, n) == page * TWOTTS_ON_A_PAGE
            && window_start(page, n) < n,
{
    assert(page_count(n) * 10 >= n && (n > 0 ==> (page_count(n) - 1) * 10 < n)) by (nonlinear_arith)
        requires
            0 <= n,
            page_count(n) == if n % 10 == 0 { n / 10 } else { n / 10 + 1 },
    ;
    assert(page < page_count(n) ==> page * 10 < n) by (nonlinear_arith)
        requires
            0 <= n,
            0 <= page,
            page_count(n) * 10 >= n,
            n > 0 ==> (page_count(n) - 1) * 10 < n,
            page_count(n) >= 0,
            n == 0 ==> page_count(n) == 0,
    ;
}

/// What a feed page shows of a stored post is the post: when the store
/// hands back the member that posting `text` as `login_status` stored, the
/// page entry made of it holds that login as author and that text, provided
/// the first `:twott:` of `login:twott:text` is the one between them.
pub proof fn lemma_feed_shows_posts(
    login_status: Seq<char>,
    text: String,
    first: DbOutcome,
    stored: String,
    score: Timestamp,
    entry: TwottEntry,
)
    requires
        login_status.len() != 0,
        start_spec(Request::Post(text), login_status, first),
        first matches DbOutcome::Run(DbCommand::AddTwott { member, .. }, _) && member@ == stored@,
        no_separator_before(login_status + separator() + text@, login_status.len() as int),
        entry_of(stored, score, entry),
    ensures
        entry.0@ == login_status,
        entry.1@ == text@,
        entry.2 == score,
{
    lemma_feed_entry_round_trip(login_status, text@);
}

/// The step at which a run of the store goes on; any step for an outcome
/// that runs nothing.
pub open spec fn step_after(out: DbOutcome) -> DbStep {
    match out {
        DbOutcome::Run(_, step) => step,
        _ => DbStep::PostStore,
    }
}

/// The password that an outcome writes, if it writes one.
pub open spec fn written_password(out: DbOutcome) -> Seq<char> {
    match out {
        DbOutcome::Run(DbCommand::SetPassword { password, .. }, _) => password@,
        _ => Seq::empty(),
    }
}

/// Logging in, from the request to the answer: the task asks whether
/// `user:<login>` exists; a missing user is refused as unknown; for an
/// existing one it reads the stored password, and the connection becomes
/// `login` exactly when the stored password is the password of the request,
/// and is refused with a wrong password otherwise.
pub proof fn lemma_login_end_to_end(
    login: String,
    password: String,
    first: DbOutcome,
    missing: DbOutcome,
    second: DbOutcome,
    stored: String,
    third: DbOutcome,
)
    requires
        start_spec(Request::LoginInfo(login, password), Seq::empty(), first),
        resume_spec(step_after(first), DbEvent::Exists(false), missing),
        resume_spec(step_after(first), DbEvent::Exists(true), second),
        resume_spec(step_after(second), DbEvent::Password(stored), third),
    ensures
        first matches DbOutcome::Run(DbCommand::Exists { key }, _) && key@ == "user:"@ + login@,
        missing == DbOutcome::Reply(
            None,
            Err(TwotterError { kind: TwotterErrorKind::UserDoesntExist }),
        ),
        second matches DbOutcome::Run(DbCommand::GetPassword { key }, _) && key@ == "user:"@
            + login@,
        stored@ == password@ ==> third == DbOutcome::Reply(
            Some(login),
            Ok::<Response, TwotterError>(Response::Empty),
        ),
        stored@ != password@ ==> third == DbOutcome::Reply(
            None,
            Err(TwotterError { kind: TwotterErrorKind::WrongPassword }),
        ),
{
}

/// Registering, from the request to the write: the task asks whether
/// `user:<login>` exists; a taken login is refused; for a free one it writes
/// under `user:<login>` exactly the password of the request, and once written
/// answers success.
pub proof fn lemma_registration_end_to_end(
    login: String,
    password: String,
    first: DbOutcome,
    taken: DbOutcome,
    written: DbOutcome,
    done: DbOutcome,
)
    requires
        start_spec(Request::RegistrationInfo(login, password), Seq::empty(), first),
        resume_spec(step_after(first), DbEvent::Exists(true), taken),
        resume_spec(step_after(first), DbEvent::Exists(false), written),
        resume_spec(step_after(written), DbEvent::Stored, done),
    ensures
        first matches DbOutcome::Run(DbCommand::Exists { key }, _) && key@ == "user:"@ + login@,
        taken == DbOutcome::Reply(
            None,
            Err(TwotterError { kind: TwotterErrorKind::UserAlreadyExists }),
        ),
        written matches DbOutcome::Run(DbCommand::SetPassword { key, password: w }, _) && key@
            == "user:"@ + login@ && w@ == password@,
        done == DbOutcome::Reply(None, Ok::<Response, TwotterError>(Response::Empty)),
{
}

/// A read gives back what registering wrote: once `login` registered with
/// `password` and the store hands back the password that was written, a
/// login as `login` succeeds exactly when it gives that same password.
pub proof fn lemma_registered_password_logs_in(
    login: String,
    password: String,
    attempt: String,
    reg_first: DbOutcome,
    written: DbOutcome,
    log_first: DbOutcome,
    log_second: DbOutcome,
    stored: String,
    result: DbOutcome,
)
    requires
        start_spec(Request::RegistrationInfo(login, password), Seq::empty(), reg_first),
        resume_spec(step_after(reg_first), DbEvent::Exists(false), written),
        stored@ == written_password(written),
        start_spec(Request::LoginInfo(login, attempt), Seq::empty(), log_first),
        resume_spec(step_after(log_first), DbEvent::Exists(true), log_second),
        resume_spec(step_after(log_second), DbEvent::Password(stored), result),
    ensures
        attempt@ == password@ <==> result == DbOutcome::Reply(
            Some(login),
            Ok::<Response, TwotterError>(Response::Empty),
        ),
{
}

/// A connection that is not logged in is refused every request but
/// registering and logging in, and nothing is asked of the store.
pub proof fn lemma_unlogged_refusal(request: Request, out: DbOutcome)
    requires
        start_spec(request, Seq::empty(), out),
        !(request is LoginInfo),
        !(request is RegistrationInfo),
    ensures
        out == DbOutcome::Reply(
            None,
            Err(TwotterError { kind: TwotterErrorKind::UnloggedAccessAttempt }),
        ),
{
}

/// What a logged-in connection's requests ask of the store: a post adds
/// `author:<login>:twott:<text>` to `twotts-by:<login>`, subscribing pushes
/// the name on `subscription-list:<login>`, a feed page starts by asking how
/// long `temp-feed:<login>` lives, the subscription listing reads
/// `subscription_list:<login>`, and the other requests are not answered;
/// whatever is stored is then answered with success.
pub proof fn lemma_logged_in_requests(
    login: String,
    request: Request,
    out: DbOutcome,
    stored: DbOutcome,
)
    requires
        login@.len() != 0,
        start_spec(request, login@, out),
        resume_spec(step_after(out), DbEvent::Stored, stored),
    ensures
        (match request {
            Request::Post(text) => out matches DbOutcome::Run(
                DbCommand::AddTwott { key, member },
                DbStep::PostStore,
            ) && key@ == "twotts-by:"@ + login@ && member@ == "author:"@ + login@ + ":twott:"@
                + text@,
            Request::Subscribe(name) => out matches DbOutcome::Run(
                DbCommand::PushFront { key, value },
                DbStep::SubscribeStore,
            ) && key@ == "subscription-list:"@ + login@ && value == name,
            Request::Feed(page) => out matches DbOutcome::Run(
                DbCommand::TimeToLive { key },
                DbStep::FeedTtl { user, page: p },
            ) && key@ == "temp-feed:"@ + login@ && user@ == login@ && p == page,
            Request::SubscriptionList => out matches DbOutcome::Run(
                DbCommand::ListRange { key },
                DbStep::SubscriptionListFetch,
            ) && key@ == "subscription_list:"@ + login@,
            _ => out == DbOutcome::Drop,
        }),
        (request is Post || request is Subscribe) ==> stored == DbOutcome::Reply(
            None,
            Ok::<Response, TwotterError>(Response::Empty),
        ),
{
    reveal_strlit("author:");
    reveal_strlit(":twott:");
    if let Request::Post(text) = request {
        assert(member_of(login@, text@) =~= "author:"@ + login@ + ":twott:"@ + text@);
    }
}

/// A feed page whose cache is missing is rebuilt from the subscriptions:
/// the task reads `subscription-list:<user>`, the list that subscribing
/// pushes on; a cache that still lives is counted at once.
pub proof fn lemma_feed_cache_check(user: String, page: usize, ttl: i64, out: DbOutcome)
    requires
        resume_spec(DbStep::FeedTtl { user, page }, DbEvent::TimeToLive(ttl), out),
    ensures
        (if ttl == -2 {
            out matches DbOutcome::Run(
                DbCommand::ListRange { key },
                DbStep::FeedSubscriptions { user: u, page: p },
            ) && key@ == "subscription-list:"@ + user@ && u == user && p == page
        } else {
            out matches DbOutcome::Run(
                DbCommand::Count { key },
                DbStep::FeedCount { user: u, page: p },
            ) && key@ == "temp-feed:"@ + user@ && u == user && p == page
        }),
{
}

/// The cache of a feed is the union of the twotts of every name subscribed
/// to: with at least one name the task stores into `temp-feed:<user>` the
/// union of `twotts-by:<name>` over all the names, in their order; only with
/// no name does it go straight to counting the feed.
pub proof fn lemma_feed_rebuilt_from_subscriptions(
    user: String,
    page: usize,
    names: Vec<String>,
    out: DbOutcome,
)
    requires
        resume_spec(DbStep::FeedSubscriptions { user, page }, DbEvent::Names(names), out),
    ensures
        (if names.len() > 0 {
            out matches DbOutcome::Run(
                DbCommand::UnionStore { destination, keys },
                DbStep::FeedUnion { user: u, page: p },
            ) && destination@ == "temp-feed:"@ + user@ && u == user && p == page && keys.len()
                == names.len() && forall|i: int|
                0 <= i < names.len() ==> #[trigger] keys[i]@ == "twotts-by:"@ + names[i]@
        } else {
            out matches DbOutcome::Run(
                DbCommand::Count { key },
                DbStep::FeedCount { user: u, page: p },
            ) && key@ == "temp-feed:"@ + user@ && u == user && p == page
        }),
{
}

/// A rebuilt cache lives a minute, and is then counted.
pub proof fn lemma_feed_cache_lifetime(
    user: String,
    page: usize,
    expire: DbOutcome,
    count: DbOutcome,
)
    requires
        resume_spec(DbStep::FeedUnion { user, page }, DbEvent::Stored, expire),
        resume_spec(DbStep::FeedExpire { user, page }, DbEvent::Stored, count),
    ensures
        expire matches DbOutcome::Run(
            DbCommand::Expire { key, seconds },
            DbStep::FeedExpire { user: u, page: p },
        ) && key@ == "temp-feed:"@ + user@ && seconds == 60 && u == user && p == page,
        count matches DbOutcome::Run(
            DbCommand::Count { key },
            DbStep::FeedCount { user: u, page: p },
        ) && key@ == "temp-feed:"@ + user@ && u == user && p == page,
{
}

/// The window asked for page `page` of a feed of `n` twotts: ranks from
/// `10 * page` up to `10 * page + 10`, cut at the end of the feed, and the
/// number of pages is the least that holds all `n` twotts ten to a page.
pub proof fn lemma_feed_window_asked(user: String, page: usize, n: usize, out: DbOutcome)
    requires
        page_fits(page as int),
        n <= isize::MAX,
        resume_spec(DbStep::FeedCount { user, page }, DbEvent::Count(n), out),
    ensures
        out matches DbOutcome::Run(
            DbCommand::RevRangeWithScores { key, start, stop },
            DbStep::FeedRange { pages },
        ) && key@ == "temp-feed:"@ + user@ && 0 <= start <= stop <= n && stop - start <= 10 && (
        page * 10 <= n ==> start == page * 10) && (page * 10 > n ==> start == n) && (page * 10
            + 10 <= n ==> stop == page * 10 + 10) && (page * 10 + 10 > n ==> stop == n) && pages
            * 10 >= n && pages * 10 < n + 10,
{
    lemma_feed_window(page as int, n as int);
    assert(n == 0 ==> page_count(n as int) == 0);
}

/// A page of the feed shows each stored twott as its author, text and
/// moment, in the order the store gave them: a member that posting `text`
/// as `author` stored is shown as `author` and `text`, provided the first
/// `:twott:` of `author:twott:text` is the one between them.
pub proof fn lemma_feed_page_shows_posts(
    pages: usize,
    members: Vec<(String, Timestamp)>,
    authors: Seq<Seq<char>>,
    texts: Seq<Seq<char>>,
    out: DbOutcome,
)
    requires
        resume_spec(DbStep::FeedRange { pages }, DbEvent::Entries(members), out),
        authors.len() == members.len(),
        texts.len() == members.len(),
        forall|i: int|
            0 <= i < members.len() ==> #[trigger] members[i].0@ == "author:"@ + authors[i]
                + ":twott:"@ + texts[i] && no_separator_before(
                authors[i] + ":twott:"@ + texts[i],
                authors[i].len() as int,
            ),
    ensures
        out matches DbOutcome::Reply(None, Ok(Response::Page(entries, p))) && p == pages
            && entries.len() == members.len() && forall|i: int|
            0 <= i < members.len() ==> #[trigger] entries[i].0@ == authors[i] && entries[i].1@
                == texts[i] && entries[i].2 == members[i].1,
{
    reveal_strlit("author:");
    reveal_strlit(":twott:");
    assert(":twott:"@ =~= separator());
    if let DbOutcome::Reply(None, Ok(Response::Page(entries, p))) = out {
        assert forall|i: int| 0 <= i < members.len() implies #[trigger] entries[i].0@ == authors[i]
            && entries[i].1@ == texts[i] && entries[i].2 == members[i].1 by {
            assert(members[i].0@ =~= member_of(authors[i], texts[i]));
            lemma_feed_entry_round_trip(authors[i], texts[i]);
            assert(entry_of(members[i].0, members[i].1, entries[i]));
        }
    }
}

/// The subscription listing is each name followed by a comma: no names give
/// an empty listing, and one more name adds that name and a comma at the
/// end.
pub proof fn lemma_subscription_listing(
    names: Vec<String>,
    more: Vec<String>,
    name: String,
    out: DbOutcome,
    out_more: DbOutcome,
)
    requires
        more@ == names@.push(name),
        resume_spec(DbStep::SubscriptionListFetch, DbEvent::Names(names), out),
        resume_spec(DbStep::SubscriptionListFetch, DbEvent::Names(more), out_more),
    ensures
        out matches DbOutcome::Reply(None, Ok(Response::SubscriptionList(list))) && (names.len()
            == 0 ==> list@.len() == 0),
        out matches DbOutcome::Reply(None, Ok(Response::SubscriptionList(list)))
            && out_more matches DbOutcome::Reply(None, Ok(Response::SubscriptionList(list_more)))
            && list_more@ == list@ + name@ + ","@,
{
    assert(string_views(more@).drop_last() =~= string_views(names@));
}

} // verus!
