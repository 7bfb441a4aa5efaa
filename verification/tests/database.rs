use twotter::data::{Request, Response, Timestamp, TwotterError, TwotterErrorKind};
use twotter::database::{
    database_handler, database_handler_resume, feed_page_fits, DbCommand, DbEvent, DbOutcome,
    DbStep,
};

fn s(x: &str) -> String {
    String::from(x)
}

fn refused(kind: TwotterErrorKind) -> DbOutcome {
    DbOutcome::Reply(None, Err(TwotterError::new(kind)))
}

fn run(out: DbOutcome) -> (DbCommand, DbStep) {
    match out {
        DbOutcome::Run(c, st) => (c, st),
        other => panic!("expected a command, got {:?}", other),
    }
}

#[test]
fn unlogged_requests_are_refused() {
    let nobody = String::new();
    for r in [
        Request::Post(s("hi")),
        Request::Feed(0),
        Request::Subscribe(s("bob")),
        Request::UserList,
        Request::SubscriptionList,
        Request::LogOut,
        Request::Page(s("bob"), 0),
    ] {
        assert_eq!(
            database_handler(r, &nobody),
            refused(TwotterErrorKind::UnloggedAccessAttempt)
        );
    }
}

#[test]
fn registration_of_new_user() {
    let (c, st) = run(database_handler(Request::RegistrationInfo(s("alice"), s("pw")), &String::new()));
    assert_eq!(c, DbCommand::Exists { key: s("user:alice") });
    let (c, st) = run(database_handler_resume(st, DbEvent::Exists(false)));
    assert_eq!(c, DbCommand::SetPassword { key: s("user:alice"), password: s("pw") });
    assert_eq!(st, DbStep::RegisterStore);
    assert_eq!(
        database_handler_resume(st, DbEvent::Stored),
        DbOutcome::Reply(None, Ok(Response::Empty))
    );
}

#[test]
fn registration_of_existing_user() {
    let (_, st) = run(database_handler(Request::RegistrationInfo(s("alice"), s("pw")), &String::new()));
    assert_eq!(
        database_handler_resume(st, DbEvent::Exists(true)),
        refused(TwotterErrorKind::UserAlreadyExists)
    );
}

#[test]
fn login_flows() {
    let start = || run(database_handler(Request::LoginInfo(s("alice"), s("pw")), &String::new()));
    let (c, st) = start();
    assert_eq!(c, DbCommand::Exists { key: s("user:alice") });
    assert_eq!(
        database_handler_resume(st, DbEvent::Exists(false)),
        refused(TwotterErrorKind::UserDoesntExist)
    );
    let (_, st) = start();
    let (c, st) = run(database_handler_resume(st, DbEvent::Exists(true)));
    assert_eq!(c, DbCommand::GetPassword { key: s("user:alice") });
    assert_eq!(
        database_handler_resume(st, DbEvent::Password(s("other"))),
        refused(TwotterErrorKind::WrongPassword)
    );
    let (_, st) = start();
    let (_, st2) = run(database_handler_resume(st, DbEvent::Exists(true)));
    assert_eq!(
        database_handler_resume(st2, DbEvent::Password(s("pw"))),
        DbOutcome::Reply(Some(s("alice")), Ok(Response::Empty))
    );
}

#[test]
fn logged_in_login_is_not_answered() {
    let alice = s("alice");
    assert_eq!(database_handler(Request::LoginInfo(s("a"), s("b")), &alice), DbOutcome::Drop);
    assert_eq!(database_handler(Request::RegistrationInfo(s("a"), s("b")), &alice), DbOutcome::Drop);
    assert_eq!(database_handler(Request::UserList, &alice), DbOutcome::Drop);
    assert_eq!(database_handler(Request::LogOut, &alice), DbOutcome::Drop);
    assert_eq!(database_handler(Request::Page(s("bob"), 1), &alice), DbOutcome::Drop);
}

#[test]
fn post_stores_member() {
    let (c, st) = run(database_handler(Request::Post(s("hello")), &s("alice")));
    assert_eq!(
        c,
        DbCommand::AddTwott { key: s("twotts-by:alice"), member: s("author:alice:twott:hello") }
    );
    assert_eq!(st, DbStep::PostStore);
    assert_eq!(
        database_handler_resume(st, DbEvent::Stored),
        DbOutcome::Reply(None, Ok(Response::Empty))
    );
}

#[test]
fn subscribe_pushes_name() {
    let (c, st) = run(database_handler(Request::Subscribe(s("bob")), &s("alice")));
    assert_eq!(c, DbCommand::PushFront { key: s("subscription-list:alice"), value: s("bob") });
    assert_eq!(
        database_handler_resume(st, DbEvent::Stored),
        DbOutcome::Reply(None, Ok(Response::Empty))
    );
}

#[test]
fn subscription_list_joins_names() {
    let (c, st) = run(database_handler(Request::SubscriptionList, &s("alice")));
    assert_eq!(c, DbCommand::ListRange { key: s("subscription_list:alice") });
    assert_eq!(
        database_handler_resume(st, DbEvent::Names(vec![s("bob"), s("carol")])),
        DbOutcome::Reply(None, Ok(Response::SubscriptionList(s("bob,carol,"))))
    );
    let (_, st) = run(database_handler(Request::SubscriptionList, &s("alice")));
    assert_eq!(
        database_handler_resume(st, DbEvent::Names(vec![])),
        DbOutcome::Reply(None, Ok(Response::SubscriptionList(s(""))))
    );
}

#[test]
fn feed_rebuilds_missing_cache() {
    let (c, st) = run(database_handler(Request::Feed(1), &s("alice")));
    assert_eq!(c, DbCommand::TimeToLive { key: s("temp-feed:alice") });
    let (c, st) = run(database_handler_resume(st, DbEvent::TimeToLive(-2)));
    assert_eq!(c, DbCommand::ListRange { key: s("subscription-list:alice") });
    let (c, st) = run(database_handler_resume(st, DbEvent::Names(vec![s("bob"), s("debug1")])));
    assert_eq!(
        c,
        DbCommand::UnionStore {
            destination: s("temp-feed:alice"),
            keys: vec![s("twotts-by:bob"), s("twotts-by:debug1")],
        }
    );
    let (c, st) = run(database_handler_resume(st, DbEvent::Stored));
    assert_eq!(c, DbCommand::Expire { key: s("temp-feed:alice"), seconds: 60 });
    let (c, st) = run(database_handler_resume(st, DbEvent::Stored));
    assert_eq!(c, DbCommand::Count { key: s("temp-feed:alice") });
    let (c, st) = run(database_handler_resume(st, DbEvent::Count(25)));
    assert_eq!(c, DbCommand::RevRangeWithScores { key: s("temp-feed:alice"), start: 10, stop: 20 });
    assert_eq!(st, DbStep::FeedRange { pages: 3 });
    let t1 = Timestamp { bits: 7 };
    let t2 = Timestamp { bits: 9 };
    let out = database_handler_resume(
        st,
        DbEvent::Entries(vec![
            (s("author:bob:twott:one"), t1),
            (s("author:debug1:twott:two:twott:three"), t2),
        ]),
    );
    assert_eq!(
        out,
        DbOutcome::Reply(
            None,
            Ok(Response::Page(
                vec![(s("bob"), s("one"), t1), (s("debug1"), s("two:twott:three"), t2)],
                3
            ))
        )
    );
}

#[test]
fn feed_without_subscriptions_counts_directly() {
    let (_, st) = run(database_handler(Request::Feed(0), &s("alice")));
    let (_, st) = run(database_handler_resume(st, DbEvent::TimeToLive(-2)));
    let (c, st) = run(database_handler_resume(st, DbEvent::Names(vec![])));
    assert_eq!(c, DbCommand::Count { key: s("temp-feed:alice") });
    let (c, st) = run(database_handler_resume(st, DbEvent::Count(0)));
    assert_eq!(c, DbCommand::RevRangeWithScores { key: s("temp-feed:alice"), start: 0, stop: 0 });
    assert_eq!(st, DbStep::FeedRange { pages: 0 });
    assert_eq!(
        database_handler_resume(st, DbEvent::Entries(vec![])),
        DbOutcome::Reply(None, Ok(Response::Page(vec![], 0)))
    );
}

#[test]
fn feed_uses_live_cache() {
    for ttl in [-1i64, 0, 42] {
        let (_, st) = run(database_handler(Request::Feed(2), &s("alice")));
        let (c, st) = run(database_handler_resume(st, DbEvent::TimeToLive(ttl)));
        assert_eq!(c, DbCommand::Count { key: s("temp-feed:alice") });
        let (c, st) = run(database_handler_resume(st, DbEvent::Count(23)));
        assert_eq!(c, DbCommand::RevRangeWithScores { key: s("temp-feed:alice"), start: 20, stop: 23 });
        assert_eq!(st, DbStep::FeedRange { pages: 3 });
    }
}

#[test]
fn feed_page_beyond_the_end() {
    let (_, st) = run(database_handler(Request::Feed(5), &s("alice")));
    let (_, st) = run(database_handler_resume(st, DbEvent::TimeToLive(10)));
    let (c, st) = run(database_handler_resume(st, DbEvent::Count(30)));
    assert_eq!(c, DbCommand::RevRangeWithScores { key: s("temp-feed:alice"), start: 30, stop: 30 });
    assert_eq!(st, DbStep::FeedRange { pages: 3 });
}

#[test]
fn page_numbers_that_fit() {
    assert!(feed_page_fits(0));
    assert!(feed_page_fits((usize::MAX - 10) / 10));
    assert!(!feed_page_fits((usize::MAX - 10) / 10 + 1));
    assert!(!feed_page_fits(usize::MAX));
}
