//! The decisions of a server connection: which identity it acts as, and how
//! many answers of the database task it passes on for one request.

use crate::data::{Response, TwotterError};
use vstd::prelude::*;

verus! {

/// The identity after the answer `id` to a connection acting as `login`.
pub open spec fn login_after(login: Seq<char>, id: Option<String>) -> Seq<char> {
    match id {
        Some(new_id) => new_id@,
        None => login,
    }
}

/// The number of twotts an answer announces, if it announces one.
pub open spec fn announced(reply: Result<Response, TwotterError>) -> Option<usize> {
    match reply {
        Ok(Response::NumberOfTwotts(n)) => Some(n),
        _ => None,
    }
}

/// The identity a connection acts as after the database task answered with
/// `id`: a new identity replaces the old one, and no identity leaves it as
/// it was. An empty identity means the connection is not logged in.
pub fn login_after_reply(login_status: &mut String, id: Option<String>)
    ensures
        final(login_status)@ == login_after(old(login_status)@, id),
{
    match id {
        Some(new_id) => {
            *login_status = new_id;
        },
        None => {},
    }
}

/// How many answers follow the first one for the same request: after an
/// announced number of twotts, that many twotts and one closing answer
/// follow (`Some(n)` for `n` twotts); after any other answer, none
/// (`None`).
pub fn announced_twotts(reply: &Result<Response, TwotterError>) -> (count: Option<usize>)
    ensures
        count == announced(*reply),
{
    match reply {
        Ok(Response::NumberOfTwotts(n)) => Some(*n),
        _ => None,
    }
}

/// A connection takes the identity the database task hands back, and keeps
/// its identity when none is handed back; so once logged in it stays logged
/// in as long as no other identity comes.
pub proof fn lemma_identity_follows_answers(login: Seq<char>, new_id: String)
    ensures
        login_after(login, Some(new_id)) == new_id@,
        login_after(login, None) == login,
        login_after(login_after(login, Some(new_id)), None) == new_id@,
{
}

/// Only an announced number of twotts is followed by further answers, and
/// their number is the one announced.
pub proof fn lemma_announced_counts(reply: Result<Response, TwotterError>, n: usize)
    ensures
        announced(Ok(Response::NumberOfTwotts(n))) == Some(n),
        announced(reply) is Some ==> reply == Ok::<Response, TwotterError>(
            Response::NumberOfTwotts(announced(reply)->0),
        ),
{
}

} // verus!
