//! Twotts are stored as sorted-set members of the form
//! `author:<author>:twott:<text>`; this module builds such members and
//! splits them back into author and text.

use vstd::prelude::*;
use vstd::string::*;
use vstd::utf8::*;

verus! {

broadcast use vstd::utf8::group_utf8_lib;

/// The characters that open every stored member: `author:`.
pub open spec fn author_prefix() -> Seq<char> {
    seq!['a', 'u', 't', 'h', 'o', 'r', ':']
}

/// The characters that part the author from the text: `:twott:`.
pub open spec fn separator() -> Seq<char> {
    seq![':', 't', 'w', 'o', 't', 't', ':']
}

/// The separator starts at position `i` of `s`.
pub open spec fn separator_at(s: Seq<char>, i: int) -> bool {
    &&& 0 <= i
    &&& i + separator().len() <= s.len()
    &&& s.subrange(i, i + separator().len()) == separator()
}

/// No separator starts in `s` before position `end`.
pub open spec fn no_separator_before(s: Seq<char>, end: int) -> bool {
    forall|j: int| 0 <= j < end ==> !#[trigger] separator_at(s, j)
}

/// The member stored for a twott of `author` with text `text`.
pub open spec fn member_of(author: Seq<char>, text: Seq<char>) -> Seq<char> {
    author_prefix() + author + separator() + text
}

/// What is left of a member once its first seven bytes are cut off.
pub open spec fn member_rest(line: Seq<char>) -> Seq<char> {
    let bytes = encode_utf8(line);
    decode_utf8(bytes.subrange(7, bytes.len() as int))
}

/// A member can be split: its seventh byte ends a character and a separator
/// follows it.
pub open spec fn member_parsable(line: Seq<char>) -> bool {
    &&& is_char_boundary(encode_utf8(line), 7)
    &&& exists|i: int| #[trigger] separator_at(member_rest(line), i)
}

/// `line` splits into `author` and `text`: after its first seven bytes
/// comes the author, the separator and the text, and no separator starts
/// before the one after the author.
pub open spec fn split_as(line: Seq<char>, author: Seq<char>, text: Seq<char>) -> bool {
    &&& member_rest(line) == author + separator() + text
    &&& no_separator_before(member_rest(line), author.len() as int)
}

/// Builds the stored member for a twott: `author:<author>:twott:<text>`.
pub fn twott_member(author: &str, text: &str) -> (member: String)
    ensures
        member@ == member_of(author@, text@),
{
    let mut member = String::from_str("author:");
    member.append(author);
    member.append(":twott:");
    member.append(text);
    proof {
        reveal_strlit("author:");
        reveal_strlit(":twott:");
        assert(member@ =~= member_of(author@, text@));
    }
    member
}

/// Whether the separator starts at position `i` of `chars`.
fn separator_at_exec(chars: &Vec<char>, i: usize) -> (found: bool)
    ensures
        found == separator_at(chars@, i as int),
{
    if i > chars.len() || chars.len() - i < 7 {
        return false;
    }
    let found = chars[i] == ':' && chars[i + 1] == 't' && chars[i + 2] == 'w' && chars[i + 3]
        == 'o' && chars[i + 4] == 't' && chars[i + 5] == 't' && chars[i + 6] == ':';
    proof {
        if found {
            assert(chars@.subrange(i as int, i + 7) =~= separator());
        } else {
            if chars@.subrange(i as int, i + 7) == separator() {
                assert(chars@.subrange(i as int, i + 7)[0] == chars@[i as int]);
                assert(chars@.subrange(i as int, i + 7)[1] == chars@[i + 1]);
                assert(chars@.subrange(i as int, i + 7)[2] == chars@[i + 2]);
                assert(chars@.subrange(i as int, i + 7)[3] == chars@[i + 3]);
                assert(chars@.subrange(i as int, i + 7)[4] == chars@[i + 4]);
                assert(chars@.subrange(i as int, i + 7)[5] == chars@[i + 5]);
                assert(chars@.subrange(i as int, i + 7)[6] == chars@[i + 6]);
            }
        }
    }
    found
}

/// The position of the first separator in `chars`, if there is one.
fn first_separator(chars: &Vec<char>) -> (pos: Option<usize>)
    ensures
        match pos {
            Some(i) => separator_at(chars@, i as int) && no_separator_before(chars@, i as int),
            None => forall|j: int| !#[trigger] separator_at(chars@, j),
        },
{
    let mut i: usize = 0;
    while i < chars.len()
        invariant
            i <= chars.len(),
            no_separator_before(chars@, i as int),
        decreases chars.len() - i,
    {
        if separator_at_exec(chars, i) {
            return Some(i);
        }
        i = i + 1;
    }
    None
}

/// The characters of `s`, one by one.
fn chars_of(s: &str) -> (chars: Vec<char>)
    ensures
        chars@ == s@,
{
    let n: usize = s.unicode_len();
    let mut chars: Vec<char> = Vec::new();
    let mut i: usize = 0;
    while i < n
        invariant
            n == s@.len(),
            i <= n,
            chars@ == s@.take(i as int),
        decreases n - i,
    {
        chars.push(s.get_char(i));
        proof {
            assert(chars@ =~= s@.take(i + 1));
        }
        i = i + 1;
    }
    proof {
        assert(chars@ =~= s@);
    }
    chars
}

/// Whether `line` can be split by [`author_twott_parser`].
pub fn is_twott_member(line: &String) -> (parsable: bool)
    ensures
        parsable == member_parsable(line@),
{
    let s = line.as_str();
    if !s.is_char_boundary(7) {
        return false;
    }
    let (_, rest) = s.split_at(7);
    proof {
        lemma_rest_view(line@, rest@);
    }
    let chars = chars_of(rest);
    match first_separator(&chars) {
        Some(_) => true,
        None => false,
    }
}

proof fn lemma_rest_view(line: Seq<char>, rest: Seq<char>)
    requires
        encode_utf8(rest) =~= encode_utf8(line).subrange(7, encode_utf8(line).len() as int),
    ensures
        rest == member_rest(line),
{
    encode_utf8_decode_utf8(rest);
}

/// Splits a stored member into its author and its text: the first seven
/// bytes (`author:`) are cut off, and what is left is parted at the first
/// `:twott:`.
pub fn author_twott_parser(line: String) -> (parts: (String, String))
    requires
        member_parsable(line@),
    ensures
        split_as(line@, parts.0@, parts.1@),
{
    let s = line.as_str();
    let (_, rest) = s.split_at(7);
    proof {
        lemma_rest_view(line@, rest@);
    }
    let chars = chars_of(rest);
    let n: usize = chars.len();
    match first_separator(&chars) {
        Some(i) => {
            let author = rest.substring_char(0, i).to_owned();
            let twott = rest.substring_char(i + 7, n).to_owned();
            proof {
                assert(rest@ =~= author@ + separator() + twott@);
            }
            (author, twott)
        },
        None => {
            proof {
                let i = choose|i: int| #[trigger] separator_at(member_rest(line@), i);
                assert(separator_at(chars@, i));
            }
            (String::new(), String::new())
        },
    }
}

pub(crate) proof fn lemma_encode_concat(a: Seq<char>, b: Seq<char>)
    ensures
        encode_utf8(a + b) == encode_utf8(a) + encode_utf8(b),
    decreases a.len(),
{
    if a.len() == 0 {
        assert(a + b =~= b);
        assert(encode_utf8(a) + encode_utf8(b) =~= encode_utf8(b));
    } else {
        assert((a + b).drop_first() =~= a.drop_first() + b);
        lemma_encode_concat(a.drop_first(), b);
        assert(encode_utf8(a + b) =~= encode_utf8(a) + encode_utf8(b));
    }
}

/// What a stored member is cut into: the characters after `author:`.
proof fn lemma_member_rest(rest: Seq<char>)
    ensures
        is_char_boundary(encode_utf8(author_prefix() + rest), 7),
        member_rest(author_prefix() + rest) == rest,
{
    let line = author_prefix() + rest;
    let bytes = encode_utf8(line);
    lemma_encode_concat(author_prefix(), rest);
    assert(is_ascii_chars(author_prefix()));
    assert(encode_utf8(author_prefix()).len() == 7);
    assert(bytes.subrange(7, bytes.len() as int) =~= encode_utf8(rest));
    if rest.len() == 0 {
        assert(bytes.len() == 7);
    } else {
        encode_utf8_first_scalar(rest);
        assert(bytes[7] == encode_utf8(rest)[0]);
        assert(is_char_boundary(bytes, 7));
    }
}

/// Reading back a feed entry gives what was posted: splitting the member
/// built for `author` and `text` yields exactly `author` and `text`, whenever
/// the first `:twott:` of `author:twott:text` is the one placed between them.
pub proof fn lemma_feed_entry_round_trip(author: Seq<char>, text: Seq<char>)
    requires
        no_separator_before(author + separator() + text, author.len() as int),
    ensures
        member_parsable(member_of(author, text)),
        member_rest(member_of(author, text)) == author + separator() + text,
        forall|parsed_author: Seq<char>, parsed_text: Seq<char>|
            member_rest(member_of(author, text)) == parsed_author + separator() + parsed_text
                && no_separator_before(
                member_rest(member_of(author, text)),
                parsed_author.len() as int,
            ) ==> parsed_author == author && parsed_text == text,
{
    let rest = author + separator() + text;
    assert(member_of(author, text) =~= author_prefix() + rest);
    lemma_member_rest(rest);
    assert(rest.subrange(author.len() as int, author.len() + 7int) =~= separator());
    assert(separator_at(rest, author.len() as int));
    assert forall|parsed_author: Seq<char>, parsed_text: Seq<char>|
        rest == parsed_author + separator() + parsed_text && no_separator_before(
            rest,
            parsed_author.len() as int,
        ) implies parsed_author == author && parsed_text == text by {
        let p: int = parsed_author.len() as int;
        assert(rest.subrange(p, p + 7) =~= separator());
        assert(separator_at(rest, p));
        assert(p == author.len());
        assert(parsed_author =~= rest.subrange(0, p));
        assert(author =~= rest.subrange(0, p));
        assert(parsed_text =~= rest.subrange(p + 7, rest.len() as int));
        assert(text =~= rest.subrange(p + 7, rest.len() as int));
    }
}

/// The stored member of a twott is `author:`, the author, `:twott:` and
/// the text, in that order.
pub proof fn lemma_member_layout(author: Seq<char>, text: Seq<char>)
    ensures
        member_of(author, text) == "author:"@ + author + ":twott:"@ + text,
{
    reveal_strlit("author:");
    reveal_strlit(":twott:");
    assert(member_of(author, text) =~= "author:"@ + author + ":twott:"@ + text);
}

/// Splitting the member `author:<author>:twott:<text>` gives back `author`
/// and `text`, whenever the first `:twott:` of `<author>:twott:<text>` is
/// the one after the author; such a member can always be split.
pub proof fn lemma_posted_member_splits(
    author: Seq<char>,
    text: Seq<char>,
    parsed_author: Seq<char>,
    parsed_text: Seq<char>,
)
    requires
        forall|j: int|
            0 <= j < author.len() ==> #[trigger] (author + ":twott:"@ + text).subrange(j, j + 7)
                != ":twott:"@,
    ensures
        member_parsable("author:"@ + author + ":twott:"@ + text),
        split_as("author:"@ + author + ":twott:"@ + text, parsed_author, parsed_text)
            ==> parsed_author == author && parsed_text == text,
{
    reveal_strlit(":twott:");
    assert(":twott:"@ =~= separator());
    lemma_member_layout(author, text);
    assert forall|j: int| 0 <= j < author.len() implies !#[trigger] separator_at(
        author + separator() + text,
        j,
    ) by {
        assert((author + ":twott:"@ + text).subrange(j, j + 7) != ":twott:"@);
    }
    lemma_feed_entry_round_trip(author, text);
}

} // verus!
