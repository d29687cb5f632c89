//! The grammar of a peer id.
//!
//! A peer is named by an id. The id may be followed by `@`, a rendezvous
//! server and, after `?`, arguments of the form `name=value` separated by
//! `&`; the argument `key` gives the server's key. The server `public`
//! stands for the default servers with their own key.

use vstd::prelude::*;
use vstd::string::StrSliceExecFns;
use vstd::string::StringExecFns;
use crate::connect::{is_public_server, public_server};
use crate::text::{after, before, chars_of, find_from, index_of, lemma_index_of, lemma_index_of_unique, str_eq};

verus! {

/// Splits `s` at its first `c`: what is before it, what is after it, and
/// whether there is one. Without one, all of `s` is before.
pub fn split_at_char<'a>(s: &'a str, c: char) -> (r: (&'a str, &'a str, bool))
    ensures
        r.0@ == before(s@, c),
        r.1@ == after(s@, c),
        r.2 == (index_of(s@, c) < s@.len()),
{
    let v = chars_of(s);
    let n = v.len();
    let i = find_from(&v, c, 0);
    proof {
        assert(v@.skip(0) =~= v@);
        assert(s@.subrange(0, i as int) =~= s@.take(i as int));
    }
    if i < n {
        proof {
            assert(s@.subrange(i + 1, n as int) =~= s@.skip(i + 1));
        }
        (s.substring_char(0, i), s.substring_char(i + 1, n), true)
    } else {
        proof {
            assert(s@.subrange(n as int, n as int) =~= Seq::<char>::empty());
        }
        (s.substring_char(0, i), s.substring_char(n, n), false)
    }
}

/// The part of a peer id before its first `@`: the peer's own id, as
/// written.
pub open spec fn spec_raw_id(id: Seq<char>) -> Seq<char> {
    before(id, '@')
}

/// Whether a peer id names a server.
pub open spec fn spec_names_server(id: Seq<char>) -> bool {
    index_of(id, '@') < id.len()
}

/// The part of a peer id between its first and its second `@`.
pub open spec fn spec_server_part(id: Seq<char>) -> Seq<char> {
    before(after(id, '@'), '@')
}

/// The server that a peer id names.
pub open spec fn spec_server(id: Seq<char>) -> Seq<char> {
    before(spec_server_part(id), '?')
}

/// The arguments that a peer id gives: what stands between the first and
/// the second `?` of the server part.
pub open spec fn spec_args(id: Seq<char>) -> Seq<char> {
    before(after(spec_server_part(id), '?'), '?')
}

/// The value of one argument, if it is the argument `key`: an argument is
/// a name, `=` and a value, and what has no `=` is no argument.
pub open spec fn spec_key_of(arg: Seq<char>) -> Option<Seq<char>> {
    if index_of(arg, '=') < arg.len() && before(arg, '=') == "key"@ {
        Some(after(arg, '='))
    } else {
        None
    }
}

/// The first value where there is one, else the second.
pub open spec fn or_else(first: Option<Seq<char>>, second: Option<Seq<char>>) -> Option<Seq<char>> {
    match first {
        Some(v) => Some(v),
        None => second,
    }
}

/// The value of the argument `key` among arguments separated by `&`; of
/// several, the last counts.
pub open spec fn spec_key_arg(args: Seq<char>) -> Option<Seq<char>>
    decreases args.len(),
    via spec_key_arg_decreases
{
    if index_of(args, '&') < args.len() {
        or_else(spec_key_arg(after(args, '&')), spec_key_of(before(args, '&')))
    } else {
        spec_key_of(args)
    }
}

#[via_fn]
proof fn spec_key_arg_decreases(args: Seq<char>) {
    lemma_index_of(args, '&');
}

/// The key of the server that a peer id names: the public key for the
/// server `public`, else the value of the argument `key`, else nothing.
pub open spec fn spec_key(id: Seq<char>, public_key: Seq<char>) -> Seq<char> {
    if spec_server(id) == public_server() {
        public_key
    } else {
        match spec_key_arg(spec_args(id)) {
            Some(key) => key,
            None => Seq::empty(),
        }
    }
}

/// The value of one argument, if it is the argument `key`.
pub fn key_of<'a>(arg: &'a str) -> (r: Option<&'a str>)
    ensures
        match r {
            Some(v) => spec_key_of(arg@) == Some(v@),
            None => spec_key_of(arg@) is None,
        },
{
    let (name, value, found) = split_at_char(arg, '=');
    if found && str_eq(name, "key") {
        Some(value)
    } else {
        None
    }
}

/// The value of the argument `key` among arguments separated by `&`.
pub fn key_arg<'a>(args: &'a str) -> (r: Option<&'a str>)
    ensures
        match r {
            Some(v) => spec_key_arg(args@) == Some(v@),
            None => spec_key_arg(args@) is None,
        },
{
    let mut rest: &str = args;
    let mut found: Option<&str> = None;
    loop
        invariant
            spec_key_arg(args@) == or_else(
                spec_key_arg(rest@),
                match found {
                    Some(v) => Some(v@),
                    None => None,
                },
            ),
        decreases rest@.len(),
    {
        let (arg, tail, more) = split_at_char(rest, '&');
        proof {
            lemma_index_of(rest@, '&');
        }
        match key_of(arg) {
            Some(v) => {
                found = Some(v);
            },
            None => {},
        }
        if !more {
            proof {
                assert(rest@.take(rest@.len() as int) =~= rest@);
            }
            return found;
        }
        rest = tail;
    }
}

/// A peer id, taken apart.
#[derive(Debug)]
pub struct PeerAddress {
    /// The peer's own id, as written.
    pub raw_id: String,
    /// The server that the id names, with its key.
    pub server: Option<(String, String)>,
}

/// Takes a peer id apart. `public_key` is the key of the default servers.
pub fn parse_peer_id(id: &str, public_key: &str) -> (r: PeerAddress)
    ensures
        r.raw_id@ == spec_raw_id(id@),
        match r.server {
            Some((server, key)) => {
                &&& spec_names_server(id@)
                &&& server@ == spec_server(id@)
                &&& key@ == spec_key(id@, public_key@)
            },
            None => !spec_names_server(id@),
        },
{
    let (raw_id, rest, names_server) = split_at_char(id, '@');
    if !names_server {
        return PeerAddress { raw_id: raw_id.to_owned(), server: None };
    }
    let (server_part, _, _) = split_at_char(rest, '@');
    let (server, query, _) = split_at_char(server_part, '?');
    let (args, _, _) = split_at_char(query, '?');
    let key = if is_public_server(server) {
        public_key.to_owned()
    } else {
        match key_arg(args) {
            Some(key) => key.to_owned(),
            None => String::new(),
        }
    };
    PeerAddress { raw_id: raw_id.to_owned(), server: Some((server.to_owned(), key)) }
}

/// Whom a session talks to, once the peer id is taken apart.
#[derive(Debug)]
pub struct SessionTarget {
    /// The id under which the peer's configuration is stored.
    pub id: String,
    /// The peer's own id, the server and the key, where the id named a
    /// server.
    pub other_server: Option<(String, String, String)>,
    pub force_relay: bool,
}

/// Settles whom a session talks to. `real_id` is the peer's own id as the
/// rest of the application reads `address.raw_id`; where the two differ the
/// id asked for a relay, and the session is relayed.
pub fn session_target(address: PeerAddress, real_id: String, force_relay: bool) -> (r: SessionTarget)
    ensures
        r.force_relay == (force_relay || real_id@ != address.raw_id@),
        match address.server {
            Some((server, key)) => {
                &&& r.id@ == real_id@ + seq!['@'] + server@
                &&& r.other_server matches Some((a, b, c))
                &&& a@ == real_id@
                &&& b@ == server@
                &&& c@ == key@
            },
            None => {
                &&& r.id@ == real_id@
                &&& r.other_server is None
            },
        },
{
    let relayed = force_relay || !str_eq(real_id.as_str(), address.raw_id.as_str());
    match address.server {
        Some((server, key)) => {
            proof {
                reveal_strlit("@");
                assert("@"@ =~= seq!['@']);
            }
            let id = real_id.clone().concat("@").concat(server.as_str());
            SessionTarget { id, other_server: Some((real_id, server, key)), force_relay: relayed }
        },
        None => SessionTarget { id: real_id, other_server: None, force_relay: relayed },
    }
}

/// A peer id written as an id, `@`, a server, `?key=` and a key reads back
/// as that id, that server and that key, any of which may be empty,
/// provided that the id holds no `@`, the server no `@` or `?` and is not
/// `public`, and the key no `@`, `?` or `&`.
pub proof fn lemma_parse_written_id(
    id: Seq<char>,
    server: Seq<char>,
    key: Seq<char>,
    public_key: Seq<char>,
)
    requires
        !id.contains('@'),
        !server.contains('@'),
        !server.contains('?'),
        server != public_server(),
        !key.contains('@'),
        !key.contains('?'),
        !key.contains('&'),
    ensures
        ({
            let written = id + seq!['@'] + server + seq!['?', 'k', 'e', 'y', '='] + key;
            &&& spec_names_server(written)
            &&& spec_raw_id(written) == id
            &&& spec_server(written) == server
            &&& spec_key(written, public_key) == key
        }),
{
    reveal_strlit("key");
    let query = seq!['k', 'e', 'y', '='] + key;
    let server_part = server + seq!['?'] + query;
    let written = id + seq!['@'] + server + seq!['?', 'k', 'e', 'y', '='] + key;
    assert(written =~= id + seq!['@'] + server_part);
    lemma_split(id, '@', server_part);
    assert(after(written, '@') == server_part);
    lemma_no_char(server_part, '@');
    assert(spec_server_part(written) =~= server_part);
    lemma_split(server, '?', query);
    assert(after(server_part, '?') == query);
    lemma_no_char(query, '?');
    assert(spec_args(written) =~= query);
    lemma_no_char(query, '&');
    assert(query =~= seq!['k', 'e', 'y'] + seq!['='] + key);
    lemma_split(seq!['k', 'e', 'y'], '=', key);
    assert("key"@ =~= seq!['k', 'e', 'y']);
}

/// Where `head` holds no `c`, `head`, `c` and `tail` split at that `c`.
pub proof fn lemma_split(head: Seq<char>, c: char, tail: Seq<char>)
    requires
        !head.contains(c),
    ensures
        index_of(head + seq![c] + tail, c) == head.len(),
        before(head + seq![c] + tail, c) == head,
        after(head + seq![c] + tail, c) == tail,
{
    let s = head + seq![c] + tail;
    assert forall|j: int| 0 <= j < head.len() implies s[j] != c by {
        assert(s[j] == head[j]);
        assert(head.contains(head[j]));
    }
    assert(s[head.len() as int] == c);
    lemma_index_of_unique(s, c, head.len() as int);
    assert(s.take(head.len() as int) =~= head);
    assert(s.skip(head.len() as int + 1) =~= tail);
}

/// A text without `c` is all before `c`.
pub proof fn lemma_no_char(s: Seq<char>, c: char)
    requires
        !s.contains(c),
    ensures
        index_of(s, c) == s.len(),
        before(s, c) == s,
{
    assert forall|j: int| 0 <= j < s.len() implies s[j] != c by {
        assert(s.contains(s[j]));
    }
    lemma_index_of_unique(s, c, s.len() as int);
    assert(s.take(s.len() as int) =~= s);
}

} // verus!
