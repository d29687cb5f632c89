//! Where a session's password comes from, and how it is hashed.
//!
//! A password never travels as it is. It is hashed with the salt that the
//! peer chose for this client, and that hash is hashed again with the
//! challenge of the login at hand.

use vstd::prelude::*;
use sha2::Digest;
use crate::text::{bytes_eq, str_eq, utf8};

verus! {

/// The SHA-256 digest of a run of bytes.
pub uninterp spec fn sha256(data: Seq<u8>) -> Seq<u8>;

/// The SHA-256 digest of `data`.
///
/// Trusted: calls `sha2::Sha256::digest`. The digest depends on the data
/// alone and is 32 bytes long; the contract gives it its name and its
/// length.
#[verifier::external_body]
pub(crate) fn sha256_digest(data: &[u8]) -> (r: Vec<u8>)
    ensures
        r@ == sha256(data@),
        r@.len() == 32,
{
    sha2::Sha256::digest(data).to_vec()
}

/// The digest of two runs of bytes, one after the other.
pub open spec fn spec_hash_pair(first: Seq<u8>, second: Seq<u8>) -> Seq<u8> {
    sha256(first + second)
}

/// The digest of `first` followed by `second`.
pub fn hash_pair(first: &[u8], second: &[u8]) -> (r: Vec<u8>)
    ensures
        r@ == spec_hash_pair(first@, second@),
        r@.len() == 32,
{
    let mut data: Vec<u8> = Vec::new();
    data.extend_from_slice(first);
    data.extend_from_slice(second);
    assert(data@ =~= first@ + second@);
    sha256_digest(data.as_slice())
}

/// A password hashed with the peer's salt: what is remembered and
/// compared.
pub open spec fn spec_salted(password: Seq<char>, salt: Seq<char>) -> Seq<u8> {
    spec_hash_pair(utf8(password), utf8(salt))
}

/// A password hashed with the peer's salt.
pub fn salted(password: &str, salt: &str) -> (r: Vec<u8>)
    ensures
        r@ == spec_salted(password@, salt@),
        r@.len() == 32,
{
    hash_pair(password.as_bytes(), salt.as_bytes())
}

/// A salted password hashed with the challenge of a login: what is sent.
pub open spec fn spec_challenged(salted: Seq<u8>, challenge: Seq<char>) -> Seq<u8> {
    spec_hash_pair(salted, utf8(challenge))
}

/// A salted password hashed with the challenge of a login.
pub fn challenged(salted: &[u8], challenge: &str) -> (r: Vec<u8>)
    ensures
        r@ == spec_challenged(salted@, challenge@),
        r@.len() == 32,
{
    hash_pair(salted, challenge.as_bytes())
}

/// Where the password that was sent came from.
#[derive(Clone, Debug)]
pub enum PasswordSource {
    /// The personal address book, which held this hash.
    PersonalAb(Vec<u8>),
    /// A shared address book, which held this password.
    SharedAb(String),
    Undefined,
}

/// Where the password that was sent came from, as plain values.
pub enum SourceView {
    PersonalAb(Seq<u8>),
    SharedAb(Seq<char>),
    Undefined,
}

impl View for PasswordSource {
    type V = SourceView;

    open spec fn view(&self) -> SourceView {
        match self {
            PasswordSource::PersonalAb(hash) => SourceView::PersonalAb(hash@),
            PasswordSource::SharedAb(password) => SourceView::SharedAb(password@),
            PasswordSource::Undefined => SourceView::Undefined,
        }
    }
}

impl SourceView {
    /// Whether `password`, a salted hash, is the one that the personal
    /// address book held.
    pub open spec fn is_personal_ab(self, password: Seq<u8>) -> bool {
        password.len() > 0 && self == SourceView::PersonalAb(password)
    }

    /// Whether `password`, a salted hash, is the hash of the password that
    /// a shared address book held.
    pub open spec fn is_shared_ab(self, password: Seq<u8>, salt: Seq<char>) -> bool {
        password.len() > 0 && self is SharedAb && spec_salted(self->SharedAb_0, salt) == password
    }
}

impl PasswordSource {
    /// Whether `password`, a salted hash, is the one that the personal
    /// address book held.
    pub fn is_personal_ab(&self, password: &[u8]) -> (r: bool)
        ensures
            r == self@.is_personal_ab(password@),
    {
        if password.len() == 0 {
            return false;
        }
        match self {
            PasswordSource::PersonalAb(p) => bytes_eq(p.as_slice(), password),
            _ => false,
        }
    }

    /// Whether `password`, a salted hash, is the hash of the password that
    /// a shared address book held.
    pub fn is_shared_ab(&self, password: &[u8], salt: &str) -> (r: bool)
        ensures
            r == self@.is_shared_ab(password@, salt@),
    {
        if password.len() == 0 {
            return false;
        }
        match self {
            PasswordSource::SharedAb(p) => Self::equal(p.as_str(), password, salt),
            _ => false,
        }
    }

    /// Whether `password`, hashed with `salt`, is `connected_password`.
    pub fn equal(password: &str, connected_password: &[u8], salt: &str) -> (r: bool)
        ensures
            r == (spec_salted(password@, salt@) == connected_password@),
    {
        let hashed = salted(password, salt);
        bytes_eq(connected_password, hashed.as_slice())
    }
}

/// Someone in an address book.
#[derive(Debug)]
pub struct AbPeer {
    pub id: String,
    /// The peer's salted password hash, in base64; may be empty.
    pub hash: String,
}

/// One address book.
#[derive(Debug)]
pub struct AbEntry {
    pub personal: bool,
    pub peers: Vec<AbPeer>,
}

/// The address books of an account.
#[derive(Debug)]
pub struct Ab {
    pub access_token: String,
    pub ab_entries: Vec<AbEntry>,
}

/// What base64 text stands for, in the standard alphabet with padding, as
/// `sodiumoxide` decodes it; `None` for text that it refuses.
pub uninterp spec fn base64_decoded(text: Seq<char>) -> Option<Seq<u8>>;

/// Decodes base64 text.
///
/// Trusted: calls `sodiumoxide::base64::decode` for the standard alphabet
/// with padding. The result depends on the text alone; the contract gives
/// it its name and says no more of it.
#[verifier::external_body]
pub(crate) fn base64_decode(text: &str) -> (r: Option<Vec<u8>>)
    ensures
        match r {
            Some(bytes) => base64_decoded(text@) == Some(bytes@),
            None => base64_decoded(text@) is None,
        },
{
    sodiumoxide::base64::decode(text, sodiumoxide::base64::Variant::Original).ok()
}

/// The base64 text of a run of bytes, in the standard alphabet with
/// padding, as `sodiumoxide` encodes it.
pub uninterp spec fn base64_encoded(bytes: Seq<u8>) -> Seq<char>;

/// Encodes bytes as base64 text.
///
/// Trusted: calls `sodiumoxide::base64::encode` for the standard alphabet
/// with padding. The result depends on the bytes alone; the contract gives
/// it its name and says no more of it.
#[verifier::external_body]
pub(crate) fn base64_encode(bytes: &[u8]) -> (r: String)
    ensures
        r@ == base64_encoded(bytes@),
{
    sodiumoxide::base64::encode(bytes, sodiumoxide::base64::Variant::Original)
}

/// The first personal address book, if there is one.
pub open spec fn spec_first_personal(entries: Seq<AbEntry>) -> Option<AbEntry>
    decreases entries.len(),
{
    if entries.len() == 0 {
        None
    } else if entries[0].personal {
        Some(entries[0])
    } else {
        spec_first_personal(entries.drop_first())
    }
}

/// The first peer of the given id, if there is one.
pub open spec fn spec_first_peer(peers: Seq<AbPeer>, id: Seq<char>) -> Option<AbPeer>
    decreases peers.len(),
{
    if peers.len() == 0 {
        None
    } else if peers[0].id@ == id {
        Some(peers[0])
    } else {
        spec_first_peer(peers.drop_first(), id)
    }
}

/// The base64 text that the personal address book holds for peer `id`:
/// that of the first peer of that id in the first personal book, provided
/// that the book was loaded for the account that is logged in.
pub open spec fn spec_personal_hash_text(access_token: Seq<char>, ab: Ab, id: Seq<char>) -> Option<
    Seq<char>,
> {
    if access_token.len() > 0 && access_token == ab.access_token@ {
        match spec_first_personal(ab.ab_entries@) {
            Some(book) => match spec_first_peer(book.peers@, id) {
                Some(peer) => Some(peer.hash@),
                None => None,
            },
            None => None,
        }
    } else {
        None
    }
}

/// The salted password hash that a decoded address-book entry gives: one
/// that decoded, and not to nothing.
pub open spec fn spec_usable_hash(decoded: Option<Seq<u8>>) -> Option<Seq<u8>> {
    match decoded {
        Some(bytes) => if bytes.len() > 0 {
            Some(bytes)
        } else {
            None
        },
        None => None,
    }
}

/// The salted password hash that the personal address book holds for peer
/// `id`, if it holds a usable one.
pub open spec fn spec_personal_hash(access_token: Seq<char>, ab: Ab, id: Seq<char>) -> Option<
    Seq<u8>,
> {
    match spec_personal_hash_text(access_token, ab, id) {
        Some(text) => spec_usable_hash(base64_decoded(text)),
        None => None,
    }
}

/// The base64 text that the personal address book holds for peer `id`.
pub fn personal_hash_text<'a>(access_token: &str, ab: &'a Ab, id: &str) -> (r: Option<&'a String>)
    ensures
        match r {
            Some(text) => spec_personal_hash_text(access_token@, *ab, id@) == Some(text@),
            None => spec_personal_hash_text(access_token@, *ab, id@) is None,
        },
{
    if access_token.is_empty() || !str_eq(access_token, ab.access_token.as_str()) {
        return None;
    }
    let n = ab.ab_entries.len();
    let mut i: usize = 0;
    proof {
        assert(ab.ab_entries@.skip(0) =~= ab.ab_entries@);
    }
    while i < n
        invariant
            n == ab.ab_entries@.len(),
            i <= n,
            access_token@.len() > 0 && access_token@ == ab.access_token@,
            spec_first_personal(ab.ab_entries@) == spec_first_personal(
                ab.ab_entries@.skip(i as int),
            ),
        decreases n - i,
    {
        proof {
            assert(ab.ab_entries@.skip(i as int).drop_first() =~= ab.ab_entries@.skip(i + 1));
        }
        if ab.ab_entries[i].personal {
            let book = &ab.ab_entries[i];
            let m = book.peers.len();
            let mut j: usize = 0;
            proof {
                assert(book.peers@.skip(0) =~= book.peers@);
            }
            while j < m
                invariant
                    m == book.peers@.len(),
                    j <= m,
                    access_token@.len() > 0 && access_token@ == ab.access_token@,
                    spec_first_personal(ab.ab_entries@) == Some(*book),
                    spec_first_peer(book.peers@, id@) == spec_first_peer(
                        book.peers@.skip(j as int),
                        id@,
                    ),
                decreases m - j,
            {
                proof {
                    assert(book.peers@.skip(j as int).drop_first() =~= book.peers@.skip(j + 1));
                }
                if str_eq(book.peers[j].id.as_str(), id) {
                    return Some(&book.peers[j].hash);
                }
                j += 1;
            }
            return None;
        }
        i += 1;
    }
    None
}

/// The salted password hash that a decoded address-book entry gives.
pub fn usable_hash(decoded: Option<Vec<u8>>) -> (r: Option<Vec<u8>>)
    ensures
        match r {
            Some(bytes) => decoded matches Some(d) && d@.len() > 0 && bytes == d,
            None => match decoded {
                Some(d) => d@.len() == 0,
                None => true,
            },
        },
{
    match decoded {
        Some(bytes) => if bytes.len() > 0 {
            Some(bytes)
        } else {
            None
        },
        None => None,
    }
}

/// The salted password hash that the personal address book holds for peer
/// `id`, if it holds a usable one.
pub fn personal_hash(access_token: &str, ab: &Ab, id: &str) -> (r: Option<Vec<u8>>)
    ensures
        match r {
            Some(bytes) => spec_personal_hash(access_token@, *ab, id@) == Some(bytes@),
            None => spec_personal_hash(access_token@, *ab, id@) is None,
        },
{
    match personal_hash_text(access_token, ab, id) {
        Some(text) => usable_hash(base64_decode(text.as_str())),
        None => None,
    }
}

} // verus!
