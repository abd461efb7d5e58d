//! The table of sessions, and the key by which a client names its own.
//!
//! A session ties one client to one game. The table maps session keys to
//! whatever the host keeps per session; the host guards the table with a
//! lock for many readers or one writer, takes it only for the length of one
//! call below, and guards each session's game with a lock of its own.

use std::collections::HashMap;
use vstd::prelude::*;

verus! {

broadcast use vstd::std_specs::hash::group_hash_axioms;

/// The name of the cookie that carries the session key.
pub const SESSION_KEY_REF: &'static str = "session_key";

/// The key that `text` spells, if it spells one.
pub uninterp spec fn parsed_key(text: Seq<char>) -> Option<u128>;

/// A key written out: 32 hexadecimal digits in five groups.
pub uninterp spec fn key_text(key: u128) -> Seq<char>;

/// The bits that mark a key as randomly made.
pub open spec fn is_random_key(key: u128) -> bool {
    key & 0x0000_0000_0000_f000_c000_0000_0000_0000 == 0x0000_0000_0000_4000_8000_0000_0000_0000
}

/// `uuid::Uuid::new_v4`, as a number: 122 random bits around the six that
/// mark version 4.
#[verifier::external_body]
fn random_key() -> (key: u128)
    ensures
        is_random_key(key),
{
    uuid::Uuid::new_v4().as_u128()
}

/// `uuid::Uuid::parse_str`, as a number. `None` where the text is no key.
#[verifier::external_body]
fn read_key(text: &str) -> (key: Option<u128>)
    ensures
        key == parsed_key(text@),
{
    uuid::Uuid::parse_str(text).ok().map(|id| id.as_u128())
}

/// `uuid::Uuid::from_u128` and `to_string`: the key in the hyphenated form,
/// which `parse_str` reads back as the same key.
#[verifier::external_body]
fn write_key(key: u128) -> (text: String)
    ensures
        text@ == key_text(key),
        parsed_key(text@) == Some(key),
{
    uuid::Uuid::from_u128(key).to_string()
}

/// What the host is to do with the client's cookies.
#[derive(Debug, PartialEq, Eq)]
pub enum Cookie {
    /// Set the cookie of this name to this value.
    Add { name: &'static str, value: String },
    /// Remove the cookie of this name.
    Remove { name: &'static str },
}

/// The sessions that are open, by key.
pub struct SessionHandler<S> {
    sessions: HashMap<u128, S>,
}

impl<S> View for SessionHandler<S> {
    type V = Map<u128, S>;

    closed spec fn view(&self) -> Map<u128, S> {
        self.sessions@
    }
}

impl<S> SessionHandler<S> {
    /// A table without sessions.
    pub fn new() -> (handler: Self)
        ensures
            handler@ == Map::<u128, S>::empty(),
    {
        SessionHandler { sessions: HashMap::new() }
    }

    /// The session under a key, if there is one.
    pub fn get(&self, id: u128) -> (session: Option<&S>)
        ensures
            session is Some == self@.contains_key(id),
            session matches Some(s) ==> *s == self@[id],
    {
        self.sessions.get(&id)
    }

    /// Puts a session under a key, in place of the one that was there, if
    /// any. No other key is touched.
    pub fn add(&mut self, id: u128, session: S)
        ensures
            final(self)@ == old(self)@.insert(id, session),
    {
        self.sessions.insert(id, session);
    }

    /// Removes the session under a key. Where there is none, nothing
    /// changes; no other key is touched either way.
    pub fn remove(&mut self, id: u128)
        ensures
            final(self)@ == old(self)@.remove(id),
            !old(self)@.contains_key(id) ==> final(self)@ == old(self)@,
    {
        self.sessions.remove(&id);
        assert(!old(self)@.contains_key(id) ==> old(self)@.remove(id) =~= old(self)@);
    }

    /// The number of sessions.
    pub fn len(&self) -> (count: usize)
        ensures
            count == self@.len(),
    {
        self.sessions.len()
    }
}

/// The key that a cookie's value gives.
pub open spec fn session_key_of(cookie: Option<&str>) -> Option<u128> {
    match cookie {
        Some(value) => parsed_key(value@),
        None => None,
    }
}

/// Reads the session key from the value of the client's cookie. `None`
/// where there is no cookie or its value is no key.
pub fn get_session_key(cookie: Option<&str>) -> (key: Option<u128>)
    ensures
        key == session_key_of(cookie),
{
    match cookie {
        Some(value) => read_key(value),
        None => None,
    }
}

/// The cookie that hands a session key to the client.
pub fn set_session_key(uuid: u128) -> (cookie: Cookie)
    ensures
        cookie matches Cookie::Add { name, value } && name@ == SESSION_KEY_REF@ && value@
            == key_text(uuid) && parsed_key(value@) == Some(uuid),
{
    Cookie::Add { name: SESSION_KEY_REF, value: write_key(uuid) }
}

/// The cookie change that takes the session key from the client.
pub fn remove_session_key() -> (cookie: Cookie)
    ensures
        cookie matches Cookie::Remove { name } && name@ == SESSION_KEY_REF@,
{
    Cookie::Remove { name: SESSION_KEY_REF }
}

/// Opens a session under a fresh random key, given as the result together
/// with the cookie that hands it to the client. Every session that was open
/// stays as it was, but one that stood under the same key.
pub fn add_session<S>(state: S, session_handler: &mut SessionHandler<S>) -> (opened: (u128, Cookie))
    ensures
        final(session_handler)@ == old(session_handler)@.insert(opened.0, state),
        is_random_key(opened.0),
        opened.1 matches Cookie::Add { name, value } && name@ == SESSION_KEY_REF@ && value@
            == key_text(opened.0) && parsed_key(value@) == Some(opened.0),
{
    let id = random_key();
    session_handler.add(id, state);
    (id, set_session_key(id))
}

/// The session that the client's cookie names, if it names one.
pub fn find_session<'a, S>(cookie: Option<&str>, session_handler: &'a SessionHandler<S>) -> (session:
    Option<&'a S>)
    ensures
        match session_key_of(cookie) {
            Some(key) => {
                &&& session is Some == session_handler@.contains_key(key)
                &&& session matches Some(s) ==> *s == session_handler@[key]
            },
            None => session is None,
        },
{
    match get_session_key(cookie) {
        Some(key) => session_handler.get(key),
        None => None,
    }
}

/// Closes the session that the client's cookie names, if it names one, and
/// says which cookie to take from the client. Without a readable key the
/// table stays as it is.
pub fn remove_session<S>(cookie: Option<&str>, session_handler: &mut SessionHandler<S>) -> (change:
    Cookie)
    ensures
        final(session_handler)@ == match session_key_of(cookie) {
            Some(key) => old(session_handler)@.remove(key),
            None => old(session_handler)@,
        },
        change matches Cookie::Remove { name } && name@ == SESSION_KEY_REF@,
{
    match get_session_key(cookie) {
        None => {},
        Some(key) => {
            session_handler.remove(key);
        },
    }
    remove_session_key()
}

/// Removing a key that names no session changes nothing, and removing any
/// key leaves every other session as it was.
pub proof fn remove_keeps_others<S>(sessions: Map<u128, S>, id: u128, other: u128)
    ensures
        !sessions.contains_key(id) ==> sessions.remove(id) == sessions,
        other != id ==> sessions.remove(id).contains_key(other) == sessions.contains_key(other),
        other != id && sessions.contains_key(other) ==> sessions.remove(id)[other]
            == sessions[other],
{
    if !sessions.contains_key(id) {
        assert(sessions.remove(id) =~= sessions);
    }
}

/// Sessions under different keys are apart: putting a session under one key,
/// anew or in place of another, leaves what stands under any other key as
/// it was.
pub proof fn sessions_are_apart<S>(sessions: Map<u128, S>, id: u128, session: S, other: u128)
    requires
        other != id,
    ensures
        sessions.insert(id, session).contains_key(other) == sessions.contains_key(other),
        sessions.contains_key(other) ==> sessions.insert(id, session)[other] == sessions[other],
        sessions.insert(id, session)[id] == session,
{
}

} // verus!
