//! Who may call the API: every request carries the API key, and the first
//! request with a wrong key locks the API for the rest of the process.

use crate::text::str_eq;
use vstd::prelude::*;

verus! {

/// The header that carries the API key.
pub const API_KEY_HEADER_STR: &'static str = "x-api-key";

/// The API key as a request carried it.
#[derive(Debug)]
pub struct ApiKeyHeader(pub String);

impl ApiKeyHeader {
    pub fn key(&self) -> (r: &String)
        ensures
            r@ == self.0@,
    {
        &self.0
    }
}

/// If set then password has been guessed and manager API is now locked.
#[derive(Clone, Copy, Debug)]
pub struct ApiLock {
    locked: bool,
}

impl View for ApiLock {
    type V = bool;

    closed spec fn view(&self) -> bool {
        self.locked
    }
}

/// What a request is answered with before it reaches its handler.
#[derive(Clone, Copy, Debug, PartialEq, Eq, Structural)]
pub enum Admission {
    /// The request goes on to its handler.
    Accepted,
    /// The request has no readable API key: status 400.
    BadRequest,
    /// The API is locked: status 423.
    Locked,
}

impl Admission {
    /// The HTTP status that refuses the request; none for a request that is
    /// admitted.
    pub fn status_code(&self) -> (r: Option<u16>)
        ensures
            r == (match *self {
                Admission::Accepted => None,
                Admission::BadRequest => Some(400u16),
                Admission::Locked => Some(423u16),
            }),
    {
        match self {
            Admission::Accepted => None,
            Admission::BadRequest => Some(400),
            Admission::Locked => Some(423),
        }
    }
}

/// How a request with the key `header` is answered while the lock is
/// `locked` and the configured key is `api_key`.
pub open spec fn admission(locked: bool, api_key: Seq<char>, header: Option<Seq<char>>) -> Admission {
    match header {
        None => Admission::BadRequest,
        Some(key) => if !locked && key == api_key {
            Admission::Accepted
        } else {
            Admission::Locked
        },
    }
}

/// The lock after a request with the key `header`.
pub open spec fn lock_after(locked: bool, api_key: Seq<char>, header: Option<Seq<char>>) -> bool {
    locked || (header is Some && header->0 != api_key)
}

impl ApiLock {
    /// The lock of a process that has just started: open.
    pub fn new() -> (r: ApiLock)
        ensures
            !r@,
    {
        ApiLock { locked: false }
    }

    /// Whether the API is locked.
    pub fn is_locked(&self) -> (r: bool)
        ensures
            r == self@,
    {
        self.locked
    }

    /// Decides whether a request is admitted. `header` is the API key that
    /// the request carries, if it carries a readable one. A wrong key locks
    /// the API, and a locked API admits nothing, whatever the key.
    pub fn authenticate_with_api_key(&mut self, api_key: &str, header: Option<&str>) -> (r:
        Admission)
        ensures
            r == admission(
                old(self)@,
                api_key@,
                match header {
                    Some(h) => Some(h@),
                    None => None,
                },
            ),
            final(self)@ == lock_after(
                old(self)@,
                api_key@,
                match header {
                    Some(h) => Some(h@),
                    None => None,
                },
            ),
            old(self)@ ==> final(self)@,
    {
        match header {
            None => Admission::BadRequest,
            Some(key) => {
                if self.locked {
                    Admission::Locked
                } else if str_eq(api_key, key) {
                    Admission::Accepted
                } else {
                    self.locked = true;
                    Admission::Locked
                }
            },
        }
    }
}

/// The lock after the first `n` of the requests `headers`.
pub open spec fn lock_after_requests(
    locked: bool,
    api_key: Seq<char>,
    headers: Seq<Option<Seq<char>>>,
    n: int,
) -> bool
    decreases n,
{
    if n <= 0 {
        locked
    } else {
        lock_after(lock_after_requests(locked, api_key, headers, n - 1), api_key, headers[n - 1])
    }
}

/// Once the API is locked, it stays locked, and every later request that
/// carries a key is answered with "locked", the right key included.
pub proof fn lemma_locked_api_stays_locked(
    api_key: Seq<char>,
    headers: Seq<Option<Seq<char>>>,
    n: int,
    key: Seq<char>,
)
    requires
        0 <= n,
    ensures
        lock_after_requests(true, api_key, headers, n),
        admission(lock_after_requests(true, api_key, headers, n), api_key, Some(key))
            == Admission::Locked,
    decreases n,
{
    if n > 0 {
        lemma_locked_api_stays_locked(api_key, headers, n - 1, key);
    }
}

/// One request with a wrong key locks the API.
pub proof fn lemma_wrong_key_locks(locked: bool, api_key: Seq<char>, key: Seq<char>)
    requires
        key != api_key,
    ensures
        admission(locked, api_key, Some(key)) == Admission::Locked,
        lock_after(locked, api_key, Some(key)),
{
}

} // verus!
