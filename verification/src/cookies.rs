//! Cookie access.
//!
//! An upstream cookie-parsing step fills a [`cookie::CookieJar`] from the
//! request's headers and hands it to the request inside [`CookieData`]: the
//! jar behind a reader/writer lock, so many concurrently live requests can
//! read it while a writer is kept out. The lock's predicate pins the jar's
//! textual contents, so reading through the lock yields exactly the entries
//! the jar was installed with.

use vstd::prelude::*;
use vstd::rwlock::{RwLock, RwLockPredicate};

use std::sync::Arc;

verus! {

/// The `cookie` crate's jar, declared so it can stand in signatures and
/// fields; its contents are visible to specifications only through
/// [`jar_entries`].
#[verifier::external_type_specification]
#[verifier::external_body]
pub struct ExCookieJar(cookie::CookieJar);

/// The textual contents of a jar: for each name for which `CookieJar::get`
/// finds a cookie, the value of that cookie.
pub uninterp spec fn jar_entries(jar: cookie::CookieJar) -> Map<Seq<char>, Seq<char>>;

/// A cookie as the request reports it: its name and its value.
#[derive(Clone, Debug)]
pub struct Cookie {
    pub name: String,
    pub value: String,
}

/// Relies on `cookie::CookieJar::get`: it returns the cookie stored under
/// `name` (if one is present and not removed), and that cookie carries the
/// looked-up name.
#[verifier::external_body]
fn jar_get(jar: &cookie::CookieJar, name: &str) -> (r: Option<Cookie>)
    ensures
        r is Some <==> jar_entries(*jar).dom().contains(name@),
        r is Some ==> r->0.name@ == name@,
        r is Some ==> r->0.value@ == jar_entries(*jar)[name@],
{
    jar.get(name).map(|c| Cookie { name: c.name().to_string(), value: c.value().to_string() })
}

/// The lock predicate for a shared jar: the jar behind the lock always has
/// the entries the lock was created with.
pub struct JarPred {
    pub entries: Map<Seq<char>, Seq<char>>,
}

impl RwLockPredicate<cookie::CookieJar> for JarPred {
    open spec fn inv(self, jar: cookie::CookieJar) -> bool {
        jar_entries(jar) == self.entries
    }
}

/// The well-known per-request entry the cookie-parsing step installs: the
/// request's cookie jar behind a reader/writer lock, shareable by handle.
#[derive(Clone)]
pub struct CookieData {
    pub content: Arc<RwLock<cookie::CookieJar, JarPred>>,
}

impl CookieData {
    /// The textual contents of the shared jar.
    pub open spec fn entries(self) -> Map<Seq<char>, Seq<char>> {
        self.content.pred().entries
    }

    /// Put a jar behind a fresh lock whose predicate pins the jar's
    /// current contents.
    pub fn new(jar: cookie::CookieJar) -> (d: CookieData)
        ensures
            d.entries() == jar_entries(jar),
    {
        let ghost pred = JarPred { entries: jar_entries(jar) };
        let lock = RwLock::new(jar, Ghost(pred));
        CookieData { content: Arc::new(lock) }
    }

    /// Look a cookie up by name: the cookie stored under `name`, or `None`
    /// if the jar holds no such cookie. Takes and releases a read lock, so
    /// concurrent readers do not exclude one another.
    pub fn get(&self, name: &str) -> (r: Option<Cookie>)
        ensures
            r is Some <==> self.entries().dom().contains(name@),
            r is Some ==> r->0.name@ == name@,
            r is Some ==> r->0.value@ == self.entries()[name@],
    {
        let handle = self.content.acquire_read();
        let jar = handle.borrow();
        let r = jar_get(jar, name);
        handle.release_read();
        r
    }
}

} // verus!
