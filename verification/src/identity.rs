//! Records whose equality, order or hash is chosen by hand.

use std::cmp::Ordering;
use std::hash::Hash;
use std::hash::Hasher;
use vstd::prelude::*;
use vstd::std_specs::cmp::PartialEqSpecImpl;
use vstd::std_specs::cmp::PartialOrdSpecImpl;

verus! {

/// A point with whole coordinates, equal to another when both
/// coordinates agree.
#[derive(Debug, Clone, PartialEq, Eq, Structural)]
pub struct Point {
    pub x: i32,
    pub y: i32,
}

impl Point {
    pub fn new(x: i32, y: i32) -> (r: Point)
        ensures
            r == (Point { x, y }),
    {
        Point { x, y }
    }
}

/// A user; two users are the same user when their ids agree.
#[derive(Debug, Clone)]
pub struct User {
    pub id: u64,
    pub name: String,
    pub email: String,
}

impl User {
    pub fn new(id: u64, name: &str, email: &str) -> (r: User)
        ensures
            r.id == id,
            r.name@ == name@,
            r.email@ == email@,
    {
        let name = name.to_owned();
        let email = email.to_owned();
        User { id, name, email }
    }
}

impl PartialEqSpecImpl for User {
    open spec fn obeys_eq_spec() -> bool {
        true
    }

    open spec fn eq_spec(&self, other: &User) -> bool {
        self.id == other.id
    }
}

impl PartialEq for User {
    fn eq(&self, other: &User) -> (r: bool) {
        self.id == other.id
    }
}

impl PartialEqSpecImpl<u64> for User {
    open spec fn obeys_eq_spec() -> bool {
        true
    }

    open spec fn eq_spec(&self, other: &u64) -> bool {
        self.id == *other
    }
}

impl PartialEq<u64> for User {
    fn eq(&self, other: &u64) -> (r: bool) {
        self.id == *other
    }
}

/// A product's number.
#[derive(Debug, Clone, PartialEq, Eq)]
pub struct ProductId(pub u64);

/// A version, ordered by major, then minor, then patch.
#[derive(Debug, Clone, PartialEq, Eq, PartialOrd, Ord)]
pub struct Version {
    pub major: u32,
    pub minor: u32,
    pub patch: u32,
}

impl Version {
    pub fn new(major: u32, minor: u32, patch: u32) -> (r: Version)
        ensures
            r.major == major,
            r.minor == minor,
            r.patch == patch,
    {
        Version { major, minor, patch }
    }

    /// `self` comes before `other`: by major, then minor, then patch.
    pub open spec fn precedes(&self, other: &Version) -> bool {
        self.major < other.major || (self.major == other.major && (self.minor < other.minor || (
        self.minor == other.minor && self.patch < other.patch)))
    }

    /// Whether `self` is the older version.
    pub fn is_older_than(&self, other: &Version) -> (r: bool)
        ensures
            r == self.precedes(other),
    {
        if self.major != other.major {
            self.major < other.major
        } else if self.minor != other.minor {
            self.minor < other.minor
        } else {
            self.patch < other.patch
        }
    }
}

/// A score, ordered by its number.
#[derive(Debug, Clone, PartialEq, Eq, Ord)]
pub struct Score(pub u32);

impl Score {
    pub fn new(value: u32) -> (r: Score)
        ensures
            r.0 == value,
    {
        Score(value)
    }
}

impl PartialOrdSpecImpl for Score {
    open spec fn obeys_partial_cmp_spec() -> bool {
        true
    }

    open spec fn partial_cmp_spec(&self, other: &Score) -> Option<Ordering> {
        if self.0 < other.0 {
            Some(Ordering::Less)
        } else if self.0 == other.0 {
            Some(Ordering::Equal)
        } else {
            Some(Ordering::Greater)
        }
    }
}

impl PartialOrd for Score {
    fn partial_cmp(&self, other: &Score) -> (r: Option<Ordering>) {
        if self.0 < other.0 {
            Some(Ordering::Less)
        } else if self.0 == other.0 {
            Some(Ordering::Equal)
        } else {
            Some(Ordering::Greater)
        }
    }
}

/// A key into a cache: a namespace and a number.
#[derive(Debug, Clone, PartialEq, Eq, Hash)]
pub struct CacheKey {
    pub namespace: String,
    pub id: u64,
}

impl CacheKey {
    pub fn new(ns: &str, id: u64) -> (r: CacheKey)
        ensures
            r.namespace@ == ns@,
            r.id == id,
    {
        let namespace = ns.to_owned();
        CacheKey { namespace, id }
    }
}

/// A session; its id alone decides equality and hash.
#[derive(Debug, Clone)]
pub struct Session {
    pub id: String,
    pub user_agent: String,
    pub created_at: u64,
}

impl Session {
    pub fn new(id: &str, user_agent: &str, created_at: u64) -> (r: Session)
        ensures
            r.id@ == id@,
            r.user_agent@ == user_agent@,
            r.created_at == created_at,
    {
        let id = id.to_owned();
        let user_agent = user_agent.to_owned();
        Session { id, user_agent, created_at }
    }
}

impl PartialEqSpecImpl for Session {
    open spec fn obeys_eq_spec() -> bool {
        true
    }

    open spec fn eq_spec(&self, other: &Session) -> bool {
        self.id@ == other.id@
    }
}

impl PartialEq for Session {
    fn eq(&self, other: &Session) -> (r: bool) {
        self.id == other.id
    }
}

impl Eq for Session {
}

impl Hash for Session {
    /// Calls `String::hash` on the id, so that equal sessions hash alike.
    #[verifier::external_body]
    fn hash<H: Hasher>(&self, state: &mut H) {
        self.id.hash(state);
    }
}

} // verus!
