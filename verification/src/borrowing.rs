//! Keys that compare by a normal form of their text.

use crate::text::lower;
use crate::text::lowercase;
use crate::text::trim;
use crate::text::trimmed;
use std::hash::Hash;
use std::hash::Hasher;
use vstd::prelude::*;
use vstd::std_specs::cmp::PartialEqSpecImpl;
use vstd::string::StringExecFns;

verus! {

/// Looks two keys up in a map keyed by owned strings, handing it borrowed
/// keys. Nothing comes of it but the lookups themselves.
pub fn lookup_demo() {
    let mut map = std::collections::HashMap::<String, i32>::new();
    map.insert("apple".to_owned(), 1);
    map.insert("banana".to_owned(), 2);
    let _ = map.get("apple");
    let _ = map.get("banana");
}

/// The characters of a text.
pub open spec fn text_of(s: &str) -> Seq<char> {
    s@
}

/// The bytes of a slice.
pub open spec fn bytes_of(s: &[u8]) -> Seq<u8> {
    s@
}

/// A key that ignores the case of its letters.
#[derive(Debug, Clone)]
pub struct CaseInsensitiveKey {
    value: String,
}

impl CaseInsensitiveKey {
    /// The text as it was given.
    pub closed spec fn view(&self) -> Seq<char> {
        self.value@
    }

    pub fn new(s: &str) -> (r: CaseInsensitiveKey)
        ensures
            r@ == s@,
    {
        let value = s.to_owned();
        CaseInsensitiveKey { value }
    }

    /// The text as it was given.
    pub fn as_str(&self) -> (r: &str)
        ensures
            r@ == self@,
    {
        self.value.as_str()
    }

    /// Whether the key is `other`, letters compared without their case.
    pub fn eq_str(&self, other: &str) -> (r: bool)
        ensures
            r == (lower(self@) == lower(other@)),
    {
        lowercase(self.value.as_str()) == lowercase(other)
    }
}

impl PartialEqSpecImpl for CaseInsensitiveKey {
    open spec fn obeys_eq_spec() -> bool {
        true
    }

    open spec fn eq_spec(&self, other: &CaseInsensitiveKey) -> bool {
        lower(self@) == lower(other@)
    }
}

impl PartialEq for CaseInsensitiveKey {
    fn eq(&self, other: &CaseInsensitiveKey) -> (r: bool) {
        lowercase(self.value.as_str()) == lowercase(other.value.as_str())
    }
}

impl Eq for CaseInsensitiveKey {
}

impl Hash for CaseInsensitiveKey {
    /// Calls `String::hash` on the lower-case text, so that equal keys
    /// hash alike.
    #[verifier::external_body]
    fn hash<H: Hasher>(&self, state: &mut H) {
        self.value.to_lowercase().hash(state);
    }
}

/// An owned run of bytes that lends itself as a slice.
pub struct Buffer {
    data: Vec<u8>,
}

impl Buffer {
    pub closed spec fn view(&self) -> Seq<u8> {
        self.data@
    }

    pub fn new(data: Vec<u8>) -> (r: Buffer)
        ensures
            r@ == data@,
    {
        Buffer { data }
    }

    /// The bytes, borrowed.
    pub fn as_slice(&self) -> (r: &[u8])
        ensures
            r@ == self@,
    {
        self.data.as_slice()
    }

    /// The bytes, borrowed for writing.
    pub fn as_mut_slice(&mut self) -> (r: &mut [u8])
        ensures
            r@ == old(self)@,
            final(self)@ == final(r)@,
    {
        self.data.as_mut_slice()
    }
}

/// A user's id as text.
#[derive(Debug, Clone, PartialEq, Eq, Hash)]
pub struct UserId(String);

impl UserId {
    pub closed spec fn view(&self) -> Seq<char> {
        self.0@
    }

    pub fn new(id: &str) -> (r: UserId)
        ensures
            r@ == id@,
    {
        UserId(id.to_owned())
    }

    /// The id, borrowed.
    pub fn as_str(&self) -> (r: &str)
        ensures
            r@ == self@,
    {
        self.0.as_str()
    }

    /// The id behind the word `USER-`.
    pub fn display(&self) -> (r: String)
        ensures
            r@ == "USER-"@ + self@,
    {
        let mut out = "USER-".to_owned();
        out.append(self.0.as_str());
        out
    }
}

/// A text kept trimmed and in lower case.
#[derive(Debug, Clone)]
pub struct NormalizedString {
    value: String,
}

impl NormalizedString {
    pub closed spec fn view(&self) -> Seq<char> {
        self.value@
    }

    pub fn new(s: &str) -> (r: NormalizedString)
        ensures
            r@ == lower(trimmed(s@)),
    {
        NormalizedString { value: lowercase(trim(s)) }
    }

    /// The normal form, borrowed.
    pub fn as_str(&self) -> (r: &str)
        ensures
            r@ == self@,
    {
        self.value.as_str()
    }

}

impl PartialEqSpecImpl for NormalizedString {
    open spec fn obeys_eq_spec() -> bool {
        true
    }

    open spec fn eq_spec(&self, other: &NormalizedString) -> bool {
        self@ == other@
    }
}

impl PartialEq for NormalizedString {
    fn eq(&self, other: &NormalizedString) -> (r: bool) {
        self.value == other.value
    }
}

impl Eq for NormalizedString {
}

impl Hash for NormalizedString {
    /// Calls `String::hash` on the normal form.
    #[verifier::external_body]
    fn hash<H: Hasher>(&self, state: &mut H) {
        self.value.hash(state);
    }
}

impl std::borrow::Borrow<str> for NormalizedString {
    /// The normal form, borrowed.
    fn borrow(&self) -> (r: &str)
        ensures
            text_of(r) == self@,
    {
        self.as_str()
    }
}

impl std::borrow::Borrow<str> for CaseInsensitiveKey {
    /// The text as it was given, borrowed.
    fn borrow(&self) -> (r: &str)
        ensures
            text_of(r) == self@,
    {
        self.as_str()
    }
}

impl AsRef<str> for UserId {
    /// The id, borrowed.
    fn as_ref(&self) -> (r: &str)
        ensures
            r@ == self@,
    {
        self.as_str()
    }
}

impl std::borrow::Borrow<[u8]> for Buffer {
    /// The bytes, borrowed.
    fn borrow(&self) -> (r: &[u8])
        ensures
            bytes_of(r) == self@,
    {
        self.as_slice()
    }
}

impl std::borrow::BorrowMut<[u8]> for Buffer {
    /// The bytes, borrowed for writing: what the borrower leaves there is
    /// what the buffer holds afterwards.
    fn borrow_mut(&mut self) -> (r: &mut [u8])
        ensures
            bytes_of(r) == old(self)@,
            bytes_of(final(r)) == final(self)@,
    {
        self.as_mut_slice()
    }
}

} // verus!
