//! Byte buffers, checksums, and two questions about texts.

use vstd::prelude::*;

verus! {

/// The number of words that `str::split_whitespace` finds in a text.
pub uninterp spec fn word_count(s: Seq<char>) -> nat;

/// The extension that `Path::extension` finds in a path, `None` where
/// it finds none.
pub uninterp spec fn path_extension(path: Seq<char>) -> Option<Seq<char>>;

/// Calls `str::split_whitespace` and counts the pieces.
#[verifier::external_body]
fn split_whitespace_count(text: &str) -> (r: usize)
    ensures
        r == word_count(text@),
{
    text.split_whitespace().count()
}

/// Calls `Path::extension` on the path and hands the extension out as
/// text.
#[verifier::external_body]
fn extension_of(path: &str) -> (r: Option<&str>)
    ensures
        r is Some <==> path_extension(path@) is Some,
        r is Some ==> r.unwrap()@ == path_extension(path@).unwrap(),
{
    match std::path::Path::new(path).extension() {
        Some(e) => e.to_str(),
        None => None,
    }
}

/// How many words, separated by white space, a text has.
pub fn count_words(text: &str) -> (r: usize)
    ensures
        r == word_count(text@),
{
    split_whitespace_count(text)
}

/// Whether the extension found in a path is `ext`.
pub open spec fn extension_matches(found: Option<Seq<char>>, ext: Seq<char>) -> bool {
    match found {
        Some(e) => e == ext,
        None => false,
    }
}

/// Whether `found`, the extension of some path, is `ext`.
pub fn extension_is(found: Option<&str>, ext: &str) -> (r: bool)
    ensures
        r == match found {
            Some(e) => e@ == ext@,
            None => false,
        },
{
    match found {
        Some(e) => {
            let left = e.to_owned();
            let right = ext.to_owned();
            left == right
        },
        None => false,
    }
}

/// Whether the path has the extension `ext`.
pub fn has_extension(path: &str, ext: &str) -> (r: bool)
    ensures
        r == extension_matches(path_extension(path@), ext@),
{
    extension_is(extension_of(path), ext)
}

/// The bytes of `s` up to `n`, added up.
pub open spec fn byte_sum(s: Seq<u8>, n: nat) -> nat
    decreases n,
{
    if n == 0 || n > s.len() {
        0
    } else {
        byte_sum(s, (n - 1) as nat) + s[n - 1] as nat
    }
}

/// A sum of `n` bytes is at most `n` times 255.
pub proof fn byte_sum_bound(s: Seq<u8>, n: nat)
    requires
        n <= s.len(),
    ensures
        byte_sum(s, n) <= 255 * n,
    decreases n,
{
    if n > 0 {
        byte_sum_bound(s, (n - 1) as nat);
    }
}

/// A sum never shrinks as more bytes are added.
pub proof fn byte_sum_grows(s: Seq<u8>, m: nat, n: nat)
    requires
        m <= n <= s.len(),
    ensures
        byte_sum(s, m) <= byte_sum(s, n),
    decreases n,
{
    if m < n {
        byte_sum_grows(s, m, (n - 1) as nat);
    }
}

/// The sum of all bytes of `data`; it must fit in 32 bits.
pub fn checksum(data: &[u8]) -> (r: u32)
    requires
        byte_sum(data@, data@.len()) <= u32::MAX,
    ensures
        r == byte_sum(data@, data@.len()),
{
    let mut total: u32 = 0;
    let mut i: usize = 0;
    while i < data.len()
        invariant
            i <= data@.len(),
            total == byte_sum(data@, i as nat),
            byte_sum(data@, data@.len()) <= u32::MAX,
        decreases data@.len() - i,
    {
        proof {
            byte_sum_grows(data@, (i + 1) as nat, data@.len());
        }
        total = total + data[i] as u32;
        i += 1;
    }
    total
}

/// Sets every byte of `data` to zero.
pub fn zero_out(data: &mut Vec<u8>)
    ensures
        final(data)@.len() == old(data)@.len(),
        forall|i: int| 0 <= i < final(data)@.len() ==> final(data)@[i] == 0,
{
    let n = data.len();
    let mut i: usize = 0;
    while i < n
        invariant
            i <= n,
            data@.len() == n,
            forall|j: int| 0 <= j < i ==> data@[j] == 0,
        decreases n - i,
    {
        data[i] = 0;
        i += 1;
    }
}

/// An owned run of bytes.
#[derive(Debug, Clone)]
pub struct ByteBuffer {
    data: Vec<u8>,
}

impl ByteBuffer {
    pub closed spec fn view(&self) -> Seq<u8> {
        self.data@
    }

    pub fn new(data: Vec<u8>) -> (r: ByteBuffer)
        ensures
            r@ == data@,
    {
        ByteBuffer { data }
    }

    /// The bytes of a text in UTF-8.
    pub fn new_from_str(s: &str) -> (r: ByteBuffer)
        ensures
            r@ == vstd::utf8::encode_utf8(s@),
    {
        let data = vstd::slice::slice_to_vec(s.as_bytes());
        ByteBuffer { data }
    }

    pub fn len(&self) -> (r: usize)
        ensures
            r == self@.len(),
    {
        self.data.len()
    }

    pub fn is_empty(&self) -> (r: bool)
        ensures
            r == (self@.len() == 0),
    {
        self.data.len() == 0
    }

    /// The bytes, borrowed.
    pub fn as_bytes(&self) -> (r: &[u8])
        ensures
            r@ == self@,
    {
        self.data.as_slice()
    }

    /// The bytes, borrowed for writing.
    pub fn as_mut_vec(&mut self) -> (r: &mut Vec<u8>)
        ensures
            r@ == old(self)@,
            final(self)@ == final(r)@,
    {
        &mut self.data
    }
}

} // verus!
