//! Lead ingestion: batching uploaded addresses into bounded chunks.
//!
//! An uploaded file is read row by row outside the library; each address
//! is normalized and collected here, and a full chunk is handed back for
//! one batched store write.

use vstd::prelude::*;
use vstd::string::*;

verus! {

/// What trimming leading and trailing whitespace from a text yields; a
/// function of the text alone.
pub uninterp spec fn trim_of(s: Seq<char>) -> Seq<char>;

/// Relies on str::trim: removes leading and trailing whitespace, nothing
/// else, depending on the text alone.
#[verifier::external_body]
fn trim_str(s: &str) -> (r: &str)
    ensures
        r@ == trim_of(s@),
{
    s.trim()
}

/// An email address as uploaded, with surrounding whitespace removed.
pub struct Email(pub String);

impl Email {
    /// Normalize one uploaded field into an address.
    pub fn from(s: &str) -> (r: Email)
        ensures
            r.0@ == trim_of(s@),
    {
        Email(String::from_str(trim_str(s)))
    }
}

/// A bounded batch of addresses awaiting one store write.
pub struct Chunk {
    pub emails: Vec<Email>,
    pub size: usize,
}

impl Chunk {
    /// An empty chunk that is considered full at `size` addresses.
    pub fn new(size: usize) -> (r: Chunk)
        ensures
            r.emails@.len() == 0,
            r.size == size,
    {
        Chunk { emails: Vec::with_capacity(size), size }
    }

    /// Drop the collected addresses; the bound is kept.
    pub fn clear(&mut self)
        ensures
            final(self).emails@.len() == 0,
            final(self).size == old(self).size,
    {
        self.emails.clear();
    }

    /// Collect one more address.
    pub fn push(&mut self, email: Email)
        ensures
            final(self).emails@ == old(self).emails@.push(email),
            final(self).size == old(self).size,
    {
        self.emails.push(email);
    }

    /// The chunk has reached its bound and should be written out.
    pub fn is_full(&self) -> (b: bool)
        ensures
            b == (self.emails@.len() == self.size),
    {
        self.emails.len() == self.size
    }

    /// Nothing is waiting to be written.
    pub fn is_empty(&self) -> (b: bool)
        ensures
            b == (self.emails@.len() == 0),
    {
        self.emails.len() == 0
    }
}

} // verus!
