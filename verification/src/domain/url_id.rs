//! Identifiers of records.

use vstd::prelude::*;
use vstd::std_specs::convert::FromSpecImpl;

verus! {

/// The identifier of a record: an opaque text that names one record for
/// bookkeeping. It is never the key under which a record is looked up.
#[derive(Debug, PartialEq, Eq, Hash)]
pub struct UrlId(String);

impl View for UrlId {
    type V = Seq<char>;

    closed spec fn view(&self) -> Seq<char> {
        self.0@
    }
}

impl Clone for UrlId {
    fn clone(&self) -> (copy: Self)
        ensures
            copy@ == self@,
    {
        UrlId(self.0.clone())
    }
}

impl UrlId {
    /// Create an identifier from `id`; any text is accepted.
    pub fn new(id: String) -> (url_id: Self)
        ensures
            url_id@ == id@,
    {
        UrlId(id)
    }

    /// Get the identifier as a string slice.
    pub fn as_str(&self) -> (s: &str)
        ensures
            s@ == self@,
    {
        self.0.as_str()
    }

    /// Give up the identifier for the text it holds.
    pub fn into_inner(self) -> (id: String)
        ensures
            id@ == self@,
    {
        self.0
    }

    /// The identifier as an owned text, as it is shown to a reader.
    pub fn to_string(&self) -> (text: String)
        ensures
            text@ == self@,
    {
        self.0.clone()
    }
}

impl From<String> for UrlId {
    fn from(id: String) -> (url_id: Self)
        ensures
            url_id@ == id@,
    {
        UrlId(id)
    }
}

impl FromSpecImpl<String> for UrlId {
    open spec fn obeys_from_spec() -> bool {
        true
    }

    closed spec fn from_spec(id: String) -> Self {
        UrlId(id)
    }
}

} // verus!
