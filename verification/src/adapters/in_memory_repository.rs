//! A record store held in memory.

use crate::domain::short_code::ShortCode;
use crate::domain::shortened_url::{ShortenedUrl, ShortenedUrlView};
use crate::error::UrlShortenerError;
use crate::ports::repository::{listing_view, Records, UrlRepository};
use crate::text::same_text;
use vstd::hash_map::StringHashMap;
use vstd::prelude::*;

verus! {

/// The short codes in `codes`, as mathematical values.
pub open spec fn code_views(codes: Seq<String>) -> Seq<Seq<char>> {
    Seq::new(codes.len(), |i: int| codes[i]@)
}

/// A store that keeps its records in a hash map, keyed by the text of the
/// short code, and the codes themselves in the order in which they came.
///
/// The hash map answers for one code at a time and offers no way to walk
/// through its entries that the verifier can follow, so the list of codes is
/// what a listing goes by. Saving, finding and updating take a look-up in
/// the map; deleting also searches the list.
pub struct InMemoryUrlRepository {
    storage: StringHashMap<ShortenedUrl>,
    codes: Vec<String>,
}

impl InMemoryUrlRepository {
    /// Create an empty store.
    pub fn new() -> (repository: Self)
        ensures
            repository.wf(),
            repository.records() == Map::<Seq<char>, ShortenedUrlView>::empty(),
    {
        let repository = InMemoryUrlRepository { storage: StringHashMap::new(), codes: Vec::new() };
        assert(repository.records() =~= Map::<Seq<char>, ShortenedUrlView>::empty());
        repository
    }

    /// The number of records in the store.
    pub fn len(&self) -> (n: usize)
        requires
            self.wf(),
        ensures
            n == self.records().len(),
    {
        proof {
            self.lemma_codes_count();
        }
        self.codes.len()
    }

    /// Whether the store holds no record.
    pub fn is_empty(&self) -> (empty: bool)
        requires
            self.wf(),
        ensures
            empty == (self.records().len() == 0),
            empty == (self.records() == Map::<Seq<char>, ShortenedUrlView>::empty()),
    {
        proof {
            self.lemma_codes_count();
            if self.codes@.len() == 0 {
                assert(self.records() =~= Map::<Seq<char>, ShortenedUrlView>::empty());
            }
        }
        self.codes.len() == 0
    }

    /// The codes of a well-formed store are the keys of its records, each
    /// once, so there are as many of the one as of the other.
    proof fn lemma_codes_count(&self)
        requires
            self.wf(),
        ensures
            self.records().dom().finite(),
            self.records().len() == self.codes@.len(),
    {
        let views = code_views(self.codes@);
        assert(views.no_duplicates());
        views.unique_seq_to_set();
        assert(views.to_set() =~= self.records().dom()) by {
            assert forall|code: Seq<char>| views.to_set().contains(code) implies self.records().dom().contains(
                code,
            ) by {
                let i = choose|i: int| 0 <= i < views.len() && views[i] == code;
                assert(self.storage@.contains_key(self.codes@[i]@));
            }
            assert forall|code: Seq<char>| self.records().dom().contains(code) implies views.to_set().contains(
                code,
            ) by {
                let i = choose|i: int| 0 <= i < self.codes@.len() && self.codes@[i]@ == code;
                assert(views[i] == code);
            }
        }
        vstd::seq_lib::seq_to_set_is_finite(views);
    }

    /// The position of `code` among the codes of the store.
    fn position(&self, code: &str) -> (at: usize)
        requires
            self.wf(),
            self.records().contains_key(code@),
        ensures
            at < self.codes@.len(),
            self.codes@[at as int]@ == code@,
    {
        let mut i: usize = 0;
        while i < self.codes.len()
            invariant
                self.wf(),
                self.records().contains_key(code@),
                i <= self.codes@.len(),
                forall|j: int| 0 <= j < i ==> self.codes@[j]@ != code@,
            decreases self.codes@.len() - i,
        {
            if same_text(self.codes[i].as_str(), code) {
                return i;
            }
            i += 1;
        }
        proof {
            // The code is a key of the records, so it is among the codes,
            // and the search cannot have passed it by.
            let j = choose|j: int| 0 <= j < self.codes@.len() && self.codes@[j]@ == code@;
            assert(false);
        }
        i
    }
}

impl UrlRepository for InMemoryUrlRepository {
    closed spec fn records(&self) -> Records {
        self.storage@.map_values(|url: ShortenedUrl| url@)
    }

    closed spec fn wf(&self) -> bool {
        &&& forall|code: Seq<char>| #[trigger]
            self.storage@.contains_key(code) ==> self.storage@[code]@.short_code == code
        &&& forall|i: int|
            0 <= i < self.codes@.len() ==> self.storage@.contains_key(#[trigger] self.codes@[i]@)
        &&& forall|i: int, j: int|
            0 <= i < j < self.codes@.len() ==> #[trigger] self.codes@[i]@
                != #[trigger] self.codes@[j]@
        &&& forall|code: Seq<char>| #[trigger]
            self.storage@.contains_key(code) ==> exists|i: int|
                0 <= i < self.codes@.len() && #[trigger] self.codes@[i]@ == code
    }

    open spec fn infallible() -> bool {
        true
    }

    proof fn lemma_records_consistent(&self) {
        self.lemma_codes_count();
    }

    fn save(&mut self, url: ShortenedUrl) -> (r: Result<(), UrlShortenerError>)
        ensures
            r is Ok <==> !old(self).records().contains_key(url@.short_code),
    {
        let key = url.short_code().to_string();
        if self.storage.contains_key(key.as_str()) {
            return Err(UrlShortenerError::ShortCodeAlreadyExists(key));
        }
        let ghost before = *self;
        self.codes.push(key.clone());
        self.storage.insert(key, url);
        proof {
            let code = url@.short_code;
            assert(self.records() =~= before.records().insert(code, url@));
            assert forall|i: int| 0 <= i < self.codes@.len() implies self.storage@.contains_key(
                #[trigger] self.codes@[i]@,
            ) by {
                if i < before.codes@.len() {
                    assert(self.codes@[i] == before.codes@[i]);
                }
            }
            assert forall|i: int, j: int| 0 <= i < j < self.codes@.len() implies #[trigger] self.codes@[i]@
                != #[trigger] self.codes@[j]@ by {
                assert(self.codes@[i] == before.codes@[i]);
                if j < before.codes@.len() {
                    assert(self.codes@[j] == before.codes@[j]);
                } else {
                    assert(before.storage@.contains_key(before.codes@[i]@));
                }
            }
            assert forall|c: Seq<char>| #[trigger] self.storage@.contains_key(c) implies exists|i: int|
                0 <= i < self.codes@.len() && #[trigger] self.codes@[i]@ == c by {
                if c == code {
                    assert(self.codes@[before.codes@.len() as int]@ == c);
                } else {
                    assert(before.storage@.contains_key(c));
                    let i = choose|i: int| 0 <= i < before.codes@.len() && before.codes@[i]@ == c;
                    assert(self.codes@[i]@ == c);
                }
            }
        }
        Ok(())
    }

    fn find_by_short_code(&self, code: &ShortCode) -> (r: Result<ShortenedUrl, UrlShortenerError>)
        ensures
            r is Ok <==> self.records().contains_key(code@),
    {
        match self.storage.get(code.as_str()) {
            Some(url) => Ok(url.clone()),
            None => Err(UrlShortenerError::ShortCodeNotFound(code.to_string())),
        }
    }

    fn update(&mut self, url: ShortenedUrl) -> (r: Result<(), UrlShortenerError>)
        ensures
            r is Ok <==> old(self).records().contains_key(url@.short_code),
    {
        let key = url.short_code().to_string();
        if !self.storage.contains_key(key.as_str()) {
            return Err(UrlShortenerError::ShortCodeNotFound(key));
        }
        let ghost before = *self;
        self.storage.insert(key, url);
        proof {
            let code = url@.short_code;
            assert(self.records() =~= before.records().insert(code, url@));
            assert forall|c: Seq<char>| #[trigger] self.storage@.contains_key(c) implies exists|i: int|
                0 <= i < self.codes@.len() && #[trigger] self.codes@[i]@ == c by {
                assert(before.storage@.contains_key(c));
                let i = choose|i: int| 0 <= i < before.codes@.len() && before.codes@[i]@ == c;
                assert(self.codes@[i]@ == c);
            }
        }
        Ok(())
    }

    fn contains(&self, code: &ShortCode) -> (r: Result<bool, UrlShortenerError>)
        ensures
            r is Ok,
    {
        Ok(self.storage.contains_key(code.as_str()))
    }

    fn delete(&mut self, code: &ShortCode) -> (r: Result<(), UrlShortenerError>)
        ensures
            r is Ok <==> old(self).records().contains_key(code@),
    {
        let key = code.as_str();
        if !self.storage.contains_key(key) {
            return Err(UrlShortenerError::ShortCodeNotFound(code.to_string()));
        }
        let at = self.position(key);
        let ghost before = *self;
        self.codes.remove(at);
        self.storage.remove(key);
        proof {
            assert(self.records() =~= before.records().remove(code@));
            assert forall|i: int| 0 <= i < self.codes@.len() implies self.storage@.contains_key(
                #[trigger] self.codes@[i]@,
            ) by {
                if i < at {
                    assert(self.codes@[i] == before.codes@[i]);
                } else {
                    assert(self.codes@[i] == before.codes@[i + 1]);
                }
            }
            assert forall|i: int, j: int| 0 <= i < j < self.codes@.len() implies #[trigger] self.codes@[i]@
                != #[trigger] self.codes@[j]@ by {
                let from_i = if i < at { i } else { i + 1 };
                let from_j = if j < at { j } else { j + 1 };
                assert(self.codes@[i] == before.codes@[from_i]);
                assert(self.codes@[j] == before.codes@[from_j]);
            }
            assert forall|c: Seq<char>| #[trigger] self.storage@.contains_key(c) implies exists|i: int|
                0 <= i < self.codes@.len() && #[trigger] self.codes@[i]@ == c by {
                assert(before.storage@.contains_key(c));
                let i = choose|i: int| 0 <= i < before.codes@.len() && before.codes@[i]@ == c;
                if i < at {
                    assert(self.codes@[i]@ == c);
                } else {
                    assert(self.codes@[i - 1]@ == c);
                }
            }
        }
        Ok(())
    }

    fn list_all(&self) -> (r: Result<Vec<ShortenedUrl>, UrlShortenerError>)
        ensures
            r is Ok,
    {
        let mut list: Vec<ShortenedUrl> = Vec::new();
        let mut i: usize = 0;
        while i < self.codes.len()
            invariant
                self.wf(),
                i <= self.codes@.len(),
                list@.len() == i,
                forall|j: int|
                    0 <= j < i ==> (#[trigger] list@[j])@ == self.storage@[self.codes@[j]@]@,
            decreases self.codes@.len() - i,
        {
            match self.storage.get(self.codes[i].as_str()) {
                Some(url) => {
                    list.push(url.clone());
                },
                None => {
                    // Every code in the list is a key of the records.
                    assert(false);
                },
            }
            i += 1;
        }
        proof {
            self.lemma_codes_count();
            let listing = listing_view(list@);
            let records = self.records();
            assert forall|j: int| 0 <= j < listing.len() implies records.contains_key(
                #[trigger] listing[j].short_code,
            ) && records[listing[j].short_code] == listing[j] by {
                assert(list@[j]@ == self.storage@[self.codes@[j]@]@);
                assert(self.storage@.contains_key(self.codes@[j]@));
            }
            assert forall|j: int, k: int| 0 <= j < k < listing.len() implies #[trigger] listing[j].short_code
                != #[trigger] listing[k].short_code by {
                assert(list@[j]@ == self.storage@[self.codes@[j]@]@);
                assert(list@[k]@ == self.storage@[self.codes@[k]@]@);
                assert(self.storage@.contains_key(self.codes@[j]@));
                assert(self.storage@.contains_key(self.codes@[k]@));
            }
            assert forall|code: Seq<char>| #[trigger] records.contains_key(code) implies exists|j: int|
                0 <= j < listing.len() && #[trigger] listing[j].short_code == code by {
                assert(self.storage@.contains_key(code));
                let j = choose|j: int| 0 <= j < self.codes@.len() && self.codes@[j]@ == code;
                assert(list@[j]@ == self.storage@[self.codes@[j]@]@);
                assert(listing[j].short_code == code);
            }
        }
        Ok(list)
    }
}

impl Default for InMemoryUrlRepository {
    fn default() -> (repository: Self)
        ensures
            repository.wf(),
            repository.records() == Map::<Seq<char>, ShortenedUrlView>::empty(),
    {
        Self::new()
    }
}

} // verus!
