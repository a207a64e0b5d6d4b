//! The URL shortening service: it draws codes from a generator, keeps the
//! records in a store, and counts the accesses.

use crate::domain::original_url::{OriginalUrl, UrlPartsView};
use crate::domain::short_code::{is_valid_short_code, ShortCode};
use crate::domain::shortened_url::{lemma_accesses_saturate, ShortenedUrl, ShortenedUrlView};
use crate::error::{ErrorView, UrlShortenerError};
use crate::ports::id_generator::IdGenerator;
use crate::ports::repository::{
    consistent, deleted, found, listing_view, lists, saved, Records, UrlRepository,
};
use vstd::prelude::*;

verus! {

/// What resolving `code` does to `records`, and what it returns: the record
/// under the code is accessed once more and its original URL is handed out,
/// or the request is refused where there is no such record.
pub open spec fn resolved(records: Records, code: Seq<char>) -> Result<
    (Records, UrlPartsView),
    ErrorView,
> {
    if records.contains_key(code) {
        Ok((records.insert(code, records[code].accessed()), records[code].original_url))
    } else {
        Err(ErrorView::ShortCodeNotFound(code))
    }
}

/// The records after `code` has been resolved `n` times in `records`.
pub open spec fn resolved_times(records: Records, code: Seq<char>, n: nat) -> Records
    decreases n,
{
    if n == 0 {
        records
    } else {
        let before = resolved_times(records, code, (n - 1) as nat);
        match resolved(before, code) {
            Ok((after, _)) => after,
            Err(_) => before,
        }
    }
}

/// Every resolution is counted: after `n` of them the record under the code
/// has been accessed `n` more times, which a look at its statistics shows,
/// and no other record has changed.
pub proof fn lemma_resolutions_are_counted(records: Records, code: Seq<char>, n: nat)
    requires
        records.contains_key(code),
    ensures
        resolved_times(records, code, n) == records.insert(code, records[code].accessed_times(n)),
        found(resolved_times(records, code, n), code) == Ok::<ShortenedUrlView, ErrorView>(
            records[code].accessed_times(n),
        ),
    decreases n,
{
    if n == 0 {
        assert(records.insert(code, records[code]) =~= records);
    } else {
        lemma_resolutions_are_counted(records, code, (n - 1) as nat);
        let before = resolved_times(records, code, (n - 1) as nat);
        assert(before.insert(code, before[code].accessed()) =~= records.insert(
            code,
            records[code].accessed_times(n),
        ));
    }
}

/// A record that has just been saved shows no access; after one resolution
/// it shows one, and after a second it shows two.
pub proof fn lemma_fresh_record_counts_from_zero(records: Records, record: ShortenedUrlView)
    requires
        record.access_count == 0,
        !records.contains_key(record.short_code),
    ensures
        ({
            let code = record.short_code;
            let stored = saved(records, record)->Ok_0;
            &&& saved(records, record) is Ok
            &&& found(stored, code)->Ok_0.access_count == 0
            &&& found(resolved_times(stored, code, 1), code)->Ok_0.access_count == 1
            &&& found(resolved_times(stored, code, 2), code)->Ok_0.access_count == 2
        }),
{
    let code = record.short_code;
    let stored = saved(records, record)->Ok_0;
    lemma_resolutions_are_counted(stored, code, 1);
    lemma_resolutions_are_counted(stored, code, 2);
    lemma_accesses_saturate(record, 1);
    lemma_accesses_saturate(record, 2);
}

/// A record that is saved is there, and once it is deleted it is gone: the
/// records are what they were before it came, and its code resolves no more.
pub proof fn lemma_deleted_code_is_forgotten(records: Records, record: ShortenedUrlView)
    requires
        !records.contains_key(record.short_code),
    ensures
        ({
            let code = record.short_code;
            let stored = saved(records, record)->Ok_0;
            &&& saved(records, record) is Ok
            &&& stored.contains_key(code)
            &&& deleted(stored, code) == Ok::<Records, ErrorView>(records)
            &&& !records.contains_key(code)
            &&& resolved(records, code) == Err::<(Records, UrlPartsView), ErrorView>(
                ErrorView::ShortCodeNotFound(code),
            )
        }),
{
    let code = record.short_code;
    assert(records.insert(code, record).remove(code) =~= records);
}

/// Whether `records` hold a code of `length` characters. Where they hold
/// none, as in an empty store, every candidate of that length is free.
pub open spec fn holds_code_of_length(records: Records, length: nat) -> bool {
    exists|code: Seq<char>| #[trigger] records.contains_key(code) && code.len() == length
}

/// What the search for a free code does once a candidate has been looked up.
#[derive(Debug, PartialEq, Eq)]
pub enum SearchStep {
    /// The candidate is free, and the search ends with it.
    Found(ShortCode),
    /// The candidate is taken, and another one is drawn.
    TryAgain,
    /// The search ends without a code, with this error.
    GiveUp(UrlShortenerError),
}

/// The service that shortens URLs and resolves short codes, over a store `R`
/// and a generator `G`.
pub struct UrlShortenerService<R: UrlRepository, G: IdGenerator> {
    repository: R,
    id_generator: G,
}

impl<R: UrlRepository, G: IdGenerator> UrlShortenerService<R, G> {
    /// How many candidate codes are tried for one URL before giving up.
    pub const MAX_GENERATION_ATTEMPTS: usize = 10;

    /// The records that the service holds in its store.
    pub closed spec fn records(&self) -> Records {
        self.repository.records()
    }

    /// Whether the store of the service is well-formed.
    pub closed spec fn wf(&self) -> bool {
        self.repository.wf()
    }

    /// The generator that the service draws from.
    pub closed spec fn generator(&self) -> G {
        self.id_generator
    }

    /// Whether neither the generator nor the store of the service ever
    /// fails, so that a request can fail only for the state of the records.
    pub open spec fn dependable() -> bool {
        G::infallible() && R::infallible()
    }

    /// The records of a well-formed service are consistent.
    pub proof fn lemma_records_consistent(&self)
        requires
            self.wf(),
        ensures
            consistent(self.records()),
    {
        self.repository.lemma_records_consistent();
    }

    /// Create a service over `repository` and `id_generator`.
    pub fn new(repository: R, id_generator: G) -> (service: Self)
        requires
            repository.wf(),
        ensures
            service.wf(),
            service.records() == repository.records(),
            service.generator() == id_generator,
    {
        UrlShortenerService { repository, id_generator }
    }

    /// Get the store of the service, to ask it beside the service.
    pub fn repository(&self) -> (repository: &R)
        ensures
            repository.records() == self.records(),
            repository.wf() == self.wf(),
    {
        &self.repository
    }

    /// Get the generator of the service.
    pub fn id_generator(&self) -> (id_generator: &G)
        ensures
            *id_generator == self.generator(),
    {
        &self.id_generator
    }

    /// Shorten `original_url` under a code that the generator draws.
    ///
    /// On success the new record is the one returned: it is stored under its
    /// code, which was free and has the length of the generator's codes, it
    /// holds `original_url`, and it has never been accessed. On failure the
    /// records are as they were.
    ///
    /// The code is searched for as [`Self::generate_unique_short_code`]
    /// says. Over a generator and a store that never fail, the only failure
    /// is `IdGenerationFailed` with [`Self::MAX_GENERATION_ATTEMPTS`], after
    /// that many taken candidates; and where the records hold no code of the
    /// generator's length, as in an empty store, the request succeeds.
    pub fn shorten_url(&mut self, original_url: OriginalUrl) -> (r: Result<
        ShortenedUrl,
        UrlShortenerError,
    >)
        requires
            old(self).wf(),
        ensures
            final(self).wf(),
            final(self).generator() == old(self).generator(),
            match r {
                Ok(url) => {
                    &&& url@.original_url == original_url@
                    &&& url@.access_count == 0
                    &&& is_valid_short_code(url@.short_code)
                    &&& url@.short_code.len() == old(self).generator().code_length()
                    &&& saved(old(self).records(), url@) == Ok::<Records, ErrorView>(
                        final(self).records(),
                    )
                },
                Err(e) => {
                    &&& final(self).records() == old(self).records()
                    &&& {
                        ||| e@ == ErrorView::IdGenerationFailed(
                            Self::MAX_GENERATION_ATTEMPTS as nat,
                        )
                        ||| !G::infallible() && e@ is IdGenerationFailed
                        ||| !R::infallible() && e@ is RepositoryError
                    }
                },
            },
            Self::dependable() && !holds_code_of_length(
                old(self).records(),
                old(self).generator().code_length(),
            ) ==> r is Ok,
    {
        let short_code = match self.generate_unique_short_code() {
            Ok(short_code) => short_code,
            Err(e) => {
                return Err(e);
            },
        };
        let id = self.id_generator.generate_id();
        let shortened_url = ShortenedUrl::new(id, short_code, original_url);
        match self.repository.save(shortened_url.clone()) {
            Ok(()) => Ok(shortened_url),
            Err(e) => Err(e),
        }
    }

    /// Shorten `original_url` under the code `short_code`.
    ///
    /// Where the code is free, the new record is stored and returned: it
    /// holds `short_code` and `original_url` and has never been accessed.
    /// Where the code is taken, the request is refused with
    /// `ShortCodeAlreadyExists`, and the records are as they were. Over a
    /// store that never fails, success comes exactly where the code is free.
    pub fn shorten_url_with_code(
        &mut self,
        original_url: OriginalUrl,
        short_code: ShortCode,
    ) -> (r: Result<ShortenedUrl, UrlShortenerError>)
        requires
            old(self).wf(),
        ensures
            final(self).wf(),
            final(self).generator() == old(self).generator(),
            match r {
                Ok(url) => {
                    &&& url@.short_code == short_code@
                    &&& url@.original_url == original_url@
                    &&& url@.access_count == 0
                    &&& saved(old(self).records(), url@) == Ok::<Records, ErrorView>(
                        final(self).records(),
                    )
                },
                Err(e) => {
                    &&& final(self).records() == old(self).records()
                    &&& (old(self).records().contains_key(short_code@) && e@
                        == ErrorView::ShortCodeAlreadyExists(short_code@)) || (!R::infallible()
                        && e@ is RepositoryError)
                },
            },
            R::infallible() ==> (r is Ok <==> !old(self).records().contains_key(short_code@)),
    {
        match self.repository.contains(&short_code) {
            Ok(taken) => {
                if taken {
                    return Err(UrlShortenerError::ShortCodeAlreadyExists(short_code.to_string()));
                }
            },
            Err(e) => {
                return Err(e);
            },
        }
        let id = self.id_generator.generate_id();
        let shortened_url = ShortenedUrl::new(id, short_code, original_url);
        match self.repository.save(shortened_url.clone()) {
            Ok(()) => Ok(shortened_url),
            Err(e) => Err(e),
        }
    }

    /// Resolve `short_code` to its original URL, and count the access.
    ///
    /// The outcome is that of [`resolved`]: the counter of the record goes up
    /// by one, without ever wrapping round, and nothing else changes. Where
    /// there is no record under the code, the request is refused with
    /// `ShortCodeNotFound`, and the records are as they were.
    pub fn resolve_short_code(&mut self, short_code: &ShortCode) -> (r: Result<
        OriginalUrl,
        UrlShortenerError,
    >)
        requires
            old(self).wf(),
        ensures
            final(self).wf(),
            final(self).generator() == old(self).generator(),
            R::infallible() ==> (r is Ok <==> old(self).records().contains_key(short_code@)),
            match r {
                Ok(url) => resolved(old(self).records(), short_code@) == Ok::<
                    (Records, UrlPartsView),
                    ErrorView,
                >((final(self).records(), url@)),
                Err(e) => {
                    &&& final(self).records() == old(self).records()
                    &&& resolved(old(self).records(), short_code@) == Err::<
                        (Records, UrlPartsView),
                        ErrorView,
                    >(e@) || (!R::infallible() && e@ is RepositoryError)
                },
            },
    {
        proof {
            self.repository.lemma_records_consistent();
        }
        let mut shortened_url = match self.repository.find_by_short_code(short_code) {
            Ok(shortened_url) => shortened_url,
            Err(e) => {
                return Err(e);
            },
        };
        shortened_url.record_access();
        match self.repository.update(shortened_url.clone()) {
            Ok(()) => Ok(shortened_url.original_url().clone()),
            Err(e) => Err(e),
        }
    }

    /// Get the record stored under `short_code`, without counting an access.
    pub fn get_statistics(&self, short_code: &ShortCode) -> (r: Result<
        ShortenedUrl,
        UrlShortenerError,
    >)
        requires
            self.wf(),
        ensures
            R::infallible() ==> (r is Ok <==> self.records().contains_key(short_code@)),
            match r {
                Ok(url) => found(self.records(), short_code@) == Ok::<ShortenedUrlView, ErrorView>(
                    url@,
                ),
                Err(e) => found(self.records(), short_code@) == Err::<ShortenedUrlView, ErrorView>(
                    e@,
                ) || (!R::infallible() && e@ is RepositoryError),
            },
    {
        self.repository.find_by_short_code(short_code)
    }

    /// Delete the record stored under `short_code`.
    pub fn delete_short_code(&mut self, short_code: &ShortCode) -> (r: Result<
        (),
        UrlShortenerError,
    >)
        requires
            old(self).wf(),
        ensures
            final(self).wf(),
            final(self).generator() == old(self).generator(),
            R::infallible() ==> (r is Ok <==> old(self).records().contains_key(short_code@)),
            match r {
                Ok(()) => deleted(old(self).records(), short_code@) == Ok::<Records, ErrorView>(
                    final(self).records(),
                ),
                Err(e) => final(self).records() == old(self).records() && (deleted(
                    old(self).records(),
                    short_code@,
                ) == Err::<Records, ErrorView>(e@) || (!R::infallible()
                    && e@ is RepositoryError)),
            },
    {
        self.repository.delete(short_code)
    }

    /// List all the records, each once, in no particular order.
    pub fn list_all(&self) -> (r: Result<Vec<ShortenedUrl>, UrlShortenerError>)
        requires
            self.wf(),
        ensures
            R::infallible() ==> r is Ok,
            match r {
                Ok(list) => lists(listing_view(list@), self.records()),
                Err(e) => !R::infallible() && e@ is RepositoryError,
            },
    {
        self.repository.list_all()
    }

    /// Decide what the search does after attempt number `attempt`, counted
    /// from zero, in which `candidate` was drawn and looked up in the store
    /// with the outcome `lookup`.
    ///
    /// A free candidate is found. A taken one is passed over while attempts
    /// are left, and after the last attempt the search gives up with
    /// `IdGenerationFailed` and the number of attempts. A failed look-up
    /// ends the search with the error as it came.
    pub fn judge_candidate(
        attempt: usize,
        candidate: ShortCode,
        lookup: Result<bool, UrlShortenerError>,
    ) -> (step: SearchStep)
        requires
            attempt < Self::MAX_GENERATION_ATTEMPTS,
        ensures
            match lookup {
                Ok(false) => step matches SearchStep::Found(short_code) && short_code@
                    == candidate@,
                Ok(true) => if attempt + 1 < Self::MAX_GENERATION_ATTEMPTS {
                    step is TryAgain
                } else {
                    step matches SearchStep::GiveUp(e) && e@ == ErrorView::IdGenerationFailed(
                        Self::MAX_GENERATION_ATTEMPTS as nat,
                    )
                },
                Err(failure) => step matches SearchStep::GiveUp(e) && e@ == failure@,
            },
    {
        match lookup {
            Ok(taken) => {
                if !taken {
                    SearchStep::Found(candidate)
                } else if attempt + 1 < Self::MAX_GENERATION_ATTEMPTS {
                    SearchStep::TryAgain
                } else {
                    SearchStep::GiveUp(
                        UrlShortenerError::IdGenerationFailed(Self::MAX_GENERATION_ATTEMPTS),
                    )
                }
            },
            Err(failure) => SearchStep::GiveUp(failure),
        }
    }

    /// Draw candidate codes from the generator until one is free.
    ///
    /// Each candidate is looked up in the store and judged by
    /// [`Self::judge_candidate`]; an error of the generator ends the search
    /// as it came. A code that comes back is valid and free, and has the
    /// length of the generator's codes.
    ///
    /// Over a generator and a store that never fail, the only failure is
    /// `IdGenerationFailed` with [`Self::MAX_GENERATION_ATTEMPTS`], after
    /// that many taken candidates; and where the records hold no code of the
    /// generator's length, as in an empty store, the first candidate is free
    /// and the search succeeds.
    pub fn generate_unique_short_code(&self) -> (r: Result<ShortCode, UrlShortenerError>)
        requires
            self.wf(),
        ensures
            match r {
                Ok(short_code) => {
                    &&& !self.records().contains_key(short_code@)
                    &&& is_valid_short_code(short_code@)
                    &&& short_code@.len() == self.generator().code_length()
                },
                Err(e) => {
                    ||| e@ == ErrorView::IdGenerationFailed(Self::MAX_GENERATION_ATTEMPTS as nat)
                    ||| !G::infallible() && e@ is IdGenerationFailed
                    ||| !R::infallible() && e@ is RepositoryError
                },
            },
            Self::dependable() && !holds_code_of_length(
                self.records(),
                self.generator().code_length(),
            ) ==> r is Ok,
    {
        let mut attempt: usize = 0;
        loop
            invariant
                self.wf(),
                attempt < Self::MAX_GENERATION_ATTEMPTS,
                // Where no code of the generator's length is held, the
                // first candidate is free, and no second attempt is made.
                !holds_code_of_length(self.records(), self.generator().code_length())
                    ==> attempt == 0,
            decreases Self::MAX_GENERATION_ATTEMPTS - attempt,
        {
            let candidate = match self.id_generator.generate_short_code() {
                Ok(candidate) => candidate,
                Err(e) => {
                    return Err(e);
                },
            };
            proof {
                use_type_invariant(&candidate);
            }
            let lookup = self.repository.contains(&candidate);
            match Self::judge_candidate(attempt, candidate, lookup) {
                SearchStep::Found(short_code) => {
                    return Ok(short_code);
                },
                SearchStep::TryAgain => {
                    attempt += 1;
                },
                SearchStep::GiveUp(e) => {
                    return Err(e);
                },
            }
        }
    }
}

} // verus!
