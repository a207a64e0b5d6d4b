//! The contract of a record store.

use crate::domain::shortened_url::{ShortenedUrl, ShortenedUrlView};
use crate::domain::short_code::ShortCode;
use crate::error::{ErrorView, UrlShortenerError};
use vstd::prelude::*;

verus! {

/// The mathematical value of a store: its records, keyed by short code.
pub type Records = Map<Seq<char>, ShortenedUrlView>;

/// Whether `records` can be the contents of a store: there are finitely many
/// records, and each is kept under its own short code, so that a code has at
/// most one owner.
pub open spec fn consistent(records: Records) -> bool {
    &&& records.dom().finite()
    &&& forall|code: Seq<char>| #[trigger]
        records.contains_key(code) ==> records[code].short_code == code
}

/// What saving `record` does to `records`: the record is added under its
/// code where the code is free, and refused where the code is taken.
pub open spec fn saved(records: Records, record: ShortenedUrlView) -> Result<Records, ErrorView> {
    if records.contains_key(record.short_code) {
        Err(ErrorView::ShortCodeAlreadyExists(record.short_code))
    } else {
        Ok(records.insert(record.short_code, record))
    }
}

/// What updating with `record` does to `records`: the record replaces the
/// one under its code, and is refused where there is none.
pub open spec fn updated(records: Records, record: ShortenedUrlView) -> Result<
    Records,
    ErrorView,
> {
    if records.contains_key(record.short_code) {
        Ok(records.insert(record.short_code, record))
    } else {
        Err(ErrorView::ShortCodeNotFound(record.short_code))
    }
}

/// What deleting `code` does to `records`: the record under the code is
/// removed, and the request is refused where there is none.
pub open spec fn deleted(records: Records, code: Seq<char>) -> Result<Records, ErrorView> {
    if records.contains_key(code) {
        Ok(records.remove(code))
    } else {
        Err(ErrorView::ShortCodeNotFound(code))
    }
}

/// What looking up `code` in `records` gives: the record under the code, or
/// the report that there is none.
pub open spec fn found(records: Records, code: Seq<char>) -> Result<ShortenedUrlView, ErrorView> {
    if records.contains_key(code) {
        Ok(records[code])
    } else {
        Err(ErrorView::ShortCodeNotFound(code))
    }
}

/// No operation of a store breaks its consistency: after any of them each
/// code still has at most one owner, and that owner carries the code.
pub proof fn lemma_operations_keep_consistency(
    records: Records,
    record: ShortenedUrlView,
    code: Seq<char>,
)
    requires
        consistent(records),
    ensures
        saved(records, record) matches Ok(after) ==> consistent(after),
        updated(records, record) matches Ok(after) ==> consistent(after),
        deleted(records, code) matches Ok(after) ==> consistent(after),
{
}

/// How many records of `batch` are accepted when they are saved into
/// `records` one after another, in the order of the batch.
pub open spec fn accepted(records: Records, batch: Seq<ShortenedUrlView>) -> nat
    decreases batch.len(),
{
    if batch.len() == 0 {
        0
    } else {
        match saved(records, batch[0]) {
            Ok(after) => 1 + accepted(after, batch.drop_first()),
            Err(_) => accepted(records, batch.drop_first()),
        }
    }
}

/// A record that is saved can be saved no second time: whatever follows the
/// first success under a code is refused with `ShortCodeAlreadyExists`.
pub proof fn lemma_save_is_exclusive(
    records: Records,
    first: ShortenedUrlView,
    second: ShortenedUrlView,
)
    requires
        first.short_code == second.short_code,
    ensures
        saved(records, first) matches Ok(after) ==> saved(after, second) == Err::<
            Records,
            ErrorView,
        >(ErrorView::ShortCodeAlreadyExists(second.short_code)),
{
}

/// The records after the records of `batch` have been saved into `records`
/// one after another, in the order of the batch, those that are refused
/// leaving no trace.
pub open spec fn saved_all(records: Records, batch: Seq<ShortenedUrlView>) -> Records
    decreases batch.len(),
{
    if batch.len() == 0 {
        records
    } else {
        match saved(records, batch[0]) {
            Ok(after) => saved_all(after, batch.drop_first()),
            Err(_) => saved_all(records, batch.drop_first()),
        }
    }
}

/// Of any number of records that compete for one code, in whatever order
/// they are served, exactly one is accepted where the code was free, and
/// none where it was taken. All the others are refused. The one accepted is
/// the one served first, and it is what the store holds under the code when
/// all have been served; no other record of the store has changed.
pub proof fn lemma_one_owner_per_code(
    records: Records,
    batch: Seq<ShortenedUrlView>,
    code: Seq<char>,
)
    requires
        forall|i: int| 0 <= i < batch.len() ==> (#[trigger] batch[i]).short_code == code,
    ensures
        accepted(records, batch) == if records.contains_key(code) || batch.len() == 0 {
            0nat
        } else {
            1nat
        },
        saved_all(records, batch) == if records.contains_key(code) || batch.len() == 0 {
            records
        } else {
            records.insert(code, batch[0])
        },
    decreases batch.len(),
{
    if batch.len() > 0 {
        let rest = batch.drop_first();
        assert forall|i: int| 0 <= i < rest.len() implies (#[trigger] rest[i]).short_code
            == code by {
            assert(rest[i] == batch[i + 1]);
        }
        match saved(records, batch[0]) {
            Ok(after) => {
                lemma_one_owner_per_code(after, rest, code);
            },
            Err(_) => {
                lemma_one_owner_per_code(records, rest, code);
            },
        }
    }
}

/// A deletion that succeeds removes the record under the code and no other:
/// the code is free afterwards, a look-up of it reports that nothing is
/// found, and every other code holds what it held. A deletion succeeds
/// exactly where a record is stored under the code.
pub proof fn lemma_delete_removes_one_record(records: Records, code: Seq<char>)
    ensures
        deleted(records, code) is Ok <==> records.contains_key(code),
        deleted(records, code) matches Ok(after) ==> {
            &&& !after.contains_key(code)
            &&& found(after, code) == Err::<ShortenedUrlView, ErrorView>(
                ErrorView::ShortCodeNotFound(code),
            )
            &&& forall|other: Seq<char>|
                other != code ==> after.contains_key(other) == #[trigger] records.contains_key(
                    other,
                ) && (records.contains_key(other) ==> after[other] == records[other])
        },
        deleted(records, code) matches Err(e) ==> e == ErrorView::ShortCodeNotFound(code),
{
}

/// Whether `listing` shows `records` as they stand: each record exactly
/// once, none left out, none made up.
pub open spec fn lists(listing: Seq<ShortenedUrlView>, records: Records) -> bool {
    &&& listing.len() == records.len()
    &&& forall|i: int|
        0 <= i < listing.len() ==> records.contains_key(#[trigger] listing[i].short_code)
            && records[listing[i].short_code] == listing[i]
    &&& forall|i: int, j: int|
        0 <= i < j < listing.len() ==> #[trigger] listing[i].short_code
            != #[trigger] listing[j].short_code
    &&& forall|code: Seq<char>| #[trigger]
        records.contains_key(code) ==> exists|i: int|
            0 <= i < listing.len() && #[trigger] listing[i].short_code == code
}

/// The mathematical value of a list of records.
pub open spec fn listing_view(list: Seq<ShortenedUrl>) -> Seq<ShortenedUrlView> {
    Seq::new(list.len(), |i: int| list[i]@)
}

/// A store of records, keyed by short code.
///
/// A store is known to its users by [`UrlRepository::records`]. Each
/// operation does to the records what the function of this module named
/// after it says, or fails with `RepositoryError` and leaves them as they
/// were. A store whose type is [`UrlRepository::infallible`] never fails in
/// that way.
pub trait UrlRepository: Send + Sync {
    /// The records that the store holds.
    spec fn records(&self) -> Records;

    /// Whether the store is in a state that its own operations leave it in.
    spec fn wf(&self) -> bool;

    /// Whether stores of this type never report `RepositoryError`.
    spec fn infallible() -> bool;

    /// The records of a well-formed store are consistent.
    proof fn lemma_records_consistent(&self)
        requires
            self.wf(),
        ensures
            consistent(self.records()),
    ;

    /// Save `url` under its short code, unless a record is there already.
    fn save(&mut self, url: ShortenedUrl) -> (r: Result<(), UrlShortenerError>)
        requires
            old(self).wf(),
        ensures
            final(self).wf(),
            match r {
                Ok(()) => saved(old(self).records(), url@) == Ok::<Records, ErrorView>(
                    final(self).records(),
                ),
                Err(e) => final(self).records() == old(self).records() && (saved(
                    old(self).records(),
                    url@,
                ) == Err::<Records, ErrorView>(e@) || (!Self::infallible()
                    && e@ is RepositoryError)),
            },
    ;

    /// Look up the record stored under `code`.
    fn find_by_short_code(&self, code: &ShortCode) -> (r: Result<ShortenedUrl, UrlShortenerError>)
        requires
            self.wf(),
        ensures
            match r {
                Ok(url) => found(self.records(), code@) == Ok::<ShortenedUrlView, ErrorView>(url@),
                Err(e) => found(self.records(), code@) == Err::<ShortenedUrlView, ErrorView>(e@)
                    || (!Self::infallible() && e@ is RepositoryError),
            },
    ;

    /// Replace the record stored under the short code of `url` by `url`.
    fn update(&mut self, url: ShortenedUrl) -> (r: Result<(), UrlShortenerError>)
        requires
            old(self).wf(),
        ensures
            final(self).wf(),
            match r {
                Ok(()) => updated(old(self).records(), url@) == Ok::<Records, ErrorView>(
                    final(self).records(),
                ),
                Err(e) => final(self).records() == old(self).records() && (updated(
                    old(self).records(),
                    url@,
                ) == Err::<Records, ErrorView>(e@) || (!Self::infallible()
                    && e@ is RepositoryError)),
            },
    ;

    /// Tell whether a record is stored under `code`.
    fn contains(&self, code: &ShortCode) -> (r: Result<bool, UrlShortenerError>)
        requires
            self.wf(),
        ensures
            match r {
                Ok(present) => present == self.records().contains_key(code@),
                Err(e) => !Self::infallible() && e@ is RepositoryError,
            },
    ;

    /// Remove the record stored under `code`.
    fn delete(&mut self, code: &ShortCode) -> (r: Result<(), UrlShortenerError>)
        requires
            old(self).wf(),
        ensures
            final(self).wf(),
            match r {
                Ok(()) => deleted(old(self).records(), code@) == Ok::<Records, ErrorView>(
                    final(self).records(),
                ),
                Err(e) => final(self).records() == old(self).records() && (deleted(
                    old(self).records(),
                    code@,
                ) == Err::<Records, ErrorView>(e@) || (!Self::infallible()
                    && e@ is RepositoryError)),
            },
    ;

    /// List all the records, each once, in no particular order.
    fn list_all(&self) -> (r: Result<Vec<ShortenedUrl>, UrlShortenerError>)
        requires
            self.wf(),
        ensures
            match r {
                Ok(list) => lists(listing_view(list@), self.records()),
                Err(e) => !Self::infallible() && e@ is RepositoryError,
            },
    ;
}

} // verus!
