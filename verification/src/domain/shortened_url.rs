//! The record of one shortened URL.

use crate::domain::original_url::{is_allowed_scheme, OriginalUrl, UrlPartsView};
use crate::domain::short_code::{is_valid_short_code, ShortCode};
use crate::domain::url_id::UrlId;
use std::time::SystemTime;
use vstd::prelude::*;

verus! {

/// `std::time::SystemTime`, a point in time that the library carries with a
/// record and never looks into.
#[verifier::external_type_specification]
#[verifier::external_body]
pub struct ExSystemTime(std::time::SystemTime);

/// Reads the system clock with `std::time::SystemTime::now`. Nothing is
/// claimed of the time that comes back.
#[verifier::external_body]
fn current_time() -> SystemTime {
    SystemTime::now()
}

/// The mathematical value of a [`ShortenedUrl`].
pub struct ShortenedUrlView {
    pub id: Seq<char>,
    pub short_code: Seq<char>,
    pub original_url: UrlPartsView,
    pub created_at: SystemTime,
    pub access_count: u64,
}

impl ShortenedUrlView {
    /// The record after one more access: the counter is one higher, unless it
    /// has reached the greatest value it can hold, and all else is as before.
    pub open spec fn accessed(self) -> ShortenedUrlView {
        ShortenedUrlView {
            access_count: if self.access_count < u64::MAX {
                (self.access_count + 1) as u64
            } else {
                u64::MAX
            },
            ..self
        }
    }

    /// The record after `n` more accesses.
    pub open spec fn accessed_times(self, n: nat) -> ShortenedUrlView
        decreases n,
    {
        if n == 0 {
            self
        } else {
            self.accessed_times((n - 1) as nat).accessed()
        }
    }
}

/// After `n` accesses the counter has gone up by `n`, or has stopped at the
/// greatest value it can hold; it never wraps round, and nothing else in the
/// record has changed.
pub proof fn lemma_accesses_saturate(record: ShortenedUrlView, n: nat)
    ensures
        record.accessed_times(n) == (ShortenedUrlView {
            access_count: if record.access_count + n <= u64::MAX {
                (record.access_count + n) as u64
            } else {
                u64::MAX
            },
            ..record
        }),
        record.access_count <= record.accessed_times(n).access_count,
    decreases n,
{
    if n > 0 {
        lemma_accesses_saturate(record, (n - 1) as nat);
    }
}

/// A counter one short of the greatest value reaches it with the first of
/// two accesses and stays there with the second.
pub proof fn lemma_counter_stops_at_greatest(record: ShortenedUrlView)
    requires
        record.access_count == u64::MAX - 1,
    ensures
        record.accessed().access_count == u64::MAX,
        record.accessed().accessed().access_count == u64::MAX,
{
}

/// A shortened URL: the record that binds a short code to an original URL,
/// with its identifier, its time of creation and the count of its accesses.
#[derive(Debug, PartialEq, Eq)]
pub struct ShortenedUrl {
    id: UrlId,
    short_code: ShortCode,
    original_url: OriginalUrl,
    created_at: SystemTime,
    access_count: u64,
}

impl View for ShortenedUrl {
    type V = ShortenedUrlView;

    closed spec fn view(&self) -> ShortenedUrlView {
        ShortenedUrlView {
            id: self.id@,
            short_code: self.short_code@,
            original_url: self.original_url@,
            created_at: self.created_at,
            access_count: self.access_count,
        }
    }
}

impl Clone for ShortenedUrl {
    fn clone(&self) -> (copy: Self)
        ensures
            copy@ == self@,
    {
        ShortenedUrl {
            id: self.id.clone(),
            short_code: self.short_code.clone(),
            original_url: self.original_url.clone(),
            created_at: self.created_at,
            access_count: self.access_count,
        }
    }
}

impl ShortenedUrl {
    /// Create the record of a URL shortened now: it has never been accessed,
    /// and its time of creation is what the system clock says.
    pub fn new(id: UrlId, short_code: ShortCode, original_url: OriginalUrl) -> (record: Self)
        ensures
            record@.id == id@,
            record@.short_code == short_code@,
            record@.original_url == original_url@,
            record@.access_count == 0,
    {
        Self::with_created_at(id, short_code, original_url, current_time())
    }

    /// Create the record of a URL shortened at `created_at`; it has never
    /// been accessed.
    pub fn with_created_at(
        id: UrlId,
        short_code: ShortCode,
        original_url: OriginalUrl,
        created_at: SystemTime,
    ) -> (record: Self)
        ensures
            record@ == (ShortenedUrlView {
                id: id@,
                short_code: short_code@,
                original_url: original_url@,
                created_at,
                access_count: 0,
            }),
    {
        ShortenedUrl { id, short_code, original_url, created_at, access_count: 0 }
    }

    /// Put a record together again from what a store has kept of it, the
    /// count of its accesses included.
    pub fn restore(
        id: UrlId,
        short_code: ShortCode,
        original_url: OriginalUrl,
        created_at: SystemTime,
        access_count: u64,
    ) -> (record: Self)
        ensures
            record@ == (ShortenedUrlView {
                id: id@,
                short_code: short_code@,
                original_url: original_url@,
                created_at,
                access_count,
            }),
    {
        ShortenedUrl { id, short_code, original_url, created_at, access_count }
    }

    /// Get the short code. It is always a valid one.
    pub fn short_code(&self) -> (short_code: &ShortCode)
        ensures
            short_code@ == self@.short_code,
            is_valid_short_code(short_code@),
    {
        proof {
            use_type_invariant(&self.short_code);
        }
        &self.short_code
    }

    /// Get the original URL. Its scheme is always an allowed one.
    pub fn original_url(&self) -> (original_url: &OriginalUrl)
        ensures
            original_url@ == self@.original_url,
            is_allowed_scheme(original_url@.scheme),
    {
        proof {
            use_type_invariant(&self.original_url);
        }
        &self.original_url
    }

    /// Get the identifier.
    pub fn id(&self) -> (id: &UrlId)
        ensures
            id@ == self@.id,
    {
        &self.id
    }

    /// Get the time of creation.
    pub fn created_at(&self) -> (created_at: SystemTime)
        ensures
            created_at == self@.created_at,
    {
        self.created_at
    }

    /// Get the number of accesses counted so far.
    pub fn access_count(&self) -> (access_count: u64)
        ensures
            access_count == self@.access_count,
    {
        self.access_count
    }

    /// Record one access: the counter goes up by one and stops at the
    /// greatest value it can hold. Nothing else changes.
    pub fn record_access(&mut self)
        ensures
            final(self)@ == old(self)@.accessed(),
    {
        self.access_count = self.access_count.saturating_add(1);
    }
}

} // verus!
