use std::sync::atomic::{AtomicUsize, Ordering};
use url_shortener::adapters::{InMemoryUrlRepository, RandomIdGenerator};
use url_shortener::domain::{OriginalUrl, ShortCode, ShortenedUrl, ShortenedUrlView, UrlId};
use url_shortener::error::UrlShortenerError;
use url_shortener::ports::{IdGenerator, UrlRepository};
use url_shortener::service::url_shortener_service::SearchStep;
use url_shortener::service::UrlShortenerService;

type Service = UrlShortenerService<InMemoryUrlRepository, RandomIdGenerator>;

fn create_service() -> UrlShortenerService<InMemoryUrlRepository, RandomIdGenerator> {
    let repository = InMemoryUrlRepository::new();
    let id_generator = RandomIdGenerator::new();
    UrlShortenerService::new(repository, id_generator)
}

fn url(text: &str) -> OriginalUrl {
    OriginalUrl::new(text.to_string()).unwrap()
}

fn code(text: &str) -> ShortCode {
    ShortCode::new(text.to_string()).unwrap()
}

/// A generator that hands out the given codes in turn, the last one for ever,
/// and counts how often it was asked.
struct Scripted {
    codes: Vec<&'static str>,
    asked: AtomicUsize,
}

impl Scripted {
    fn new(codes: Vec<&'static str>) -> Self {
        Scripted { codes, asked: AtomicUsize::new(0) }
    }
}

impl IdGenerator for Scripted {
    fn code_length(&self) -> vstd::prelude::nat {
        unreachable!()
    }

    fn infallible() -> bool {
        unreachable!()
    }

    fn generate_id(&self) -> UrlId {
        UrlId::new("scripted-id".to_string())
    }

    fn generate_short_code(&self) -> Result<ShortCode, UrlShortenerError> {
        let n = self.asked.fetch_add(1, Ordering::SeqCst);
        let at = if n < self.codes.len() { n } else { self.codes.len() - 1 };
        ShortCode::new(self.codes[at].to_string())
    }
}

/// A generator that has run dry.
struct Exhausted;

impl IdGenerator for Exhausted {
    fn code_length(&self) -> vstd::prelude::nat {
        unreachable!()
    }

    fn infallible() -> bool {
        unreachable!()
    }

    fn generate_id(&self) -> UrlId {
        UrlId::new("exhausted-id".to_string())
    }

    fn generate_short_code(&self) -> Result<ShortCode, UrlShortenerError> {
        Err(UrlShortenerError::IdGenerationFailed(100))
    }
}

/// A store that is out of order: every operation reports a failure.
struct Broken;

fn out_of_order<T>() -> Result<T, UrlShortenerError> {
    Err(UrlShortenerError::RepositoryError("out of order".to_string()))
}

impl UrlRepository for Broken {
    fn records(&self) -> vstd::map::Map<vstd::seq::Seq<char>, ShortenedUrlView> {
        unreachable!()
    }

    fn wf(&self) -> bool {
        unreachable!()
    }

    fn infallible() -> bool {
        unreachable!()
    }

    fn lemma_records_consistent(&self) {
        unreachable!()
    }

    fn save(&mut self, _url: ShortenedUrl) -> Result<(), UrlShortenerError> {
        out_of_order()
    }

    fn find_by_short_code(&self, _code: &ShortCode) -> Result<ShortenedUrl, UrlShortenerError> {
        out_of_order()
    }

    fn update(&mut self, _url: ShortenedUrl) -> Result<(), UrlShortenerError> {
        out_of_order()
    }

    fn contains(&self, _code: &ShortCode) -> Result<bool, UrlShortenerError> {
        out_of_order()
    }

    fn delete(&mut self, _code: &ShortCode) -> Result<(), UrlShortenerError> {
        out_of_order()
    }

    fn list_all(&self) -> Result<Vec<ShortenedUrl>, UrlShortenerError> {
        out_of_order()
    }
}

#[test]
fn test_shorten_url() {
    let mut service = create_service();
    let url = OriginalUrl::new("https://example.com".to_string()).unwrap();

    let result = service.shorten_url(url);
    assert!(result.is_ok());

    let shortened = result.unwrap();
    assert_eq!(shortened.original_url().as_str(), "https://example.com/");
}

#[test]
fn test_shorten_url_with_custom_code() {
    let mut service = create_service();
    let url = OriginalUrl::new("https://example.com".to_string()).unwrap();
    let code = ShortCode::new("custom".to_string()).unwrap();

    let result = service.shorten_url_with_code(url, code);
    assert!(result.is_ok());

    let shortened = result.unwrap();
    assert_eq!(shortened.short_code().as_str(), "custom");
}

#[test]
fn test_custom_code_already_exists() {
    let mut service = create_service();
    let url1 = OriginalUrl::new("https://example1.com".to_string()).unwrap();
    let url2 = OriginalUrl::new("https://example2.com".to_string()).unwrap();
    let code = ShortCode::new("dupe12".to_string()).unwrap();

    service.shorten_url_with_code(url1, code.clone()).unwrap();

    let result = service.shorten_url_with_code(url2, code);
    assert!(result.is_err());
    assert!(matches!(result, Err(UrlShortenerError::ShortCodeAlreadyExists(_))));
}

#[test]
fn test_resolve_short_code() {
    let mut service = create_service();
    let url = OriginalUrl::new("https://example.com/test".to_string()).unwrap();
    let shortened = service.shorten_url(url).unwrap();

    let resolved = service.resolve_short_code(shortened.short_code()).unwrap();
    assert_eq!(resolved.as_str(), "https://example.com/test");
}

#[test]
fn test_resolve_increments_access_count() {
    let mut service = create_service();
    let url = OriginalUrl::new("https://example.com".to_string()).unwrap();
    let shortened = service.shorten_url(url).unwrap();
    let code = shortened.short_code().clone();

    // Initial access count should be 0
    let stats = service.get_statistics(&code).unwrap();
    assert_eq!(stats.access_count(), 0);

    // Resolve once
    service.resolve_short_code(&code).unwrap();

    // Access count should be 1
    let stats = service.get_statistics(&code).unwrap();
    assert_eq!(stats.access_count(), 1);

    // Resolve again
    service.resolve_short_code(&code).unwrap();

    // Access count should be 2
    let stats = service.get_statistics(&code).unwrap();
    assert_eq!(stats.access_count(), 2);
}

#[test]
fn test_resolve_nonexistent_code() {
    let mut service = create_service();
    let code = ShortCode::new("notfound".to_string()).unwrap();

    let result = service.resolve_short_code(&code);
    assert!(result.is_err());
    assert!(matches!(result, Err(UrlShortenerError::ShortCodeNotFound(_))));
}

#[test]
fn test_delete_short_code() {
    let mut service = create_service();
    let url = OriginalUrl::new("https://example.com".to_string()).unwrap();
    let shortened = service.shorten_url(url).unwrap();
    let code = shortened.short_code().clone();

    // Should exist
    assert!(service.get_statistics(&code).is_ok());

    // Delete it
    service.delete_short_code(&code).unwrap();

    // Should no longer exist
    assert!(service.get_statistics(&code).is_err());
}

#[test]
fn url_shortener_service_test_list_all() {
    let mut service = create_service();

    let urls = service.list_all().unwrap();
    assert_eq!(urls.len(), 0);

    let url1 = OriginalUrl::new("https://example1.com".to_string()).unwrap();
    let url2 = OriginalUrl::new("https://example2.com".to_string()).unwrap();

    service.shorten_url(url1).unwrap();
    service.shorten_url(url2).unwrap();

    let urls = service.list_all().unwrap();
    assert_eq!(urls.len(), 2);
}

#[test]
fn end_to_end() {
    let mut service = create_service();
    let shortened = service.shorten_url(url("https://example.com/very/long/path")).unwrap();
    assert_eq!(shortened.short_code().as_str().len(), 6);
    assert!(shortened.short_code().as_str().chars().all(|c| c.is_ascii_alphanumeric()));
    assert_eq!(shortened.original_url().as_str(), "https://example.com/very/long/path");
    assert_eq!(shortened.access_count(), 0);
    assert_eq!(shortened.id().as_str().len(), 16);

    let resolved = service.resolve_short_code(shortened.short_code()).unwrap();
    assert_eq!(resolved.as_str(), "https://example.com/very/long/path");
    assert_eq!(&resolved, shortened.original_url());
}

#[test]
fn access_counting_with_a_given_code() {
    let mut service = create_service();
    let testcode = code("testcode");
    service.shorten_url_with_code(url("https://example.com"), testcode.clone()).unwrap();
    assert_eq!(service.get_statistics(&testcode).unwrap().access_count(), 0);
    service.resolve_short_code(&testcode).unwrap();
    assert_eq!(service.get_statistics(&testcode).unwrap().access_count(), 1);
    service.resolve_short_code(&testcode).unwrap();
    assert_eq!(service.get_statistics(&testcode).unwrap().access_count(), 2);
    service.get_statistics(&testcode).unwrap();
    service.get_statistics(&testcode).unwrap();
    assert_eq!(service.get_statistics(&testcode).unwrap().access_count(), 2);
}

#[test]
fn resolving_changes_only_the_count_of_its_own_record() {
    let mut service = create_service();
    let first = service.shorten_url_with_code(url("https://a.example/1"), code("first1")).unwrap();
    let second = service.shorten_url_with_code(url("https://b.example/2"), code("second2")).unwrap();
    for _ in 0..5 {
        assert_eq!(service.resolve_short_code(&code("first1")).unwrap().as_str(), "https://a.example/1");
    }
    let stats = service.get_statistics(&code("first1")).unwrap();
    assert_eq!(stats.access_count(), 5);
    assert_eq!(stats.id(), first.id());
    assert_eq!(stats.short_code(), first.short_code());
    assert_eq!(stats.original_url(), first.original_url());
    assert_eq!(stats.created_at(), first.created_at());
    assert_eq!(service.get_statistics(&code("second2")).unwrap(), second);
}

#[test]
fn shorten_stores_the_record_it_returns() {
    let mut service = create_service();
    let shortened = service.shorten_url(url("https://example.com/stored")).unwrap();
    assert_eq!(service.get_statistics(shortened.short_code()).unwrap(), shortened);
    let listed = service.list_all().unwrap();
    assert_eq!(listed, vec![shortened]);
}

#[test]
fn delete_and_exists_interplay() {
    let mut service = create_service();
    let shortened = service.shorten_url(url("https://example.com/gone")).unwrap();
    let code = shortened.short_code().clone();
    assert!(service.get_statistics(&code).is_ok());
    assert_eq!(service.delete_short_code(&code), Ok(()));
    assert_eq!(
        service.get_statistics(&code),
        Err(UrlShortenerError::ShortCodeNotFound(code.to_string()))
    );
    assert_eq!(
        service.resolve_short_code(&code),
        Err(UrlShortenerError::ShortCodeNotFound(code.to_string()))
    );
    assert_eq!(
        service.delete_short_code(&code),
        Err(UrlShortenerError::ShortCodeNotFound(code.to_string()))
    );
    assert!(service.list_all().unwrap().is_empty());
}

#[test]
fn taken_code_is_refused_and_nothing_changes() {
    let mut service = create_service();
    let first = service.shorten_url_with_code(url("https://example1.com"), code("dupe12")).unwrap();
    assert_eq!(
        service.shorten_url_with_code(url("https://example2.com"), code("dupe12")),
        Err(UrlShortenerError::ShortCodeAlreadyExists("dupe12".to_string()))
    );
    assert_eq!(service.list_all().unwrap(), vec![first]);
    assert_eq!(service.resolve_short_code(&code("dupe12")).unwrap().as_str(), "https://example1.com/");
}

#[test]
fn competing_requests_for_one_code_have_one_winner() {
    let mut service = create_service();
    let mut accepted = 0;
    let mut refused = 0;
    for n in 0..16 {
        let target = url(&format!("https://example.com/{}", n));
        match service.shorten_url_with_code(target, code("wanted")) {
            Ok(_) => accepted += 1,
            Err(UrlShortenerError::ShortCodeAlreadyExists(taken)) => {
                assert_eq!(taken, "wanted");
                refused += 1;
            }
            Err(other) => panic!("unexpected error: {:?}", other),
        }
    }
    assert_eq!(accepted, 1);
    assert_eq!(refused, 15);
    assert_eq!(service.get_statistics(&code("wanted")).unwrap().original_url().as_str(), "https://example.com/0");
}

#[test]
fn generated_codes_are_free_and_valid() {
    let mut service = create_service();
    for n in 0..50 {
        let candidate = service.generate_unique_short_code().unwrap();
        assert_eq!(candidate.as_str().len(), 6);
        assert!(service.get_statistics(&candidate).is_err());
        service.shorten_url_with_code(url(&format!("https://example.com/{}", n)), candidate).unwrap();
    }
    assert_eq!(service.list_all().unwrap().len(), 50);
}

#[test]
fn free_candidate_is_found_at_every_attempt() {
    for attempt in 0..10 {
        assert_eq!(
            Service::judge_candidate(attempt, code("free12"), Ok(false)),
            SearchStep::Found(code("free12"))
        );
    }
}

#[test]
fn taken_candidate_is_passed_over_while_attempts_are_left() {
    for attempt in 0..9 {
        assert_eq!(
            Service::judge_candidate(attempt, code("taken1"), Ok(true)),
            SearchStep::TryAgain
        );
    }
}

#[test]
fn tenth_taken_candidate_ends_the_search() {
    assert_eq!(
        Service::judge_candidate(9, code("taken1"), Ok(true)),
        SearchStep::GiveUp(UrlShortenerError::IdGenerationFailed(10))
    );
}

#[test]
fn failed_lookup_ends_the_search_with_its_error() {
    for attempt in [0usize, 4, 9] {
        assert_eq!(
            Service::judge_candidate(
                attempt,
                code("any123"),
                Err(UrlShortenerError::RepositoryError("out of order".to_string()))
            ),
            SearchStep::GiveUp(UrlShortenerError::RepositoryError("out of order".to_string()))
        );
    }
}

#[test]
fn generator_is_asked_once_per_attempt() {
    let generator = Scripted::new(vec!["taken1", "taken1", "fresh3"]);
    let mut service = UrlShortenerService::new(InMemoryUrlRepository::new(), generator);
    service.shorten_url_with_code(url("https://example.com/1"), code("taken1")).unwrap();
    assert_eq!(service.id_generator().asked.load(Ordering::SeqCst), 0);
    assert_eq!(service.generate_unique_short_code(), Ok(code("fresh3")));
    assert_eq!(service.id_generator().asked.load(Ordering::SeqCst), 3);
    assert_eq!(service.list_all().unwrap().len(), 1);
}

#[test]
fn generator_is_asked_ten_times_and_no_more() {
    let generator = Scripted::new(vec!["always"]);
    let mut service = UrlShortenerService::new(InMemoryUrlRepository::new(), generator);
    service.shorten_url_with_code(url("https://example.com/1"), code("always")).unwrap();
    assert_eq!(
        service.shorten_url(url("https://example.com/2")),
        Err(UrlShortenerError::IdGenerationFailed(10))
    );
    assert_eq!(service.id_generator().asked.load(Ordering::SeqCst), 10);
}

#[test]
fn fresh_service_shortens_at_the_first_attempt() {
    for length in 4..=12 {
        let mut service = UrlShortenerService::new(
            InMemoryUrlRepository::new(),
            RandomIdGenerator::with_length(length),
        );
        let shortened = service.shorten_url(url("https://example.com/fresh")).unwrap();
        assert_eq!(shortened.short_code().as_str().chars().count(), length);
        assert_eq!(service.id_generator().short_code_length(), length);
    }
}

#[test]
fn store_can_be_asked_beside_the_service() {
    let mut service = create_service();
    assert!(service.repository().is_empty());
    let shortened = service.shorten_url(url("https://example.com/beside")).unwrap();
    assert_eq!(service.repository().len(), 1);
    assert_eq!(service.repository().contains(shortened.short_code()), Ok(true));
    assert_eq!(service.repository().contains(&code("absent12")), Ok(false));
    assert_eq!(service.repository().find_by_short_code(shortened.short_code()), Ok(shortened.clone()));
    service.delete_short_code(shortened.short_code()).unwrap();
    assert_eq!(service.repository().contains(shortened.short_code()), Ok(false));
    assert!(service.repository().is_empty());
}

#[test]
fn retry_bound_is_ten() {
    assert_eq!(
        UrlShortenerService::<InMemoryUrlRepository, RandomIdGenerator>::MAX_GENERATION_ATTEMPTS,
        10
    );
}

#[test]
fn taken_candidates_are_passed_over() {
    let generator = Scripted::new(vec!["taken1", "taken1", "taken2", "fresh3", "never4"]);
    let mut service = UrlShortenerService::new(InMemoryUrlRepository::new(), generator);
    service.shorten_url_with_code(url("https://example.com/1"), code("taken1")).unwrap();
    service.shorten_url_with_code(url("https://example.com/2"), code("taken2")).unwrap();
    let shortened = service.shorten_url(url("https://example.com/3")).unwrap();
    assert_eq!(shortened.short_code().as_str(), "fresh3");
    assert_eq!(shortened.id().as_str(), "scripted-id");
    assert_eq!(service.list_all().unwrap().len(), 3);
}

#[test]
fn search_gives_up_after_ten_taken_candidates() {
    let generator = Scripted::new(vec!["always"]);
    let mut service = UrlShortenerService::new(InMemoryUrlRepository::new(), generator);
    let first = service.shorten_url(url("https://example.com/first")).unwrap();
    assert_eq!(first.short_code().as_str(), "always");
    assert_eq!(
        service.shorten_url(url("https://example.com/second")),
        Err(UrlShortenerError::IdGenerationFailed(10))
    );
    assert_eq!(service.list_all().unwrap(), vec![first]);
    assert_eq!(
        service.generate_unique_short_code(),
        Err(UrlShortenerError::IdGenerationFailed(10))
    );
}

#[test]
fn tenth_candidate_is_still_tried() {
    let generator = Scripted::new(vec![
        "taken1", "taken1", "taken1", "taken1", "taken1", "taken1", "taken1", "taken1", "taken1",
        "tenth0",
    ]);
    let mut service = UrlShortenerService::new(InMemoryUrlRepository::new(), generator);
    service.shorten_url_with_code(url("https://example.com/1"), code("taken1")).unwrap();
    let shortened = service.shorten_url(url("https://example.com/2")).unwrap();
    assert_eq!(shortened.short_code().as_str(), "tenth0");
}

#[test]
fn eleventh_candidate_is_never_asked_for() {
    let generator = Scripted::new(vec![
        "taken1", "taken1", "taken1", "taken1", "taken1", "taken1", "taken1", "taken1", "taken1",
        "taken1", "free11",
    ]);
    let mut service = UrlShortenerService::new(InMemoryUrlRepository::new(), generator);
    service.shorten_url_with_code(url("https://example.com/1"), code("taken1")).unwrap();
    assert_eq!(
        service.shorten_url(url("https://example.com/2")),
        Err(UrlShortenerError::IdGenerationFailed(10))
    );
}

#[test]
fn failure_of_the_generator_is_passed_on() {
    let mut service = UrlShortenerService::new(InMemoryUrlRepository::new(), Exhausted);
    assert_eq!(
        service.shorten_url(url("https://example.com")),
        Err(UrlShortenerError::IdGenerationFailed(100))
    );
    assert!(service.list_all().unwrap().is_empty());
    let shortened = service.shorten_url_with_code(url("https://example.com"), code("given1")).unwrap();
    assert_eq!(shortened.id().as_str(), "exhausted-id");
}

#[test]
fn failure_of_the_store_is_passed_on() {
    let failure = UrlShortenerError::RepositoryError("out of order".to_string());
    let mut service = UrlShortenerService::new(Broken, RandomIdGenerator::new());
    assert_eq!(service.shorten_url(url("https://example.com")), Err(out_of_order::<()>().unwrap_err()));
    assert_eq!(
        service.shorten_url_with_code(url("https://example.com"), code("given1")),
        Err(UrlShortenerError::RepositoryError("out of order".to_string()))
    );
    assert_eq!(service.resolve_short_code(&code("given1")).unwrap_err(), failure);
    assert_eq!(service.get_statistics(&code("given1")).unwrap_err(), failure);
    assert_eq!(service.delete_short_code(&code("given1")).unwrap_err(), failure);
    assert_eq!(service.list_all().unwrap_err(), failure);
    assert_eq!(service.generate_unique_short_code().unwrap_err(), failure);
}
