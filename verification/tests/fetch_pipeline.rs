use headlines::channel::ArticleQueue;
use headlines::headlines::{fetch_news, worker_startup, worker_step, Msg, WorkerAction};
use headlines::newsapi::{Article, Country, Endpoint, NewsAPI, NewsApiError, NewsApiResponse};

fn sample_articles() -> Vec<Article> {
    vec![
        Article::new(
            "first title".to_string(),
            "https://example.com/1".to_string(),
            Some("first description".to_string()),
        ),
        Article::new("second title".to_string(), "https://example.com/2".to_string(), None),
    ]
}

#[test]
fn ok_response_maps_every_article_in_order() {
    let response = NewsApiResponse::new("ok".to_string(), sample_articles(), None);
    let checked = response.check_status();
    let response = match checked {
        Ok(r) => r,
        Err(_) => panic!("an ok response must pass the status check"),
    };
    let mut queue = ArticleQueue::new();
    fetch_news(Ok(response), &mut queue);
    let records = queue.drain();
    assert_eq!(records.len(), 2);
    assert_eq!(records[0].title, "first title");
    assert_eq!(records[0].desc, "first description");
    assert_eq!(records[0].url, "https://example.com/1");
    assert_eq!(records[1].title, "second title");
    assert_eq!(records[1].url, "https://example.com/2");
}

#[test]
fn missing_description_gets_the_placeholder() {
    let articles = vec![Article::new(
        "no description".to_string(),
        "https://example.com/n".to_string(),
        None,
    )];
    let response = NewsApiResponse::new("ok".to_string(), articles, None);
    let mut queue = ArticleQueue::new();
    fetch_news(Ok(response), &mut queue);
    let record = queue.try_recv().expect("one record was pushed");
    assert_eq!(record.desc, "...");
}

#[test]
fn error_status_yields_zero_records() {
    let response = NewsApiResponse::new("error".to_string(), sample_articles(), None);
    let checked = response.check_status();
    assert!(checked.is_err());
    let mut queue = ArticleQueue::new();
    fetch_news(checked, &mut queue);
    assert!(queue.try_recv().is_none());
}

#[test]
fn disabled_key_code_gives_the_disabled_key_message() {
    let response = NewsApiResponse::new(
        "error".to_string(),
        vec![],
        Some("apiKeyDisabled".to_string()),
    );
    match response.check_status() {
        Err(NewsApiError::BadRequest(msg)) => {
            assert_eq!(msg, "Your API key has been disabled");
        }
        _ => panic!("a non-ok status must give the API error"),
    }
}

#[test]
fn unknown_code_gives_the_unknown_error_message() {
    let response =
        NewsApiResponse::new("error".to_string(), vec![], Some("somethingElse".to_string()));
    match response.check_status() {
        Err(NewsApiError::BadRequest(msg)) => assert_eq!(msg, "Unknown Error"),
        _ => panic!("a non-ok status must give the API error"),
    }
}

#[test]
fn missing_code_gives_the_unknown_error_message() {
    let response = NewsApiResponse::new("error".to_string(), vec![], None);
    match response.check_status() {
        Err(NewsApiError::BadRequest(msg)) => assert_eq!(msg, "Unknown Error"),
        _ => panic!("a non-ok status must give the API error"),
    }
}

#[test]
fn failed_fetch_pushes_nothing() {
    let mut queue = ArticleQueue::new();
    fetch_news(Err(NewsApiError::RequestFailed("connection refused".to_string())), &mut queue);
    assert!(queue.try_recv().is_none());
    fetch_news(Err(NewsApiError::ArticleParseFailed("bad body".to_string())), &mut queue);
    assert!(queue.drain().is_empty());
}

#[test]
fn prepare_url_builds_the_fixed_request_url() {
    let api = NewsAPI::new("some-key");
    let url = api.prepare_url().expect("the fixed parameters always build a URL");
    assert_eq!(url, "https://newsapi.org/v2/top-headlines?country=us");
}

#[test]
fn prepare_url_after_reselecting_parameters() {
    let mut api = NewsAPI::new("k");
    api.endpoint(Endpoint::TopHeadLines);
    api.country(Country::Us);
    let url = api.prepare_url().expect("the fixed parameters always build a URL");
    assert_eq!(url, "https://newsapi.org/v2/top-headlines?country=us");
}

#[test]
fn worker_fetches_on_key_and_refresh_and_ignores_theme() {
    match worker_step(Some(Msg::ApiKeySet("abc".to_string()))) {
        WorkerAction::Fetch(k) => assert_eq!(k, "abc"),
        _ => panic!("a committed key must start a fetch"),
    }
    match worker_step(Some(Msg::Refresh("abc".to_string()))) {
        WorkerAction::Fetch(k) => assert_eq!(k, "abc"),
        _ => panic!("a refresh must start a fetch"),
    }
    assert!(matches!(worker_step(Some(Msg::Theme)), WorkerAction::Ignore));
    assert!(matches!(worker_step(None), WorkerAction::Exit));
}

#[test]
fn worker_startup_fetches_only_with_a_key() {
    assert!(matches!(worker_startup(""), WorkerAction::Ignore));
    match worker_startup("abc") {
        WorkerAction::Fetch(k) => assert_eq!(k, "abc"),
        _ => panic!("a configured key must start a fetch at startup"),
    }
}
