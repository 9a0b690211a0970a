use headlines::channel::{ArticleQueue, CommandChannel};
use headlines::config::{decode_config, encode_config, load_config};
use headlines::headlines::{
    fetch_news, Headlines, HeadlinesConfig, Msg, NewsCardData, UiState,
};
use headlines::newsapi::{Article, NewsApiResponse};

#[test]
fn config_round_trip_keeps_both_values() {
    let config = HeadlinesConfig { dark_mode: true, api_key: "XYZ".to_string() };
    let stored = encode_config(&config);
    let reloaded = decode_config(&stored).expect("an encoded configuration decodes");
    assert_eq!(reloaded.dark_mode, true);
    assert_eq!(reloaded.api_key, "XYZ");

    let config = HeadlinesConfig { dark_mode: false, api_key: String::new() };
    let stored = encode_config(&config);
    let reloaded = decode_config(&stored).expect("an encoded configuration decodes");
    assert_eq!(reloaded.dark_mode, false);
    assert_eq!(reloaded.api_key, "");
}

#[test]
fn malformed_stored_config_is_rejected_and_falls_back() {
    assert!(decode_config("").is_err());
    assert!(decode_config("x whatever").is_err());
    let fallback = load_config(Some(&"x whatever".to_string()));
    assert_eq!(fallback.dark_mode, false);
    assert_eq!(fallback.api_key, "");
    let missing = load_config(None);
    assert_eq!(missing.dark_mode, false);
    assert_eq!(missing.api_key, "");
}

#[test]
fn toggling_theme_twice_restores_dark_mode() {
    let mut ui = Headlines::new();
    let before = ui.config.dark_mode;
    ui.toggle_theme();
    assert_eq!(ui.config.dark_mode, !before);
    ui.toggle_theme();
    assert_eq!(ui.config.dark_mode, before);
}

#[test]
fn draining_an_empty_queue_returns_at_once_with_nothing() {
    let mut queue = ArticleQueue::new();
    assert!(queue.try_recv().is_none());
    assert!(queue.drain().is_empty());
    let mut ui = Headlines::new();
    ui.attach_channels(CommandChannel::new(), ArticleQueue::new());
    ui.preload_articles();
    assert!(ui.articles.is_empty());
}

#[test]
fn queue_hands_records_back_in_arrival_order() {
    let mut queue = ArticleQueue::new();
    for name in ["a", "b", "c"] {
        queue.send(NewsCardData {
            title: name.to_string(),
            desc: "...".to_string(),
            url: format!("https://example.com/{name}"),
        });
    }
    assert_eq!(queue.try_recv().unwrap().title, "a");
    let rest = queue.drain();
    assert_eq!(rest.len(), 2);
    assert_eq!(rest[0].title, "b");
    assert_eq!(rest[1].title, "c");
}

#[test]
fn latest_command_wins_on_the_single_slot_channel() {
    let mut channel = CommandChannel::new();
    channel.send(Msg::Refresh("old-key".to_string()));
    channel.send(Msg::Theme);
    assert!(matches!(channel.try_recv(), Some(Msg::Theme)));
    assert!(channel.try_recv().is_none());
}

#[test]
fn submitting_a_key_moves_to_loaded_and_sends_it_exactly_once() {
    let mut ui = Headlines::new();
    ui.attach_channels(CommandChannel::new(), ArticleQueue::new());
    assert!(matches!(ui.ui_state(), UiState::AwaitingApiKey));

    ui.config.api_key = "XYZ".to_string();
    ui.submit_api_key();
    assert!(matches!(ui.ui_state(), UiState::Loaded));

    let channel = ui.app_tx.as_mut().expect("the channel stays attached");
    match channel.try_recv() {
        Some(Msg::ApiKeySet(k)) => assert_eq!(k, "XYZ"),
        _ => panic!("committing the key must send it to the worker"),
    }
    assert!(channel.try_recv().is_none());
}

#[test]
fn startup_with_a_stored_key_skips_the_prompt() {
    let mut ui = Headlines::new();
    ui.apply_loaded_config(HeadlinesConfig { dark_mode: true, api_key: "stored".to_string() });
    assert!(matches!(ui.ui_state(), UiState::Loaded));
    let mut ui = Headlines::new();
    ui.apply_loaded_config(HeadlinesConfig { dark_mode: false, api_key: String::new() });
    assert!(matches!(ui.ui_state(), UiState::AwaitingApiKey));
}

fn numbered_articles(from: usize, to: usize) -> Vec<Article> {
    (from..to)
        .map(|i| {
            Article::new(format!("title {i}"), format!("https://example.com/{i}"), None)
        })
        .collect()
}

#[test]
fn refresh_clears_the_list_and_repopulates_only_from_the_new_fetch() {
    let mut ui = Headlines::new();
    ui.config.api_key = "k".to_string();
    ui.api_key_initialized = true;
    ui.attach_channels(CommandChannel::new(), ArticleQueue::new());

    let first = NewsApiResponse::new("ok".to_string(), numbered_articles(0, 5), None);
    fetch_news(Ok(first), ui.news_rx.as_mut().unwrap());
    ui.preload_articles();
    assert_eq!(ui.articles.len(), 5);

    ui.refresh();
    assert!(ui.articles.is_empty());
    match ui.app_tx.as_mut().unwrap().try_recv() {
        Some(Msg::Refresh(k)) => assert_eq!(k, "k"),
        _ => panic!("refresh must ask the worker for a new fetch"),
    }

    let second = NewsApiResponse::new("ok".to_string(), numbered_articles(10, 12), None);
    fetch_news(Ok(second), ui.news_rx.as_mut().unwrap());
    ui.preload_articles();
    assert_eq!(ui.articles.len(), 2);
    assert_eq!(ui.articles[0].title, "title 10");
    assert_eq!(ui.articles[1].title, "title 11");
}
