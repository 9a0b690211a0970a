//! UI-side state: the user commands, the persisted configuration, the
//! display records, and the `Headlines` application state with its
//! per-frame transitions.

use vstd::prelude::*;

use crate::channel::{ArticleQueue, CommandChannel};
use crate::newsapi::{ArticleView, ErrView, NewsApiError, NewsApiResponse, ResponseView};

verus! {

/// A user command sent from the UI thread to the fetch worker.
pub enum Msg {
    ApiKeySet(String),
    Refresh(String),
    Theme,
}

/// Mathematical value of a `Msg`: the same variants over character sequences.
pub ghost enum MsgView {
    ApiKeySet(Seq<char>),
    Refresh(Seq<char>),
    Theme,
}

impl View for Msg {
    type V = MsgView;

    open spec fn view(&self) -> MsgView {
        match self {
            Msg::ApiKeySet(k) => MsgView::ApiKeySet(k@),
            Msg::Refresh(k) => MsgView::Refresh(k@),
            Msg::Theme => MsgView::Theme,
        }
    }
}

/// The persisted configuration: the theme flag and the API key.
pub struct HeadlinesConfig {
    pub dark_mode: bool,
    pub api_key: String,
}

/// Mathematical value of a `HeadlinesConfig`.
pub ghost struct ConfigView {
    pub dark_mode: bool,
    pub api_key: Seq<char>,
}

impl View for HeadlinesConfig {
    type V = ConfigView;

    open spec fn view(&self) -> ConfigView {
        ConfigView { dark_mode: self.dark_mode, api_key: self.api_key@ }
    }
}

impl Default for HeadlinesConfig {
    /// The default configuration: light theme, no API key.
    fn default() -> (c: Self)
        ensures
            c@.dark_mode == false,
            c@.api_key == Seq::<char>::empty(),
    {
        HeadlinesConfig { dark_mode: false, api_key: String::new() }
    }
}

/// One article prepared for rendering: title, description and link.
pub struct NewsCardData {
    pub title: String,
    pub desc: String,
    pub url: String,
}

/// Mathematical value of a `NewsCardData`.
pub ghost struct RecordView {
    pub title: Seq<char>,
    pub desc: Seq<char>,
    pub url: Seq<char>,
}

impl View for NewsCardData {
    type V = RecordView;

    open spec fn view(&self) -> RecordView {
        RecordView { title: self.title@, desc: self.desc@, url: self.url@ }
    }
}

/// The sequence of record values held by a vector of display records.
pub open spec fn cards_view(cards: Seq<NewsCardData>) -> Seq<RecordView> {
    cards.map_values(|c: NewsCardData| c@)
}

/// What one state of the render loop shows: the API-key prompt, or the
/// article list with its controls.
pub enum UiState {
    AwaitingApiKey,
    Loaded,
}

/// The UI-side application state: the visible article list, the
/// configuration, whether an API key has been committed, and the two
/// paths to and from the fetch worker.
pub struct Headlines {
    pub articles: Vec<NewsCardData>,
    pub config: HeadlinesConfig,
    pub api_key_initialized: bool,
    pub news_rx: Option<ArticleQueue>,
    pub app_tx: Option<CommandChannel>,
}

/// The configuration after the theme toggle: the dark-mode flag flipped,
/// the API key kept.
pub open spec fn toggle_theme_spec(c: ConfigView) -> ConfigView {
    ConfigView { dark_mode: !c.dark_mode, api_key: c.api_key }
}

impl Headlines {
    /// A fresh application state: no articles, the default
    /// configuration, no committed key, and no channels yet.
    pub fn new() -> (h: Headlines)
        ensures
            h.articles@ == Seq::<NewsCardData>::empty(),
            h.config@.dark_mode == false,
            h.config@.api_key == Seq::<char>::empty(),
            h.api_key_initialized == false,
            h.news_rx is None,
            h.app_tx is None,
    {
        Headlines {
            api_key_initialized: false,
            articles: Vec::new(),
            config: HeadlinesConfig::default(),
            news_rx: None,
            app_tx: None,
        }
    }

    /// Which state the render loop is in: the API-key prompt until a key
    /// has been committed, the article list afterwards.
    pub open spec fn ui_state_spec(&self) -> UiState {
        if self.api_key_initialized {
            UiState::Loaded
        } else {
            UiState::AwaitingApiKey
        }
    }

    /// Which state the render loop is in.
    pub fn ui_state(&self) -> (s: UiState)
        ensures
            s == self.ui_state_spec(),
    {
        if self.api_key_initialized {
            UiState::Loaded
        } else {
            UiState::AwaitingApiKey
        }
    }

    /// Takes the configuration loaded at startup; a key is counted as
    /// committed exactly when the loaded key is non-empty.
    pub fn apply_loaded_config(&mut self, config: HeadlinesConfig)
        ensures
            final(self).config@ == config@,
            final(self).api_key_initialized == (config@.api_key.len() != 0),
            final(self).articles == old(self).articles,
            final(self).news_rx == old(self).news_rx,
            final(self).app_tx == old(self).app_tx,
    {
        self.api_key_initialized = !config.api_key.as_str().is_empty();
        self.config = config;
    }

    /// Installs the two paths to and from the fetch worker.
    pub fn attach_channels(&mut self, app_tx: CommandChannel, news_rx: ArticleQueue)
        ensures
            final(self).app_tx == Some(app_tx),
            final(self).news_rx == Some(news_rx),
            final(self).articles == old(self).articles,
            final(self).config == old(self).config,
            final(self).api_key_initialized == old(self).api_key_initialized,
    {
        self.app_tx = Some(app_tx);
        self.news_rx = Some(news_rx);
    }

    /// Appends every record now waiting in the article queue to the
    /// visible list, in arrival order, without blocking; with no queue
    /// attached nothing changes.
    pub fn preload_articles(&mut self)
        ensures
            final(self).config == old(self).config,
            final(self).api_key_initialized == old(self).api_key_initialized,
            final(self).app_tx == old(self).app_tx,
            match old(self).news_rx {
                Some(q) => (final(self).news_rx matches Some(q2) && q2@ == Seq::<
                    RecordView,
                >::empty() && cards_view(final(self).articles@) == cards_view(
                    old(self).articles@,
                ) + q@),
                None => final(self).news_rx is None && final(self).articles == old(self).articles,
            },
    {
        if let Some(q) = &mut self.news_rx {
            let mut drained = q.drain();
            proof {
                assert(cards_view(self.articles@ + drained@) =~= cards_view(self.articles@)
                    + cards_view(drained@));
            }
            self.articles.append(&mut drained);
        }
    }

    /// Flips the dark-mode flag; everything else is kept.
    pub fn toggle_theme(&mut self)
        ensures
            final(self).config@ == toggle_theme_spec(old(self).config@),
            final(self).articles == old(self).articles,
            final(self).api_key_initialized == old(self).api_key_initialized,
            final(self).news_rx == old(self).news_rx,
            final(self).app_tx == old(self).app_tx,
    {
        self.config.dark_mode = !self.config.dark_mode;
    }

    /// Clears the visible list at once and asks the worker for a fresh
    /// fetch with the current key; the list repopulates only as the new
    /// results arrive through the article queue.
    pub fn refresh(&mut self)
        ensures
            final(self).articles@ == Seq::<NewsCardData>::empty(),
            final(self).config == old(self).config,
            final(self).api_key_initialized == old(self).api_key_initialized,
            final(self).news_rx == old(self).news_rx,
            match old(self).app_tx {
                Some(_) => (final(self).app_tx matches Some(ch) && ch@ == Some(
                    MsgView::Refresh(old(self).config@.api_key),
                )),
                None => final(self).app_tx is None,
            },
    {
        self.articles.clear();
        if let Some(tx) = &mut self.app_tx {
            tx.send(Msg::Refresh(self.config.api_key.clone()));
        }
    }

    /// Commits the API key standing in the configuration: the render
    /// loop moves to the article list, and the worker is asked to fetch
    /// with that key.
    pub fn submit_api_key(&mut self)
        ensures
            final(self).api_key_initialized == true,
            final(self).config == old(self).config,
            final(self).articles == old(self).articles,
            final(self).news_rx == old(self).news_rx,
            match old(self).app_tx {
                Some(_) => (final(self).app_tx matches Some(ch) && ch@ == Some(
                    MsgView::ApiKeySet(old(self).config@.api_key),
                )),
                None => final(self).app_tx is None,
            },
    {
        self.api_key_initialized = true;
        if let Some(tx) = &mut self.app_tx {
            tx.send(Msg::ApiKeySet(self.config.api_key.clone()));
        }
    }
}

/// The display record made of one article: title and link as they came,
/// the description defaulted to the fixed placeholder when absent.
pub open spec fn record_of(a: ArticleView) -> RecordView {
    RecordView {
        title: a.title,
        url: a.url,
        desc: match a.description {
            Some(d) => d,
            None => "..."@,
        },
    }
}

/// The display records made of a response's articles, in response order.
pub open spec fn records_of(arts: Seq<ArticleView>) -> Seq<RecordView> {
    arts.map_values(|a: ArticleView| record_of(a))
}

/// The mathematical value of a fetch outcome.
pub open spec fn outcome_view(o: Result<NewsApiResponse, NewsApiError>) -> Result<
    ResponseView,
    ErrView,
> {
    match o {
        Ok(r) => Ok(r@),
        Err(e) => Err(e@),
    }
}

/// What the fetch worker hands the article queue for one outcome: every
/// article's record on success, nothing on failure.
pub open spec fn worker_output(o: Result<ResponseView, ErrView>) -> Seq<RecordView> {
    match o {
        Ok(r) => records_of(r.articles),
        Err(_) => Seq::<RecordView>::empty(),
    }
}

/// Translates one fetch outcome into display records on the article
/// queue: on success one record per article, in response order; on
/// failure nothing, and the queue is left as it was.
pub fn fetch_news(outcome: Result<NewsApiResponse, NewsApiError>, news_tx: &mut ArticleQueue)
    ensures
        final(news_tx)@ == old(news_tx)@ + worker_output(outcome_view(outcome)),
{
    match outcome {
        Ok(response) => {
            let resp_articles = response.articles();
            let n = resp_articles.len();
            let mut i: usize = 0;
            proof {
                assert(old(news_tx)@ + records_of(response@.articles.take(0)) =~= old(
                    news_tx,
                )@);
            }
            while i < n
                invariant
                    i <= n,
                    n == resp_articles@.len(),
                    response@.articles == crate::newsapi::articles_view(resp_articles@),
                    news_tx@ == old(news_tx)@ + records_of(response@.articles.take(i as int)),
                decreases n - i,
            {
                let a = &resp_articles[i];
                let desc = match a.desc() {
                    Some(d) => d.clone(),
                    None => String::from_str("..."),
                };
                let news = NewsCardData { title: a.title().to_owned(), url: a.url().to_owned(), desc };
                proof {
                    assert(news@ == record_of(response@.articles[i as int]));
                    assert(records_of(response@.articles.take(i + 1)) =~= records_of(
                        response@.articles.take(i as int),
                    ).push(record_of(response@.articles[i as int])));
                }
                news_tx.send(news);
                i = i + 1;
            }
            proof {
                assert(response@.articles.take(n as int) =~= response@.articles);
            }
        },
        Err(_) => {
            proof {
                assert(old(news_tx)@ + Seq::<RecordView>::empty() =~= old(news_tx)@);
            }
        },
    }
}

/// What the fetch worker does next: fetch with a key, do nothing, or
/// leave its loop.
pub enum WorkerAction {
    Fetch(String),
    Ignore,
    Exit,
}

/// The worker control loop's decision for one received command: a
/// committed key or a refresh starts a fetch with the enclosed key, a
/// theme toggle is a no-op, and a disconnected channel ends the loop.
pub fn worker_step(msg: Option<Msg>) -> (a: WorkerAction)
    ensures
        match msg {
            Some(Msg::ApiKeySet(k)) => (a matches WorkerAction::Fetch(key) && key@ == k@),
            Some(Msg::Refresh(k)) => (a matches WorkerAction::Fetch(key) && key@ == k@),
            Some(Msg::Theme) => a is Ignore,
            None => a is Exit,
        },
{
    match msg {
        Some(Msg::ApiKeySet(k)) => WorkerAction::Fetch(k),
        Some(Msg::Refresh(k)) => WorkerAction::Fetch(k),
        Some(Msg::Theme) => WorkerAction::Ignore,
        None => WorkerAction::Exit,
    }
}

/// The worker's decision before its first command: fetch at once with a
/// key already configured at startup, otherwise wait.
pub fn worker_startup(api_key: &str) -> (a: WorkerAction)
    ensures
        api_key@.len() != 0 ==> (a matches WorkerAction::Fetch(k) && k@ == api_key@),
        api_key@.len() == 0 ==> a is Ignore,
{
    if api_key.is_empty() {
        WorkerAction::Ignore
    } else {
        WorkerAction::Fetch(api_key.to_owned())
    }
}

/// Law: a successful response with N articles yields exactly N display
/// records, in response order, each the record of its article.
pub proof fn lemma_ok_response_records(rv: ResponseView)
    requires
        rv.status == "ok"@,
    ensures
        crate::newsapi::checked_view(rv) == Ok::<ResponseView, ErrView>(rv),
        worker_output(crate::newsapi::checked_view(rv)) == records_of(rv.articles),
        records_of(rv.articles).len() == rv.articles.len(),
        forall|i: int|
            0 <= i < rv.articles.len() ==> records_of(rv.articles)[i] == record_of(
                rv.articles[i],
            ),
{
}

/// Law: a response whose status is not `"ok"` yields an API error and
/// no display records at all.
pub proof fn lemma_error_status_yields_no_records(rv: ResponseView)
    requires
        rv.status != "ok"@,
    ensures
        crate::newsapi::checked_view(rv) == Err::<ResponseView, ErrView>(
            ErrView::BadRequest(crate::newsapi::api_err_msg(rv.code)),
        ),
        worker_output(crate::newsapi::checked_view(rv)) == Seq::<RecordView>::empty(),
{
}

/// Law: toggling the theme twice returns the configuration, dark-mode
/// flag included, to its original value.
pub proof fn lemma_toggle_theme_twice(c: ConfigView)
    ensures
        toggle_theme_spec(toggle_theme_spec(c)) == c,
{
}

} // verus!

