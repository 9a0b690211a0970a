//! The news-API client: request parameters and URL building, the response
//! schema, the status check, and the error taxonomy of the fetch path.

use vstd::prelude::*;

verus! {

/// The API endpoint to query.
pub enum Endpoint {
    TopHeadLines,
}

impl Endpoint {
    /// The path segment that names this endpoint.
    pub open spec fn text_spec(&self) -> Seq<char> {
        "top-headlines"@
    }

    /// The path segment that names this endpoint.
    pub fn text(&self) -> (r: &'static str)
        ensures
            r@ == self.text_spec(),
    {
        match self {
            Endpoint::TopHeadLines => "top-headlines",
        }
    }
}

/// The country whose headlines are requested.
pub enum Country {
    Us,
}

impl Country {
    /// The country code used in the query string.
    pub open spec fn text_spec(&self) -> Seq<char> {
        "us"@
    }

    /// The country code used in the query string.
    pub fn text(&self) -> (r: &'static str)
        ensures
            r@ == self.text_spec(),
    {
        match self {
            Country::Us => "us",
        }
    }

    /// The full query string selecting this country.
    pub fn query(&self) -> (q: String)
        ensures
            q@ == "country="@ + self.text_spec(),
    {
        String::from_str("country=").concat(self.text())
    }
}

/// An error on the fetch path. Transport and body-parse failures carry
/// the reporting text of the underlying failure; a well-formed error
/// response carries the message derived from its error code.
#[derive(Debug)]
pub enum NewsApiError {
    RequestFailed(String),
    ArticleParseFailed(String),
    UrlParsing(String),
    BadRequest(&'static str),
}

/// Mathematical value of a `NewsApiError`.
pub ghost enum ErrView {
    RequestFailed(Seq<char>),
    ArticleParseFailed(Seq<char>),
    UrlParsing(Seq<char>),
    BadRequest(Seq<char>),
}

impl View for NewsApiError {
    type V = ErrView;

    open spec fn view(&self) -> ErrView {
        match self {
            NewsApiError::RequestFailed(s) => ErrView::RequestFailed(s@),
            NewsApiError::ArticleParseFailed(s) => ErrView::ArticleParseFailed(s@),
            NewsApiError::UrlParsing(s) => ErrView::UrlParsing(s@),
            NewsApiError::BadRequest(s) => ErrView::BadRequest(s@),
        }
    }
}

/// One article of the API response.
pub struct Article {
    title: String,
    url: String,
    description: Option<String>,
}

/// Mathematical value of an `Article`.
pub ghost struct ArticleView {
    pub title: Seq<char>,
    pub url: Seq<char>,
    pub description: Option<Seq<char>>,
}

impl View for Article {
    type V = ArticleView;

    closed spec fn view(&self) -> ArticleView {
        ArticleView {
            title: self.title@,
            url: self.url@,
            description: match self.description {
                Some(d) => Some(d@),
                None => None,
            },
        }
    }
}

impl Article {
    /// Builds one article of the response schema.
    pub fn new(title: String, url: String, description: Option<String>) -> (a: Article)
        ensures
            a@.title == title@,
            a@.url == url@,
            a@.description == (match description {
                Some(d) => Some(d@),
                None => None::<Seq<char>>,
            }),
    {
        Article { title, url, description }
    }

    pub fn title(&self) -> (r: &str)
        ensures
            r@ == self@.title,
    {
        &self.title
    }

    pub fn url(&self) -> (r: &str)
        ensures
            r@ == self@.url,
    {
        &self.url
    }

    pub fn desc(&self) -> (r: Option<&String>)
        ensures
            match self@.description {
                Some(d) => r matches Some(s) && s@ == d,
                None => r is None,
            },
    {
        self.description.as_ref()
    }
}

/// The sequence of article values held by a vector of articles.
pub open spec fn articles_view(arts: Seq<Article>) -> Seq<ArticleView> {
    arts.map_values(|a: Article| a@)
}

/// The parsed response body of the API: a status, the articles, and an
/// optional error code.
pub struct NewsApiResponse {
    status: String,
    pub articles: Vec<Article>,
    code: Option<String>,
}

/// Mathematical value of a `NewsApiResponse`.
pub ghost struct ResponseView {
    pub status: Seq<char>,
    pub articles: Seq<ArticleView>,
    pub code: Option<Seq<char>>,
}

impl View for NewsApiResponse {
    type V = ResponseView;

    closed spec fn view(&self) -> ResponseView {
        ResponseView {
            status: self.status@,
            articles: articles_view(self.articles@),
            code: match self.code {
                Some(c) => Some(c@),
                None => None,
            },
        }
    }
}

impl NewsApiResponse {
    /// Builds a response of the API schema.
    pub fn new(status: String, articles: Vec<Article>, code: Option<String>) -> (r:
        NewsApiResponse)
        ensures
            r@.status == status@,
            r@.articles == articles_view(articles@),
            r@.code == (match code {
                Some(c) => Some(c@),
                None => None::<Seq<char>>,
            }),
    {
        NewsApiResponse { status, articles, code }
    }

    pub fn articles(&self) -> (r: &Vec<Article>)
        ensures
            articles_view(r@) == self@.articles,
    {
        &self.articles
    }

    /// Whether the response reports success.
    pub open spec fn status_ok(&self) -> bool {
        self@.status == "ok"@
    }

    /// The verified tail of a fetch: a response whose status is `"ok"`
    /// passes through; any other status becomes the API error derived
    /// from the optional error code.
    pub fn check_status(self) -> (r: Result<NewsApiResponse, NewsApiError>)
        ensures
            self.status_ok() ==> (r matches Ok(resp) && resp == self),
            !self.status_ok() ==> (r matches Err(e) && e@ == ErrView::BadRequest(
                api_err_msg(self@.code),
            )),
            checked_view(self@) matches Ok(v) ==> (r matches Ok(resp) && resp@ == v),
            checked_view(self@) matches Err(ev) ==> (r matches Err(e) && e@ == ev),
    {
        let ok = String::from_str("ok");
        if self.status == ok {
            Ok(self)
        } else {
            let NewsApiResponse { status: _, articles: _, code } = self;
            Err(map_response_err(code))
        }
    }
}

/// A request under construction: the API key and the fixed endpoint and
/// country parameters.
pub struct NewsAPI {
    api_key: String,
    endpoint: Endpoint,
    country: Country,
}

impl NewsAPI {
    /// The API key the request will carry.
    pub closed spec fn spec_api_key(&self) -> Seq<char> {
        self.api_key@
    }

    /// The endpoint the request will query.
    pub closed spec fn spec_endpoint(&self) -> Endpoint {
        self.endpoint
    }

    /// The country the request will select.
    pub closed spec fn spec_country(&self) -> Country {
        self.country
    }

    /// A request for the given key, querying the top headlines of the
    /// United States until the parameters are changed.
    pub fn new(api_key: &str) -> (r: NewsAPI)
        ensures
            r.spec_api_key() == api_key@,
            r.spec_endpoint() is TopHeadLines,
            r.spec_country() is Us,
    {
        NewsAPI { api_key: api_key.to_owned(), endpoint: Endpoint::TopHeadLines, country: Country::Us }
    }

    /// Selects the endpoint to query.
    pub fn endpoint(&mut self, endpoint: Endpoint)
        ensures
            final(self).spec_endpoint() == endpoint,
            final(self).spec_api_key() == old(self).spec_api_key(),
            final(self).spec_country() == old(self).spec_country(),
    {
        self.endpoint = endpoint;
    }

    /// Selects the country whose headlines are requested.
    pub fn country(&mut self, country: Country)
        ensures
            final(self).spec_country() == country,
            final(self).spec_api_key() == old(self).spec_api_key(),
            final(self).spec_endpoint() == old(self).spec_endpoint(),
    {
        self.country = country;
    }

    /// The request URL: the fixed base, the endpoint's path segment, and
    /// the country query.
    pub open spec fn url_spec(&self) -> Seq<char> {
        "https://newsapi.org/v2"@ + "/"@ + self.spec_endpoint().text_spec() + "?"@
            + "country="@ + self.spec_country().text_spec()
    }

    /// Builds the request URL for this request's parameters.
    pub fn prepare_url(&self) -> (r: Result<String, NewsApiError>)
        ensures
            r matches Ok(u) && u@ == self.url_spec(),
    {
        let query = self.country.query();
        let built = url_with_segment_and_query(
            "https://newsapi.org/v2",
            self.endpoint.text(),
            query.as_str(),
        );
        match built {
            Ok(u) => {
                proof {
                    assert(u@ =~= self.url_spec());
                }
                Ok(u)
            },
            Err(_) => unreached(),
        }
    }
}

/// Relies on the url crate: `Url::parse`, `PathSegmentsMut::push`,
/// `Url::set_query` and `Url::to_string`. For this absolute base URL
/// (whose path has one non-empty segment and no trailing slash), `push`
/// appends a slash and then the given segment, percent-encoding nothing
/// of `top-headlines`; `set_query` appends a question mark and then the
/// given query, percent-encoding nothing of `country=us`; `to_string`
/// returns the serialization so built.
#[verifier::external_body]
fn url_with_segment_and_query(base: &str, segment: &str, query: &str) -> (r: Result<
    String,
    NewsApiError,
>)
    requires
        base@ == "https://newsapi.org/v2"@,
        segment@ == "top-headlines"@,
        query@ == "country="@ + "us"@,
    ensures
        r is Ok,
        r->Ok_0@ == base@ + "/"@ + segment@ + "?"@ + query@,
{
    match url::Url::parse(base) {
        Ok(mut u) => {
            u.path_segments_mut().unwrap().push(segment);
            u.set_query(Some(query));
            Ok(u.to_string())
        },
        Err(e) => Err(NewsApiError::UrlParsing(e.to_string())),
    }
}

/// What the status check makes of a response value: a response whose
/// status is `"ok"` passes through; any other becomes the API error
/// derived from its optional error code.
pub open spec fn checked_view(rv: ResponseView) -> Result<ResponseView, ErrView> {
    if rv.status == "ok"@ {
        Ok(rv)
    } else {
        Err(ErrView::BadRequest(api_err_msg(rv.code)))
    }
}

/// The message of a well-formed error response, derived from its
/// optional error code: a disabled key is reported as such, anything
/// else as an unknown error.
pub open spec fn api_err_msg(code: Option<Seq<char>>) -> Seq<char> {
    match code {
        Some(c) => if c == "apiKeyDisabled"@ {
            "Your API key has been disabled"@
        } else {
            "Unknown Error"@
        },
        None => "Unknown Error"@,
    }
}

/// Maps the optional error code of a non-`"ok"` response to the API
/// error shown for it.
pub fn map_response_err(code: Option<String>) -> (r: NewsApiError)
    ensures
        r@ == ErrView::BadRequest(
            api_err_msg(
                match code {
                    Some(c) => Some(c@),
                    None => None,
                },
            ),
        ),
{
    if let Some(code) = code {
        if code == String::from_str("apiKeyDisabled") {
            NewsApiError::BadRequest("Your API key has been disabled")
        } else {
            NewsApiError::BadRequest("Unknown Error")
        }
    } else {
        NewsApiError::BadRequest("Unknown Error")
    }
}

} // verus!
