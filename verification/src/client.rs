//! The client: its configuration, the URLs it asks for, and what it makes of
//! a response body.

use crate::encoding::{percent_encode, percent_encoded};
use crate::error::{OmdbError, OmdbErrorView};
use crate::json::{as_str, index, is_text, parse, render};
use crate::json::{json_index, json_parsed, json_rendering, json_text};
use crate::options::{PlotType, ResponseFormat, ResultFormat, SearchType};
use crate::record::{record_outcome, MovieRecord, MovieResult};
use crate::url::{lookup_parameters, lookup_url, search_parameters, search_url, url_text};
use serde_json::Value;
use vstd::prelude::*;
use vstd::utf8::encode_utf8;

verus! {

/// A complete response for one title, as the API sends it. It stands in for
/// the network where none is at hand.
pub const MOVIE_FOUND_RESULT: &'static str = r#"
    {"Title":"The Matrix","Year":"1999","Rated":"R","Released":"31 Mar 1999","Runtime":"136 min","Genre":"Action, Sci-Fi","Director":"Lana Wachowski, Lilly Wachowski","Writer":"Lilly Wachowski, Lana Wachowski","Actors":"Keanu Reeves, Laurence Fishburne, Carrie-Anne Moss","Plot":"When a beautiful stranger leads computer hacker Neo to a forbidding underworld, he discovers the shocking truth--the life he knows is the elaborate deception of an evil cyber-intelligence.","Language":"English","Country":"United States, Australia","Awards":"Won 4 Oscars. 42 wins & 52 nominations total","Poster":"https://m.media-amazon.com/images/M/MV5BN2NmN2VhMTQtMDNiOS00NDlhLTliMjgtODE2ZTY0ODQyNDRhXkEyXkFqcGc@._V1_SX300.jpg","Ratings":[{"Source":"Internet Movie Database","Value":"8.7/10"},{"Source":"Rotten Tomatoes","Value":"83%"},{"Source":"Metacritic","Value":"73/100"}],"Metascore":"73","imdbRating":"8.7","imdbVotes":"2,124,695","imdbID":"tt0133093","Type":"movie","DVD":"N/A","BoxOffice":"$172,076,928","Production":"N/A","Website":"N/A","Response":"True"}
"#;

/// What a successful lookup hands back: exactly one of three shapes.
#[derive(Debug)]
pub enum OmdbResult {
    /// The typed record.
    MovieResult(MovieResult),
    /// The body as it was received.
    String(String),
    /// The parsed body.
    JsonValue(Value),
}

/// An `OmdbResult` with each text taken by its characters.
pub enum OmdbResultView {
    MovieResult(MovieRecord),
    String(Seq<char>),
    JsonValue(Value),
}

impl View for OmdbResult {
    type V = OmdbResultView;

    open spec fn view(&self) -> OmdbResultView {
        match *self {
            OmdbResult::MovieResult(m) => OmdbResultView::MovieResult(m@),
            OmdbResult::String(s) => OmdbResultView::String(s@),
            OmdbResult::JsonValue(v) => OmdbResultView::JsonValue(v),
        }
    }
}

impl OmdbResult {
    /// The record, where this is one.
    pub fn as_movie_result(self) -> (record: Option<MovieResult>)
        ensures
            match self {
                OmdbResult::MovieResult(m) => record == Some(m),
                _ => record is None,
            },
    {
        match self {
            OmdbResult::MovieResult(m) => Some(m),
            _ => None,
        }
    }

    /// The raw body, where this is one.
    pub fn as_string(self) -> (body: Option<String>)
        ensures
            match self {
                OmdbResult::String(s) => body == Some(s),
                _ => body is None,
            },
    {
        match self {
            OmdbResult::String(s) => Some(s),
            _ => None,
        }
    }

    /// The JSON value, where this is one.
    pub fn as_json_value(self) -> (value: Option<Value>)
        ensures
            match self {
                OmdbResult::JsonValue(v) => value == Some(v),
                _ => value is None,
            },
    {
        match self {
            OmdbResult::JsonValue(v) => Some(v),
            _ => None,
        }
    }
}

/// The outcome of a lookup with each text taken by its characters.
pub open spec fn outcome_view(outcome: Result<OmdbResult, OmdbError>) -> Result<
    OmdbResultView,
    OmdbErrorView,
> {
    match outcome {
        Ok(result) => Ok(result@),
        Err(error) => Err(error@),
    }
}

/// The endpoint that every client asks.
pub open spec fn endpoint() -> Seq<char> {
    "https://www.omdbapi.com"@
}

/// What is reported where the result format needs JSON and the response
/// format is another.
pub open spec fn incompatible_formats() -> Seq<char> {
    "Incompatible result and response format (json/xml)"@
}

/// Whether the API reports a failure in this body: its `Response` is the text
/// `False`.
pub open spec fn is_failure(body: Value) -> bool {
    json_text(json_index(body, "Response"@)) == Some("False"@)
}

/// The failure that a body reports, for a lookup of `subject`. Two messages
/// of the API are known and become an error that carries the subject. Any
/// other message is carried as it is. An `Error` that is no text, or is
/// missing, is carried as its JSON text.
pub open spec fn failure(body: Value, subject: Seq<char>) -> OmdbErrorView {
    let error = json_index(body, "Error"@);
    match json_text(error) {
        Some(message) => if message == "Movie not found!"@ {
            OmdbErrorView::TitleNotFound(subject)
        } else if message == "Incorrect IMDb ID."@ {
            OmdbErrorView::ImdbIdNotFound(subject)
        } else {
            OmdbErrorView::KeyError(message)
        },
        None => OmdbErrorView::KeyError(json_rendering(error)),
    }
}

/// A client of the API: an API key and the options of its lookups. Every
/// client asks the same endpoint.
pub struct OmdbApi {
    pub search_type: SearchType,
    pub plot_type: PlotType,
    pub response_format: ResponseFormat,
    pub result_format: ResultFormat,
    api_key: String,
    base_url: String,
}

/// What a client is configured with, its texts taken by their characters.
pub struct ClientConfig {
    pub search_type: SearchType,
    pub plot_type: PlotType,
    pub response_format: ResponseFormat,
    pub result_format: ResultFormat,
    pub api_key: Seq<char>,
}

impl ClientConfig {
    /// What a client with the given key starts with: it asks for movies with
    /// a short plot, in JSON, and hands back typed records.
    pub open spec fn initial(api_key: Seq<char>) -> ClientConfig {
        ClientConfig {
            search_type: SearchType::Movie,
            plot_type: PlotType::Short,
            response_format: ResponseFormat::Json,
            result_format: ResultFormat::SerdeJsonTyped,
            api_key,
        }
    }

    /// The parameters of a lookup by title: the title percent-encoded under
    /// `t`, and the qualifiers.
    pub open spec fn title_parameters(self, title: Seq<char>) -> Seq<Seq<char>> {
        lookup_parameters(
            self.api_key,
            "t"@,
            percent_encoded(encode_utf8(title)),
            self.search_type,
            self.plot_type,
            self.response_format,
        )
    }

    /// The parameters of a lookup by IMDb id: the id as it is under `i`, and
    /// the qualifiers.
    pub open spec fn imdb_id_parameters(self, imdb_id: Seq<char>) -> Seq<Seq<char>> {
        lookup_parameters(
            self.api_key,
            "i"@,
            imdb_id,
            self.search_type,
            self.plot_type,
            self.response_format,
        )
    }

    /// The parameters of a search: the term percent-encoded under `s`, and no
    /// qualifiers.
    pub open spec fn search_parameters(self, term: Seq<char>) -> Seq<Seq<char>> {
        search_parameters(self.api_key, percent_encoded(encode_utf8(term)))
    }

    /// What is made of a body that parsed to `parsed`, for a lookup of
    /// `subject`. A failure that the API reports comes first. Otherwise the
    /// result format decides: the raw body is handed back whatever the
    /// response format; the other two shapes need the response format to be
    /// JSON, and the typed record needs the value to be a record: one that is
    /// none is refused with the error that says why.
    pub open spec fn interpretation(
        self,
        parsed: Value,
        body: Seq<char>,
        subject: Seq<char>,
    ) -> Result<OmdbResultView, OmdbErrorView> {
        if is_failure(parsed) {
            Err(failure(parsed, subject))
        } else if self.result_format == ResultFormat::RawString {
            Ok(OmdbResultView::String(body))
        } else if self.response_format != ResponseFormat::Json {
            Err(OmdbErrorView::OtherError(incompatible_formats()))
        } else if self.result_format == ResultFormat::SerdeJsonValue {
            Ok(OmdbResultView::JsonValue(parsed))
        } else {
            match record_outcome(parsed) {
                Ok(record) => Ok(OmdbResultView::MovieResult(record)),
                Err(error) => Err(OmdbErrorView::SerdeJsonError(error)),
            }
        }
    }

    /// What is made of a response body, for a lookup of `subject`: a body
    /// that is not JSON is refused with the parser's error, and one that is
    /// JSON is interpreted.
    pub open spec fn response(self, body: Seq<char>, subject: Seq<char>) -> Result<
        OmdbResultView,
        OmdbErrorView,
    > {
        match json_parsed(body) {
            Ok(parsed) => self.interpretation(parsed, body, subject),
            Err(error) => Err(OmdbErrorView::SerdeJsonError(error)),
        }
    }
}

/// A typed record or a JSON value is never handed back while the response
/// format is XML: where the body reports no failure, the lookup fails and
/// says that the formats do not go together, whatever the body holds. A
/// failure that the body reports is reported first.
pub proof fn lemma_formats_must_agree(
    config: ClientConfig,
    parsed: Value,
    body: Seq<char>,
    subject: Seq<char>,
)
    requires
        config.response_format == ResponseFormat::Xml,
        config.result_format == ResultFormat::SerdeJsonTyped || config.result_format
            == ResultFormat::SerdeJsonValue,
        !is_failure(parsed),
    ensures
        config.interpretation(parsed, body, subject) == Err::<OmdbResultView, OmdbErrorView>(
            OmdbErrorView::OtherError(incompatible_formats()),
        ),
{
}

/// A result has the shape that the result format asks for, and no other.
pub proof fn lemma_shape_follows_format(
    config: ClientConfig,
    parsed: Value,
    body: Seq<char>,
    subject: Seq<char>,
)
    ensures
        match config.interpretation(parsed, body, subject) {
            Ok(OmdbResultView::MovieResult(_)) => config.result_format
                == ResultFormat::SerdeJsonTyped,
            Ok(OmdbResultView::String(text)) => config.result_format == ResultFormat::RawString
                && text == body,
            Ok(OmdbResultView::JsonValue(value)) => config.result_format
                == ResultFormat::SerdeJsonValue && value == parsed,
            Err(_) => true,
        },
{
}

impl View for OmdbApi {
    type V = ClientConfig;

    closed spec fn view(&self) -> ClientConfig {
        ClientConfig {
            search_type: self.search_type,
            plot_type: self.plot_type,
            response_format: self.response_format,
            result_format: self.result_format,
            api_key: self.api_key@,
        }
    }
}

impl Default for OmdbApi {
    /// A client without a key and with the default options.
    fn default() -> (api: OmdbApi)
        ensures
            api@ == ClientConfig::initial(Seq::empty()),
    {
        OmdbApi {
            search_type: SearchType::Movie,
            plot_type: PlotType::Short,
            response_format: ResponseFormat::Json,
            result_format: ResultFormat::SerdeJsonTyped,
            api_key: String::new(),
            base_url: "https://www.omdbapi.com".to_owned(),
        }
    }
}

impl OmdbApi {
    /// The base URL of a client is the endpoint, whatever was done to the
    /// client.
    #[verifier::type_invariant]
    spec fn asks_the_endpoint(&self) -> bool {
        self.base_url@ == endpoint()
    }

    /// A client with the given key and the default options.
    pub fn new(api_key: String) -> (api: OmdbApi)
        ensures
            api@ == ClientConfig::initial(api_key@),
    {
        OmdbApi {
            search_type: SearchType::Movie,
            plot_type: PlotType::Short,
            response_format: ResponseFormat::Json,
            result_format: ResultFormat::SerdeJsonTyped,
            api_key,
            base_url: "https://www.omdbapi.com".to_owned(),
        }
    }

    /// Restricts lookups to one kind of title.
    pub fn set_search_type(&mut self, search_type: SearchType)
        ensures
            final(self)@ == (ClientConfig { search_type, ..old(self)@ }),
    {
        proof {
            use_type_invariant(&*self);
        }
        self.search_type = search_type;
    }

    /// Chooses how much of the plot is asked for.
    pub fn set_plot_type(&mut self, plot_type: PlotType)
        ensures
            final(self)@ == (ClientConfig { plot_type, ..old(self)@ }),
    {
        proof {
            use_type_invariant(&*self);
        }
        self.plot_type = plot_type;
    }

    /// Chooses the encoding that the API is asked to answer in. Only JSON is
    /// supported: XML is refused with `NotImplemented`, at once and whatever
    /// the client is configured with, and leaves the client as it was.
    pub fn set_response_format(&mut self, response_format: ResponseFormat) -> (outcome: Result<
        (),
        OmdbError,
    >)
        ensures
            response_format == ResponseFormat::Xml ==> outcome == Err::<(), OmdbError>(
                OmdbError::NotImplemented,
            ),
            response_format == ResponseFormat::Xml ==> *final(self) == *old(self),
            response_format != ResponseFormat::Xml ==> outcome is Ok,
            response_format != ResponseFormat::Xml ==> final(self)@ == (ClientConfig {
                response_format,
                ..old(self)@
            }),
    {
        match response_format {
            ResponseFormat::Xml => Err(OmdbError::NotImplemented),
            ResponseFormat::Json => {
                proof {
                    use_type_invariant(&*self);
                }
                self.response_format = response_format;
                Ok(())
            },
        }
    }

    /// Chooses the shape in which results are handed back.
    pub fn set_result_format(&mut self, result_format: ResultFormat)
        ensures
            final(self)@ == (ClientConfig { result_format, ..old(self)@ }),
    {
        proof {
            use_type_invariant(&*self);
        }
        self.result_format = result_format;
    }

    /// The URL that looks a title up. The title may be any text: it is
    /// percent-encoded.
    pub fn title_url(&self, title: &str) -> (url: String)
        ensures
            url@ == url_text(endpoint(), self@.title_parameters(title@)),
    {
        proof {
            use_type_invariant(self);
        }
        let encoded = percent_encode(title);
        lookup_url(
            self.base_url.as_str(),
            self.api_key.as_str(),
            "t",
            encoded.as_str(),
            self.search_type,
            self.plot_type,
            self.response_format,
        )
    }

    /// The URL that looks an IMDb id up. The id is taken as safe for a URL and
    /// is not encoded.
    pub fn imdb_id_url(&self, imdb_id: &str) -> (url: String)
        ensures
            url@ == url_text(endpoint(), self@.imdb_id_parameters(imdb_id@)),
    {
        proof {
            use_type_invariant(self);
        }
        lookup_url(
            self.base_url.as_str(),
            self.api_key.as_str(),
            "i",
            imdb_id,
            self.search_type,
            self.plot_type,
            self.response_format,
        )
    }

    /// The URL that searches for titles. The term may be any text: it is
    /// percent-encoded. A search takes none of the client's qualifiers.
    pub fn search_url(&self, term: &str) -> (url: String)
        ensures
            url@ == url_text(endpoint(), self@.search_parameters(term@)),
    {
        proof {
            use_type_invariant(self);
        }
        let encoded = percent_encode(term);
        search_url(self.base_url.as_str(), self.api_key.as_str(), encoded.as_str())
    }

    /// The URL of a lookup by title with the title left as it is, for
    /// inspection. Nothing is asked of the API, and the call always succeeds.
    pub fn test_url(&self, title: String) -> (outcome: Result<OmdbResult, OmdbError>)
        ensures
            outcome_view(outcome) == Ok::<OmdbResultView, OmdbErrorView>(
                OmdbResultView::String(
                    url_text(
                        endpoint(),
                        lookup_parameters(
                            self@.api_key,
                            "t"@,
                            title@,
                            self@.search_type,
                            self@.plot_type,
                            self@.response_format,
                        ),
                    ),
                ),
            ),
    {
        proof {
            use_type_invariant(self);
        }
        let url = lookup_url(
            self.base_url.as_str(),
            self.api_key.as_str(),
            "t",
            title.as_str(),
            self.search_type,
            self.plot_type,
            self.response_format,
        );
        Ok(OmdbResult::String(url))
    }

    /// Classifies a parsed body and converts it to the configured shape.
    /// `body_str` is the text that `parsed` was parsed from, and
    /// `title_or_id` is what was looked up.
    pub fn interpret(&self, parsed: Value, body_str: String, title_or_id: String) -> (outcome:
        Result<OmdbResult, OmdbError>)
        ensures
            outcome_view(outcome) == self@.interpretation(parsed, body_str@, title_or_id@),
    {
        if is_text(index(&parsed, "Response"), "False") {
            let error = index(&parsed, "Error");
            if is_text(error, "Movie not found!") {
                Err(OmdbError::TitleNotFound(title_or_id))
            } else if is_text(error, "Incorrect IMDb ID.") {
                Err(OmdbError::ImdbIdNotFound(title_or_id))
            } else {
                match as_str(error) {
                    Some(message) => Err(OmdbError::KeyError(message.to_owned())),
                    None => Err(OmdbError::KeyError(render(error))),
                }
            }
        } else {
            match self.result_format {
                ResultFormat::RawString => Ok(OmdbResult::String(body_str)),
                ResultFormat::SerdeJsonValue => {
                    match self.response_format {
                        ResponseFormat::Json => Ok(OmdbResult::JsonValue(parsed)),
                        ResponseFormat::Xml => Err(
                            OmdbError::OtherError(
                                "Incompatible result and response format (json/xml)".to_owned(),
                            ),
                        ),
                    }
                },
                ResultFormat::SerdeJsonTyped => {
                    match self.response_format {
                        ResponseFormat::Json => {
                            match MovieResult::from_json(&parsed) {
                                Ok(record) => Ok(OmdbResult::MovieResult(record)),
                                Err(error) => Err(error),
                            }
                        },
                        ResponseFormat::Xml => Err(
                            OmdbError::OtherError(
                                "Incompatible result and response format (json/xml)".to_owned(),
                            ),
                        ),
                    }
                },
            }
        }
    }

    /// Interprets a response body for a lookup of `title_or_id`.
    pub fn parse_response(&self, body_str: String, title_or_id: String) -> (outcome: Result<
        OmdbResult,
        OmdbError,
    >)
        ensures
            outcome_view(outcome) == self@.response(body_str@, title_or_id@),
    {
        match parse(body_str.as_str()) {
            Ok(parsed) => self.interpret(parsed, body_str, title_or_id),
            Err(error) => Err(OmdbError::SerdeJsonError(error)),
        }
    }

    /// Interprets the built-in example body as the answer to a lookup of
    /// `The Matrix`, without any network access.
    pub fn get_example(&self) -> (outcome: Result<OmdbResult, OmdbError>)
        ensures
            outcome_view(outcome) == self@.response(MOVIE_FOUND_RESULT@, "The Matrix"@),
    {
        self.parse_response(MOVIE_FOUND_RESULT.to_owned(), "The Matrix".to_owned())
    }
}

} // verus!
