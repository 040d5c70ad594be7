use omdb_api::{OmdbApi, OmdbResult, PlotType, SearchType};
use percent_encoding::percent_decode_str;

fn parameters(url: &str) -> Vec<String> {
    let query = url.split_once("/?").unwrap().1;
    query.split('&').map(|p| p.to_string()).collect()
}

fn occurrences(url: &str, name: &str) -> usize {
    let prefix = format!("{}=", name);
    parameters(url)
        .iter()
        .filter(|p| p.starts_with(&prefix))
        .count()
}

#[test]
fn title_url_is_exact() {
    let api = OmdbApi::new("123".into());
    assert_eq!(
        api.title_url("this and that mc'ones {123}"),
        "https://www.omdbapi.com/?apikey=123&t=this%20and%20that%20mc%27ones%20%7B123%7D&type=movie&plot=short&r=json"
    );
}

#[test]
fn imdb_id_url_is_exact_and_not_encoded() {
    let api = OmdbApi::new("123".into());
    assert_eq!(
        api.imdb_id_url("tt0133093"),
        "https://www.omdbapi.com/?apikey=123&i=tt0133093&type=movie&plot=short&r=json"
    );
    assert_eq!(
        api.imdb_id_url("tt 1"),
        "https://www.omdbapi.com/?apikey=123&i=tt 1&type=movie&plot=short&r=json"
    );
}

#[test]
fn search_url_is_exact_and_takes_no_qualifiers() {
    let mut api = OmdbApi::new("123".into());
    api.set_search_type(SearchType::Series);
    api.set_plot_type(PlotType::Full);
    assert_eq!(
        api.search_url("the matrix"),
        "https://www.omdbapi.com/?apikey=123&s=the%20matrix"
    );
}

#[test]
fn url_follows_the_options() {
    let mut api = OmdbApi::new("k".into());
    api.set_search_type(SearchType::Episode);
    api.set_plot_type(PlotType::Full);
    assert_eq!(
        api.title_url("a"),
        "https://www.omdbapi.com/?apikey=k&t=a&type=episode&plot=full&r=json"
    );
    api.set_search_type(SearchType::Series);
    api.set_plot_type(PlotType::Short);
    assert_eq!(
        api.imdb_id_url("tt1"),
        "https://www.omdbapi.com/?apikey=k&i=tt1&type=series&plot=short&r=json"
    );
}

#[test]
fn empty_title_gives_an_empty_value() {
    let api = OmdbApi::new("k".into());
    assert_eq!(
        api.title_url(""),
        "https://www.omdbapi.com/?apikey=k&t=&type=movie&plot=short&r=json"
    );
    assert_eq!(api.search_url(""), "https://www.omdbapi.com/?apikey=k&s=");
}

#[test]
fn each_mode_has_its_parameters_once() {
    let api = OmdbApi::new("secret=key".into());
    let by_title = api.title_url("t=1&i=2&s=3&type=x&plot=y&r=z");
    assert_eq!(occurrences(&by_title, "t"), 1);
    assert_eq!(occurrences(&by_title, "i"), 0);
    assert_eq!(occurrences(&by_title, "s"), 0);
    assert_eq!(occurrences(&by_title, "type"), 1);
    assert_eq!(occurrences(&by_title, "plot"), 1);
    assert_eq!(occurrences(&by_title, "r"), 1);
    assert_eq!(parameters(&by_title).len(), 5);

    let by_id = api.imdb_id_url("tt0133093");
    assert_eq!(occurrences(&by_id, "i"), 1);
    assert_eq!(occurrences(&by_id, "t"), 0);
    assert_eq!(occurrences(&by_id, "s"), 0);
    assert_eq!(occurrences(&by_id, "type"), 1);
    assert_eq!(occurrences(&by_id, "plot"), 1);
    assert_eq!(occurrences(&by_id, "r"), 1);

    let search = api.search_url("type=movie&plot=full&r=xml");
    assert_eq!(occurrences(&search, "s"), 1);
    assert_eq!(occurrences(&search, "t"), 0);
    assert_eq!(occurrences(&search, "i"), 0);
    assert_eq!(occurrences(&search, "type"), 0);
    assert_eq!(occurrences(&search, "plot"), 0);
    assert_eq!(occurrences(&search, "r"), 0);
    assert_eq!(parameters(&search).len(), 2);
}

#[test]
fn a_key_with_an_ampersand_keeps_the_counts_unless_it_adds_a_name() {
    let api = OmdbApi::new("a&b=c&apikey=d&types=e&".into());
    let by_title = api.title_url("x");
    assert_eq!(parameters(&by_title).len(), 9);
    assert_eq!(occurrences(&by_title, "t"), 1);
    assert_eq!(occurrences(&by_title, "i"), 0);
    assert_eq!(occurrences(&by_title, "s"), 0);
    assert_eq!(occurrences(&by_title, "type"), 1);
    assert_eq!(occurrences(&by_title, "plot"), 1);
    assert_eq!(occurrences(&by_title, "r"), 1);
    let search = api.search_url("x");
    assert_eq!(occurrences(&search, "s"), 1);
    assert_eq!(occurrences(&search, "type"), 0);

    let api = OmdbApi::new("a&type=series".into());
    assert_eq!(occurrences(&api.title_url("x"), "type"), 2);
    assert_eq!(occurrences(&api.search_url("x"), "type"), 1);
    let api = OmdbApi::new("a".into());
    assert_eq!(occurrences(&api.imdb_id_url("tt1&t=x"), "t"), 1);
    assert_eq!(occurrences(&api.imdb_id_url("tt1&u=x"), "t"), 0);
    assert_eq!(occurrences(&api.imdb_id_url("tt1&u=x"), "i"), 1);
}

#[test]
fn encoded_title_decodes_to_the_title() {
    let api = OmdbApi::new("123".into());
    for title in [
        "this and that mc'ones {123}",
        "a b",
        "it's",
        "{}",
        "100% & more = less?",
        "Am\u{e9}lie",
        "\u{4e03}\u{4eba}\u{306e}\u{4f8d}",
        "%41",
        "",
    ] {
        let url = api.title_url(title);
        let encoded = parameters(&url)[1].strip_prefix("t=").unwrap().to_string();
        assert!(encoded
            .chars()
            .all(|c| c.is_ascii_alphanumeric() || c == '%'));
        assert_eq!(percent_decode_str(&encoded).decode_utf8().unwrap(), title);

        let url = api.search_url(title);
        let encoded = parameters(&url)[1].strip_prefix("s=").unwrap().to_string();
        assert_eq!(percent_decode_str(&encoded).decode_utf8().unwrap(), title);
    }
}

#[test]
fn bytes_are_written_in_upper_case_hex() {
    let api = OmdbApi::new("k".into());
    assert_eq!(
        api.search_url("-_.~"),
        "https://www.omdbapi.com/?apikey=k&s=%2D%5F%2E%7E"
    );
    assert_eq!(
        api.search_url("\u{e9}\n\u{7f}"),
        "https://www.omdbapi.com/?apikey=k&s=%C3%A9%0A%7F"
    );
    assert_eq!(
        api.search_url("azAZ09"),
        "https://www.omdbapi.com/?apikey=k&s=azAZ09"
    );
    assert_eq!(
        api.search_url("/:@[`{"),
        "https://www.omdbapi.com/?apikey=k&s=%2F%3A%40%5B%60%7B"
    );
}

#[test]
fn test_url_leaves_the_title_as_it_is() {
    let api = OmdbApi::new("123".into());
    let outcome = api.test_url("the matrix".into()).unwrap();
    match outcome {
        OmdbResult::String(url) => assert_eq!(
            url,
            "https://www.omdbapi.com/?apikey=123&t=the matrix&type=movie&plot=short&r=json"
        ),
        _ => panic!("expected a text"),
    }
}

#[test]
fn option_words() {
    assert_eq!(SearchType::Movie.as_str(), "movie");
    assert_eq!(SearchType::Series.as_str(), "series");
    assert_eq!(SearchType::Episode.as_str(), "episode");
    assert_eq!(PlotType::Short.as_str(), "short");
    assert_eq!(PlotType::Full.as_str(), "full");
    assert_eq!(omdb_api::ResponseFormat::Json.as_str(), "json");
    assert_eq!(omdb_api::ResponseFormat::Xml.as_str(), "xml");
}
