use omdb_api::{OmdbApi, OmdbError, OmdbResult, ResponseFormat, ResultFormat, MOVIE_FOUND_RESULT};

const NOT_FOUND: &str = r#"{"Response":"False","Error":"Movie not found!"}"#;
const INCORRECT_ID: &str = r#"{"Response":"False","Error":"Incorrect IMDb ID."}"#;
const INVALID_API_KEY: &str = r#"{"Response":"False","Error":"Invalid API key!"}"#;
const NO_API_KEY: &str = r#"{"Response":"False","Error":"No API key provided."}"#;

fn client(result_format: ResultFormat) -> OmdbApi {
    let mut api = OmdbApi::new("key".into());
    api.set_result_format(result_format);
    api
}

fn all_formats() -> [ResultFormat; 3] {
    [
        ResultFormat::SerdeJsonTyped,
        ResultFormat::SerdeJsonValue,
        ResultFormat::RawString,
    ]
}

#[test]
fn fixture_gives_a_typed_record() {
    let api = client(ResultFormat::SerdeJsonTyped);
    let record = api
        .parse_response(MOVIE_FOUND_RESULT.into(), "The Matrix".into())
        .unwrap()
        .as_movie_result()
        .unwrap();
    assert_eq!(record.imdb_id, "tt0133093");
    assert_eq!(record.picture_type, "movie");
    assert_eq!(record.genre, vec!["Action", " Sci-Fi"]);
    assert_eq!(record.title, "The Matrix");
    assert_eq!(record.year, "1999");
    assert_eq!(record.rated, "R");
    assert_eq!(record.released, "31 Mar 1999");
    assert_eq!(record.runtime, "136 min");
    assert_eq!(record.director, vec!["Lana Wachowski", " Lilly Wachowski"]);
    assert_eq!(
        record.actors,
        vec!["Keanu Reeves", " Laurence Fishburne", " Carrie-Anne Moss"]
    );
    assert!(record.plot.starts_with("When a beautiful stranger"));
    assert_eq!(record.language, "English");
    assert_eq!(record.country, "United States, Australia");
    assert_eq!(record.awards, "Won 4 Oscars. 42 wins & 52 nominations total");
    assert!(record.poster.starts_with("https://m.media-amazon.com/"));
    assert_eq!(record.metascore, "73");
    assert_eq!(record.imdb_rating, "8.7");
    assert_eq!(record.imdb_votes, "2,124,695");
    assert_eq!(record.dvd, "N/A");
    assert_eq!(record.box_office, "$172,076,928");
    assert_eq!(record.production, "N/A");
    assert_eq!(record.website, "N/A");
}

#[test]
fn get_example_replays_the_fixture() {
    let api = client(ResultFormat::SerdeJsonTyped);
    let record = api.get_example().unwrap().as_movie_result().unwrap();
    assert_eq!(record.imdb_id, "tt0133093");
    assert_eq!(record.title, "The Matrix");

    let api = client(ResultFormat::RawString);
    assert_eq!(
        api.get_example().unwrap().as_string().unwrap(),
        MOVIE_FOUND_RESULT
    );
}

#[test]
fn raw_format_hands_the_body_back_verbatim() {
    let api = client(ResultFormat::RawString);
    let body = " {\"Title\" :  \"x\" }\n";
    let outcome = api.parse_response(body.into(), "x".into()).unwrap();
    assert_eq!(outcome.as_string().unwrap(), body);
}

#[test]
fn value_format_hands_the_parsed_body_back() {
    let api = client(ResultFormat::SerdeJsonValue);
    let value = api
        .parse_response(MOVIE_FOUND_RESULT.into(), "The Matrix".into())
        .unwrap()
        .as_json_value()
        .unwrap();
    let expected: serde_json::Value = serde_json::from_str(MOVIE_FOUND_RESULT).unwrap();
    assert_eq!(value, expected);
    assert_eq!(value["imdbID"], "tt0133093");
    assert_eq!(value["Ratings"][1]["Value"], "83%");
}

#[test]
fn the_shape_is_the_one_that_was_asked_for() {
    for format in all_formats() {
        let outcome = client(format)
            .parse_response(MOVIE_FOUND_RESULT.into(), "The Matrix".into())
            .unwrap();
        match (format, outcome) {
            (ResultFormat::SerdeJsonTyped, OmdbResult::MovieResult(_)) => {}
            (ResultFormat::SerdeJsonValue, OmdbResult::JsonValue(_)) => {}
            (ResultFormat::RawString, OmdbResult::String(_)) => {}
            _ => panic!("the shape does not follow the format"),
        }
    }
}

#[test]
fn accessors_give_only_their_own_shape() {
    let typed = client(ResultFormat::SerdeJsonTyped).get_example().unwrap();
    assert!(typed.as_string().is_none());
    let typed = client(ResultFormat::SerdeJsonTyped).get_example().unwrap();
    assert!(typed.as_json_value().is_none());
    let raw = client(ResultFormat::RawString).get_example().unwrap();
    assert!(raw.as_movie_result().is_none());
    let raw = client(ResultFormat::RawString).get_example().unwrap();
    assert!(raw.as_json_value().is_none());
    let value = client(ResultFormat::SerdeJsonValue).get_example().unwrap();
    assert!(value.as_movie_result().is_none());
    let value = client(ResultFormat::SerdeJsonValue).get_example().unwrap();
    assert!(value.as_string().is_none());
}

#[test]
fn movie_not_found_carries_the_title() {
    for format in all_formats() {
        let outcome = client(format).parse_response(NOT_FOUND.into(), "Nonexistent Film".into());
        match outcome {
            Err(OmdbError::TitleNotFound(title)) => assert_eq!(title, "Nonexistent Film"),
            other => panic!("expected TitleNotFound, got {:?}", other),
        }
    }
}

#[test]
fn incorrect_id_carries_the_id() {
    for format in all_formats() {
        let outcome = client(format).parse_response(INCORRECT_ID.into(), "tt0000000x".into());
        match outcome {
            Err(OmdbError::ImdbIdNotFound(id)) => assert_eq!(id, "tt0000000x"),
            other => panic!("expected ImdbIdNotFound, got {:?}", other),
        }
    }
}

#[test]
fn invalid_api_key_carries_the_message() {
    for format in all_formats() {
        let outcome = client(format).parse_response(INVALID_API_KEY.into(), "x".into());
        match outcome {
            Err(OmdbError::KeyError(message)) => assert_eq!(message, "Invalid API key!"),
            other => panic!("expected KeyError, got {:?}", other),
        }
    }
}

#[test]
fn any_other_message_is_carried_as_it_is() {
    let api = client(ResultFormat::SerdeJsonTyped);
    match api.parse_response(NO_API_KEY.into(), "x".into()) {
        Err(OmdbError::KeyError(message)) => assert_eq!(message, "No API key provided."),
        other => panic!("expected KeyError, got {:?}", other),
    }
    match api.parse_response(r#"{"Response":"False","Error":""}"#.into(), "x".into()) {
        Err(OmdbError::KeyError(message)) => assert_eq!(message, ""),
        other => panic!("expected KeyError, got {:?}", other),
    }
    match api.parse_response(
        r#"{"Response":"False","Error":"say \"hi\""}"#.into(),
        "x".into(),
    ) {
        Err(OmdbError::KeyError(message)) => assert_eq!(message, "say \"hi\""),
        other => panic!("expected KeyError, got {:?}", other),
    }
}

#[test]
fn an_error_that_is_no_text_is_carried_as_json_text() {
    let api = client(ResultFormat::SerdeJsonTyped);
    match api.parse_response(r#"{"Response":"False"}"#.into(), "x".into()) {
        Err(OmdbError::KeyError(message)) => assert_eq!(message, "null"),
        other => panic!("expected KeyError, got {:?}", other),
    }
    match api.parse_response(r#"{"Response":"False","Error":{"code":7}}"#.into(), "x".into()) {
        Err(OmdbError::KeyError(message)) => assert_eq!(message, "{\"code\":7}"),
        other => panic!("expected KeyError, got {:?}", other),
    }
    match api.parse_response(r#"{"Response":"False","Error":["a",1.5]}"#.into(), "x".into()) {
        Err(OmdbError::KeyError(message)) => assert_eq!(message, "[\"a\",1.5]"),
        other => panic!("expected KeyError, got {:?}", other),
    }
}

#[test]
fn only_the_text_false_is_a_failure() {
    let api = client(ResultFormat::RawString);
    for body in [
        r#"{"Response":"True","Error":"Movie not found!"}"#,
        r#"{"Response":false,"Error":"Movie not found!"}"#,
        r#"{"Response":"false","Error":"Movie not found!"}"#,
        r#"{"Error":"Movie not found!"}"#,
        r#"["Response","False"]"#,
        r#""False""#,
    ] {
        let outcome = api.parse_response(body.into(), "x".into()).unwrap();
        assert_eq!(outcome.as_string().unwrap(), body);
    }
}

#[test]
fn a_body_that_is_not_json_is_refused() {
    for format in all_formats() {
        for body in ["", "not json", "{\"Response\":", "{} trailing", "{'a':1}"] {
            match client(format).parse_response(body.into(), "x".into()) {
                Err(OmdbError::SerdeJsonError(error)) => {
                    let expected = serde_json::from_str::<serde_json::Value>(body).unwrap_err();
                    assert_eq!(error.to_string(), expected.to_string());
                }
                other => panic!("expected SerdeJsonError, got {:?}", other),
            }
        }
    }
}

#[test]
fn xml_goes_with_neither_typed_nor_value() {
    for format in [ResultFormat::SerdeJsonTyped, ResultFormat::SerdeJsonValue] {
        let mut api = client(format);
        api.response_format = ResponseFormat::Xml;
        for body in [MOVIE_FOUND_RESULT, "{}", "[]", "7", r#"{"Title":null}"#] {
            match api.parse_response(body.into(), "The Matrix".into()) {
                Err(OmdbError::OtherError(message)) => assert_eq!(
                    message,
                    "Incompatible result and response format (json/xml)"
                ),
                other => panic!("expected OtherError, got {:?}", other),
            }
        }
    }
}

#[test]
fn xml_goes_with_the_raw_body() {
    let mut api = client(ResultFormat::RawString);
    api.response_format = ResponseFormat::Xml;
    let outcome = api
        .parse_response(MOVIE_FOUND_RESULT.into(), "The Matrix".into())
        .unwrap();
    assert_eq!(outcome.as_string().unwrap(), MOVIE_FOUND_RESULT);
}

#[test]
fn a_reported_failure_comes_before_the_format_check() {
    let mut api = client(ResultFormat::SerdeJsonTyped);
    api.response_format = ResponseFormat::Xml;
    match api.parse_response(NOT_FOUND.into(), "Nonexistent Film".into()) {
        Err(OmdbError::TitleNotFound(title)) => assert_eq!(title, "Nonexistent Film"),
        other => panic!("expected TitleNotFound, got {:?}", other),
    }
    match api.parse_response("nonsense".into(), "x".into()) {
        Err(OmdbError::SerdeJsonError(_)) => {}
        other => panic!("expected SerdeJsonError, got {:?}", other),
    }
}

#[test]
fn interpret_takes_a_parsed_body() {
    let api = client(ResultFormat::SerdeJsonTyped);
    let parsed: serde_json::Value = serde_json::from_str(NOT_FOUND).unwrap();
    match api.interpret(parsed, NOT_FOUND.into(), "Nonexistent Film".into()) {
        Err(OmdbError::TitleNotFound(title)) => assert_eq!(title, "Nonexistent Film"),
        other => panic!("expected TitleNotFound, got {:?}", other),
    }
    let parsed: serde_json::Value = serde_json::from_str(r#"{"imdbID":"tt1"}"#).unwrap();
    let record = api
        .interpret(parsed, "anything".into(), "x".into())
        .unwrap()
        .as_movie_result()
        .unwrap();
    assert_eq!(record.imdb_id, "tt1");
    let api = client(ResultFormat::RawString);
    let parsed: serde_json::Value = serde_json::from_str("{}").unwrap();
    let outcome = api.interpret(parsed, "the body".into(), "x".into()).unwrap();
    assert_eq!(outcome.as_string().unwrap(), "the body");
}
