use omdb_api::{OmdbApi, PlotType, ResultFormat, MOVIE_FOUND_RESULT};
use percent_encoding::{utf8_percent_encode, NON_ALPHANUMERIC};

#[test]
fn test_get_by_id() {}

#[test]
fn test_json_types() {
    let mut o = OmdbApi::new("key".into());
    o.set_plot_type(PlotType::Full);
    o.set_result_format(ResultFormat::SerdeJsonTyped);
    let _r = o
        .parse_response(MOVIE_FOUND_RESULT.into(), "The Matrix".into())
        .unwrap();
    println!("m parse test: {:?}", _r.as_movie_result().unwrap());
    o.set_result_format(ResultFormat::RawString);
    let _r = o
        .parse_response(MOVIE_FOUND_RESULT.into(), "The Matrix".into())
        .unwrap();
    println!("m parse test: {:?}", _r.as_string().unwrap());
    o.set_result_format(ResultFormat::SerdeJsonValue);
    let _r = o
        .parse_response(MOVIE_FOUND_RESULT.into(), "The Matrix".into())
        .unwrap();
    println!("m parse test: {:?}", _r.as_json_value().unwrap());
}

#[test]
fn de_and_se_test() {
    let mut o = OmdbApi::new("key".into());
    o.set_result_format(ResultFormat::SerdeJsonTyped);
    let _r = o
        .parse_response(MOVIE_FOUND_RESULT.into(), "The Matrix".into())
        .unwrap()
        .as_movie_result()
        .unwrap();
    println!("parsed movie struct: \n{:?}", _r);
    let mut object = serde_json::Map::new();
    for (name, text) in _r.output_fields() {
        object.insert(name, serde_json::Value::String(text));
    }
    let json = serde_json::to_string(&serde_json::Value::Object(object));
    println!("back to json: \n{:?}", json);
}

#[test]
fn encode_url() {
    let _url = format!(
        "{}/?apikey={}&t={}&type={}&plot={}&r={}",
        "https://www.omdbapi.com",
        "123",
        "this and that mc'ones {123}",
        "r",
        "short",
        "josn",
    );
    let title = "this and that mc'ones {123}";
    let url_encoded = utf8_percent_encode(&title, NON_ALPHANUMERIC).to_string();
    println!("encoded: {}", url_encoded);
}
