//! The movie record and the rules that map a JSON value onto it.
//!
//! On the wire a record is a JSON object whose members are texts under fixed
//! mixed-case names. Every member is optional. Three of them hold a list as
//! one text with `,` between the entries.

use crate::error::OmdbError;
use crate::json::{as_array, custom_error, get, is_object, read_string};
use crate::json::{json_custom_error, json_string_error};
use crate::json::{json_elements, json_is_object, json_members, json_text};
use crate::text::{join, join_comma, lemma_join_split, split, split_comma};
use serde_json::Value;
use vstd::prelude::*;

verus! {

/// What the API knows of one title. A field that the API did not send is
/// empty.
#[derive(Debug)]
pub struct MovieResult {
    pub title: String,
    pub year: String,
    pub rated: String,
    pub released: String,
    pub runtime: String,
    pub genre: Vec<String>,
    pub director: Vec<String>,
    pub actors: Vec<String>,
    pub plot: String,
    pub language: String,
    pub country: String,
    pub awards: String,
    pub poster: String,
    pub metascore: String,
    pub imdb_rating: String,
    pub imdb_votes: String,
    pub imdb_id: String,
    pub picture_type: String,
    pub dvd: String,
    pub box_office: String,
    pub production: String,
    pub website: String,
}

/// A `MovieResult` with each text taken by its characters.
pub struct MovieRecord {
    pub title: Seq<char>,
    pub year: Seq<char>,
    pub rated: Seq<char>,
    pub released: Seq<char>,
    pub runtime: Seq<char>,
    pub genre: Seq<Seq<char>>,
    pub director: Seq<Seq<char>>,
    pub actors: Seq<Seq<char>>,
    pub plot: Seq<char>,
    pub language: Seq<char>,
    pub country: Seq<char>,
    pub awards: Seq<char>,
    pub poster: Seq<char>,
    pub metascore: Seq<char>,
    pub imdb_rating: Seq<char>,
    pub imdb_votes: Seq<char>,
    pub imdb_id: Seq<char>,
    pub picture_type: Seq<char>,
    pub dvd: Seq<char>,
    pub box_office: Seq<char>,
    pub production: Seq<char>,
    pub website: Seq<char>,
}

impl View for MovieResult {
    type V = MovieRecord;

    open spec fn view(&self) -> MovieRecord {
        MovieRecord {
            title: self.title@,
            year: self.year@,
            rated: self.rated@,
            released: self.released@,
            runtime: self.runtime@,
            genre: self.genre.deep_view(),
            director: self.director.deep_view(),
            actors: self.actors.deep_view(),
            plot: self.plot@,
            language: self.language@,
            country: self.country@,
            awards: self.awards@,
            poster: self.poster@,
            metascore: self.metascore@,
            imdb_rating: self.imdb_rating@,
            imdb_votes: self.imdb_votes@,
            imdb_id: self.imdb_id@,
            picture_type: self.picture_type@,
            dvd: self.dvd@,
            box_office: self.box_office@,
            production: self.production@,
            website: self.website@,
        }
    }
}

/// The number of fields of a record.
pub const FIELD_COUNT: usize = 22;

/// The name under which the API sends each field, in the order of the fields
/// of `MovieResult`.
pub open spec fn wire_names() -> Seq<Seq<char>> {
    seq![
        "Title"@,
        "Year"@,
        "Rated"@,
        "Released"@,
        "Runtime"@,
        "Genre"@,
        "Director"@,
        "Actors"@,
        "Plot"@,
        "Language"@,
        "Country"@,
        "Awards"@,
        "Poster"@,
        "Metascore"@,
        "imdbRating"@,
        "imdbVotes"@,
        "imdbID"@,
        "Type"@,
        "DVD"@,
        "BoxOffice"@,
        "Production"@,
        "Website"@,
    ]
}

/// What a field of the record finds in a JSON value.
pub enum Slot {
    /// Nothing was sent for the field.
    Missing,
    /// A JSON string with this text.
    Text(Seq<char>),
    /// Something that is no JSON string.
    Other,
}

/// A member or element read as a slot.
pub open spec fn slot_of(value: Value) -> Slot {
    match json_text(value) {
        Some(text) => Slot::Text(text),
        None => Slot::Other,
    }
}

/// The value that field `i` finds in `value`: in an object the member under
/// the field's wire name, in an array the element at the field's position;
/// `None` where there is none.
pub open spec fn member(value: Value, i: int) -> Option<Value> {
    if json_is_object(value) {
        let name = wire_names()[i];
        if json_members(value).contains_key(name) {
            Some(json_members(value)[name])
        } else {
            None
        }
    } else {
        match json_elements(value) {
            Some(elements) => if i < elements.len() {
                Some(elements[i])
            } else {
                None
            },
            None => None,
        }
    }
}

/// What field `i` finds in `value`.
pub open spec fn slot(value: Value, i: int) -> Slot {
    match member(value, i) {
        Some(found) => slot_of(found),
        None => Slot::Missing,
    }
}

/// The first field at or after `from` that finds something other than a text;
/// `FIELD_COUNT` where there is none.
pub open spec fn first_other(value: Value, from: int) -> int
    decreases FIELD_COUNT - from,
{
    if from >= FIELD_COUNT {
        FIELD_COUNT as int
    } else if slot(value, from) is Other {
        from
    } else {
        first_other(value, from + 1)
    }
}

/// The text each field finds in `value`, `None` where it finds nothing.
pub open spec fn found(value: Value) -> Seq<Option<Seq<char>>> {
    Seq::new(
        FIELD_COUNT as nat,
        |i: int|
            match slot(value, i) {
                Slot::Text(text) => Some(text),
                _ => None,
            },
    )
}

/// A field that holds one text: the text that was sent, else empty.
pub open spec fn scalar(text: Option<Seq<char>>) -> Seq<char> {
    match text {
        Some(t) => t,
        None => Seq::empty(),
    }
}

/// A field that holds a list: the pieces of the text that was sent, split at
/// each `,` and not trimmed; no entries where nothing was sent.
pub open spec fn list(text: Option<Seq<char>>) -> Seq<Seq<char>> {
    match text {
        Some(t) => split(t, ','),
        None => Seq::empty(),
    }
}

/// The record made of the texts that the fields found.
pub open spec fn record_of(texts: Seq<Option<Seq<char>>>) -> MovieRecord {
    MovieRecord {
        title: scalar(texts[0]),
        year: scalar(texts[1]),
        rated: scalar(texts[2]),
        released: scalar(texts[3]),
        runtime: scalar(texts[4]),
        genre: list(texts[5]),
        director: list(texts[6]),
        actors: list(texts[7]),
        plot: scalar(texts[8]),
        language: scalar(texts[9]),
        country: scalar(texts[10]),
        awards: scalar(texts[11]),
        poster: scalar(texts[12]),
        metascore: scalar(texts[13]),
        imdb_rating: scalar(texts[14]),
        imdb_votes: scalar(texts[15]),
        imdb_id: scalar(texts[16]),
        picture_type: scalar(texts[17]),
        dvd: scalar(texts[18]),
        box_office: scalar(texts[19]),
        production: scalar(texts[20]),
        website: scalar(texts[21]),
    }
}

/// What a record is written out as: for each field its name in output, which
/// is the name of the field in `MovieResult`, and its text, a list with `,`
/// between its entries.
pub open spec fn output_of(record: MovieRecord) -> Seq<(Seq<char>, Seq<char>)> {
    seq![
        ("title"@, record.title),
        ("year"@, record.year),
        ("rated"@, record.rated),
        ("released"@, record.released),
        ("runtime"@, record.runtime),
        ("genre"@, join(record.genre, ',')),
        ("director"@, join(record.director, ',')),
        ("actors"@, join(record.actors, ',')),
        ("plot"@, record.plot),
        ("language"@, record.language),
        ("country"@, record.country),
        ("awards"@, record.awards),
        ("poster"@, record.poster),
        ("metascore"@, record.metascore),
        ("imdb_rating"@, record.imdb_rating),
        ("imdb_votes"@, record.imdb_votes),
        ("imdb_id"@, record.imdb_id),
        ("picture_type"@, record.picture_type),
        ("dvd"@, record.dvd),
        ("box_office"@, record.box_office),
        ("production"@, record.production),
        ("website"@, record.website),
    ]
}

/// The complaint about a value that is neither an object nor an array.
pub open spec fn not_a_record() -> Seq<char> {
    "invalid type: expected struct MovieResult"@
}

/// The complaint about an array with more elements than a record has fields.
pub open spec fn too_many_values() -> Seq<char> {
    "invalid length: expected fewer elements in array"@
}

/// The record that `value` stands for, or the error that reports the first
/// thing that keeps it from being one. An object is read by member names, and
/// members under other names are ignored; an array is read by position. A
/// field that finds nothing is empty. A field that finds something other than
/// a text is at fault, the earliest such field first, and the error is the
/// type error of what it found.
pub open spec fn record_outcome(value: Value) -> Result<MovieRecord, serde_json::Error> {
    if !json_is_object(value) && json_elements(value) is None {
        Err(json_custom_error(not_a_record()))
    } else if first_other(value, 0) < FIELD_COUNT {
        Err(json_string_error(member(value, first_other(value, 0))->0))
    } else if !json_is_object(value) && json_elements(value)->0.len() > FIELD_COUNT {
        Err(json_custom_error(too_many_values()))
    } else {
        Ok(record_of(found(value)))
    }
}

/// The wire name of field `i`.
fn wire_name(i: usize) -> (name: &'static str)
    requires
        i < FIELD_COUNT,
    ensures
        name@ == wire_names()[i as int],
{
    if i == 0 {
        "Title"
    } else if i == 1 {
        "Year"
    } else if i == 2 {
        "Rated"
    } else if i == 3 {
        "Released"
    } else if i == 4 {
        "Runtime"
    } else if i == 5 {
        "Genre"
    } else if i == 6 {
        "Director"
    } else if i == 7 {
        "Actors"
    } else if i == 8 {
        "Plot"
    } else if i == 9 {
        "Language"
    } else if i == 10 {
        "Country"
    } else if i == 11 {
        "Awards"
    } else if i == 12 {
        "Poster"
    } else if i == 13 {
        "Metascore"
    } else if i == 14 {
        "imdbRating"
    } else if i == 15 {
        "imdbVotes"
    } else if i == 16 {
        "imdbID"
    } else if i == 17 {
        "Type"
    } else if i == 18 {
        "DVD"
    } else if i == 19 {
        "BoxOffice"
    } else if i == 20 {
        "Production"
    } else {
        "Website"
    }
}

fn scalar_field(text: &Option<String>) -> (field: String)
    ensures
        field@ == scalar(text.deep_view()),
{
    match text {
        Some(t) => t.clone(),
        None => String::new(),
    }
}

fn list_field(text: &Option<String>) -> (field: Vec<String>)
    ensures
        field.deep_view() == list(text.deep_view()),
{
    match text {
        Some(t) => split_comma(t.as_str()),
        None => {
            let field: Vec<String> = Vec::new();
            assert(field.deep_view() == Seq::<Seq<char>>::empty());
            field
        },
    }
}

impl MovieResult {
    /// Converts a parsed body into a record by the field-mapping rules that
    /// `record_outcome` states. A value that is no record is refused with a
    /// `SerdeJsonError` that carries the error of `record_outcome`.
    pub fn from_json(value: &Value) -> (outcome: Result<MovieResult, OmdbError>)
        ensures
            match outcome {
                Ok(record) => record_outcome(*value) == Ok::<MovieRecord, serde_json::Error>(
                    record@,
                ),
                Err(error) => record_outcome(*value) is Err && error
                    == OmdbError::SerdeJsonError(record_outcome(*value)->Err_0),
            },
    {
        let object = is_object(value);
        let elements = as_array(value);
        if !object && elements.is_none() {
            return Err(
                OmdbError::SerdeJsonError(
                    custom_error("invalid type: expected struct MovieResult"),
                ),
            );
        }
        let mut texts: Vec<Option<String>> = Vec::new();
        let mut i: usize = 0;
        while i < FIELD_COUNT
            invariant
                i <= FIELD_COUNT,
                object == json_is_object(*value),
                match elements {
                    Some(e) => json_elements(*value) == Some(e@),
                    None => json_elements(*value) is None,
                },
                object || elements is Some,
                first_other(*value, 0) == first_other(*value, i as int),
                texts.len() == i,
                forall|j: int| 0 <= j < i ==> (#[trigger] texts[j]).deep_view() == found(*value)[j],
            decreases FIELD_COUNT - i,
        {
            let found: Option<&Value> = if object {
                get(value, wire_name(i))
            } else {
                let e = elements.unwrap();
                if i < e.len() {
                    Some(&e[i])
                } else {
                    None
                }
            };
            assert(match found {
                Some(m) => member(*value, i as int) == Some(*m),
                None => member(*value, i as int) is None,
            });
            match found {
                None => {
                    texts.push(None);
                },
                Some(m) => {
                    match read_string(m) {
                        Ok(text) => {
                            texts.push(Some(text));
                        },
                        Err(error) => {
                            return Err(OmdbError::SerdeJsonError(error));
                        },
                    }
                },
            }
            i += 1;
        }
        if !object && elements.unwrap().len() > FIELD_COUNT {
            return Err(
                OmdbError::SerdeJsonError(
                    custom_error("invalid length: expected fewer elements in array"),
                ),
            );
        }
        assert(texts.deep_view() == found(*value));
        Ok(MovieResult::from_texts(&texts))
    }

    /// The fields of the record as they are written out: name and text, in
    /// the order of the fields.
    pub fn output_fields(&self) -> (fields: Vec<(String, String)>)
        ensures
            fields.deep_view() == output_of(self@),
    {
        let mut fields: Vec<(String, String)> = Vec::new();
        fields.push(("title".to_owned(), self.title.clone()));
        fields.push(("year".to_owned(), self.year.clone()));
        fields.push(("rated".to_owned(), self.rated.clone()));
        fields.push(("released".to_owned(), self.released.clone()));
        fields.push(("runtime".to_owned(), self.runtime.clone()));
        fields.push(("genre".to_owned(), join_comma(&self.genre)));
        fields.push(("director".to_owned(), join_comma(&self.director)));
        fields.push(("actors".to_owned(), join_comma(&self.actors)));
        fields.push(("plot".to_owned(), self.plot.clone()));
        fields.push(("language".to_owned(), self.language.clone()));
        fields.push(("country".to_owned(), self.country.clone()));
        fields.push(("awards".to_owned(), self.awards.clone()));
        fields.push(("poster".to_owned(), self.poster.clone()));
        fields.push(("metascore".to_owned(), self.metascore.clone()));
        fields.push(("imdb_rating".to_owned(), self.imdb_rating.clone()));
        fields.push(("imdb_votes".to_owned(), self.imdb_votes.clone()));
        fields.push(("imdb_id".to_owned(), self.imdb_id.clone()));
        fields.push(("picture_type".to_owned(), self.picture_type.clone()));
        fields.push(("dvd".to_owned(), self.dvd.clone()));
        fields.push(("box_office".to_owned(), self.box_office.clone()));
        fields.push(("production".to_owned(), self.production.clone()));
        fields.push(("website".to_owned(), self.website.clone()));
        assert(fields.deep_view() =~= output_of(self@));
        fields
    }

    /// The record made of the texts that its fields found, one per field and
    /// in the order of the fields.
    fn from_texts(texts: &Vec<Option<String>>) -> (record: MovieResult)
        requires
            texts.len() == FIELD_COUNT,
        ensures
            record@ == record_of(texts.deep_view()),
    {
        MovieResult {
            title: scalar_field(&texts[0]),
            year: scalar_field(&texts[1]),
            rated: scalar_field(&texts[2]),
            released: scalar_field(&texts[3]),
            runtime: scalar_field(&texts[4]),
            genre: list_field(&texts[5]),
            director: list_field(&texts[6]),
            actors: list_field(&texts[7]),
            plot: scalar_field(&texts[8]),
            language: scalar_field(&texts[9]),
            country: scalar_field(&texts[10]),
            awards: scalar_field(&texts[11]),
            poster: scalar_field(&texts[12]),
            metascore: scalar_field(&texts[13]),
            imdb_rating: scalar_field(&texts[14]),
            imdb_votes: scalar_field(&texts[15]),
            imdb_id: scalar_field(&texts[16]),
            picture_type: scalar_field(&texts[17]),
            dvd: scalar_field(&texts[18]),
            box_office: scalar_field(&texts[19]),
            production: scalar_field(&texts[20]),
            website: scalar_field(&texts[21]),
        }
    }
}

/// A record that was read from the wire is written out with the texts that
/// it was read from: each list is joined to the text that was split, and a
/// field that found nothing is written as the empty text.
pub proof fn lemma_output_keeps_texts(texts: Seq<Option<Seq<char>>>)
    requires
        texts.len() == FIELD_COUNT,
    ensures
        output_of(record_of(texts)).len() == FIELD_COUNT,
        forall|i: int|
            0 <= i < FIELD_COUNT ==> (#[trigger] output_of(record_of(texts))[i]).1 == scalar(
                texts[i],
            ),
{
    assert forall|i: int| 5 <= i <= 7 implies join(list(texts[i]), ',') == scalar(texts[i]) by {
        if let Some(text) = texts[i] {
            lemma_join_split(text, ',');
        }
    }
}

impl MovieRecord {
    /// The record of which nothing is known.
    pub open spec fn empty() -> MovieRecord {
        record_of(Seq::new(FIELD_COUNT as nat, |i: int| None))
    }
}

impl Default for MovieResult {
    /// The record with every field empty.
    fn default() -> (record: MovieResult)
        ensures
            record@ == MovieRecord::empty(),
    {
        let mut texts: Vec<Option<String>> = Vec::new();
        let mut i: usize = 0;
        while i < FIELD_COUNT
            invariant
                i <= FIELD_COUNT,
                texts.len() == i,
                forall|j: int| 0 <= j < i ==> (#[trigger] texts[j]) is None,
            decreases FIELD_COUNT - i,
        {
            texts.push(None);
            i += 1;
        }
        assert(texts.deep_view() == Seq::new(FIELD_COUNT as nat, |i: int| None::<Seq<char>>));
        MovieResult::from_texts(&texts)
    }
}

} // verus!
