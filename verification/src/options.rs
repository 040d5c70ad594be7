//! The enumerated request options and the words that stand for them in a URL.

use vstd::prelude::*;

verus! {

/// The shape in which a successful lookup is handed back.
#[derive(Clone, Copy, Debug, PartialEq, Eq, Structural)]
pub enum ResultFormat {
    /// A typed movie record.
    SerdeJsonTyped,
    /// The parsed body as a generic JSON value.
    SerdeJsonValue,
    /// The body as it was received.
    RawString,
}

/// The kind of title a lookup is restricted to.
#[derive(Clone, Copy, Debug, PartialEq, Eq, Structural)]
pub enum SearchType {
    Movie,
    Series,
    Episode,
}

/// How much of the plot the API is asked to return.
#[derive(Clone, Copy, Debug, PartialEq, Eq, Structural)]
pub enum PlotType {
    Short,
    Full,
}

/// The encoding the API is asked to answer in.
#[derive(Clone, Copy, Debug, PartialEq, Eq, Structural)]
pub enum ResponseFormat {
    Json,
    Xml,
}

impl SearchType {
    /// The value of the `type` query parameter.
    pub open spec fn word(self) -> Seq<char> {
        match self {
            SearchType::Movie => "movie"@,
            SearchType::Series => "series"@,
            SearchType::Episode => "episode"@,
        }
    }

    /// The value of the `type` query parameter.
    pub fn as_str(&self) -> (word: &'static str)
        ensures
            word@ == self.word(),
    {
        match self {
            SearchType::Movie => "movie",
            SearchType::Series => "series",
            SearchType::Episode => "episode",
        }
    }
}

impl PlotType {
    /// The value of the `plot` query parameter.
    pub open spec fn word(self) -> Seq<char> {
        match self {
            PlotType::Short => "short"@,
            PlotType::Full => "full"@,
        }
    }

    /// The value of the `plot` query parameter.
    pub fn as_str(&self) -> (word: &'static str)
        ensures
            word@ == self.word(),
    {
        match self {
            PlotType::Short => "short",
            PlotType::Full => "full",
        }
    }
}

impl ResponseFormat {
    /// The value of the `r` query parameter.
    pub open spec fn word(self) -> Seq<char> {
        match self {
            ResponseFormat::Json => "json"@,
            ResponseFormat::Xml => "xml"@,
        }
    }

    /// The value of the `r` query parameter.
    pub fn as_str(&self) -> (word: &'static str)
        ensures
            word@ == self.word(),
    {
        match self {
            ResponseFormat::Json => "json",
            ResponseFormat::Xml => "xml",
        }
    }
}

} // verus!
