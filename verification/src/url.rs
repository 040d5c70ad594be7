//! The query URLs of the API.
//!
//! A URL is the endpoint, `/?`, and the query parameters with `&` between
//! them. Each parameter is a name, `=` and a value.

use crate::encoding::{is_encoded_char, lemma_encoded_chars, percent_encoded};
use crate::options::{PlotType, ResponseFormat, SearchType};
use crate::text::{join, lemma_reach, lemma_reach_is_first, lemma_split_concat, lemma_split_join};
use crate::text::{reach, split};
use vstd::prelude::*;
use vstd::string::StringExecFns;
use vstd::utf8::encode_utf8;

verus! {

/// One query parameter: the name, `=` and the value.
pub open spec fn parameter(name: Seq<char>, value: Seq<char>) -> Seq<char> {
    name + seq!['='] + value
}

/// The parameters of a lookup of one title: the key, the subject under the
/// name that says how it is looked up (`t` for a title, `i` for an id), and
/// the three qualifiers.
pub open spec fn lookup_parameters(
    key: Seq<char>,
    mode: Seq<char>,
    subject: Seq<char>,
    search_type: SearchType,
    plot_type: PlotType,
    response_format: ResponseFormat,
) -> Seq<Seq<char>> {
    seq![
        parameter("apikey"@, key),
        parameter(mode, subject),
        parameter("type"@, search_type.word()),
        parameter("plot"@, plot_type.word()),
        parameter("r"@, response_format.word()),
    ]
}

/// The parameters of a search: the key and the search term. A search takes
/// no qualifiers.
pub open spec fn search_parameters(key: Seq<char>, term: Seq<char>) -> Seq<Seq<char>> {
    seq![parameter("apikey"@, key), parameter("s"@, term)]
}

/// The query made of the given parameters: the parameters with `&` between
/// them.
pub open spec fn query_text(parameters: Seq<Seq<char>>) -> Seq<char> {
    join(parameters, '&')
}

/// The URL that asks the endpoint `base` with the given parameters.
pub open spec fn url_text(base: Seq<char>, parameters: Seq<Seq<char>>) -> Seq<char> {
    base + "/?"@ + query_text(parameters)
}

/// The parameters that a query is made of: its pieces between `&`.
pub open spec fn parameters_of(query: Seq<char>) -> Seq<Seq<char>> {
    split(query, '&')
}

/// Whether a parameter has the given name, that is begins with it and `=`.
pub open spec fn is_named(parameter: Seq<char>, name: Seq<char>) -> bool {
    &&& parameter.len() > name.len()
    &&& parameter.take(name.len() as int) == name
    &&& parameter[name.len() as int] == '='
}

/// How many of the parameters have the given name.
pub open spec fn occurrences(parameters: Seq<Seq<char>>, name: Seq<char>) -> nat
    decreases parameters.len(),
{
    if parameters.len() == 0 {
        0
    } else if is_named(parameters.last(), name) {
        occurrences(parameters.drop_last(), name) + 1
    } else {
        occurrences(parameters.drop_last(), name)
    }
}

/// Appends one parameter to a URL under construction, after `&` unless it is
/// the first.
fn push_parameter(url: &mut String, first: bool, name: &str, value: &str)
    ensures
        final(url)@ == old(url)@ + (if first {
            Seq::<char>::empty()
        } else {
            seq!['&']
        }) + parameter(name@, value@),
{
    proof {
        reveal_strlit("&");
        reveal_strlit("=");
    }
    let ghost before = url@;
    if !first {
        url.append("&");
    }
    url.append(name);
    url.append("=");
    url.append(value);
    assert(url@ == before + (if first {
        Seq::<char>::empty()
    } else {
        seq!['&']
    }) + (name@ + seq!['='] + value@));
}

/// The URL of a lookup of one title. The subject is taken as it is, so a
/// caller that holds free text encodes it first.
pub(crate) fn lookup_url(
    base: &str,
    key: &str,
    mode: &str,
    subject: &str,
    search_type: SearchType,
    plot_type: PlotType,
    response_format: ResponseFormat,
) -> (url: String)
    ensures
        url@ == url_text(
            base@,
            lookup_parameters(key@, mode@, subject@, search_type, plot_type, response_format),
        ),
{
    let mut url = String::from_str(base);
    url.append("/?");
    push_parameter(&mut url, true, "apikey", key);
    push_parameter(&mut url, false, mode, subject);
    push_parameter(&mut url, false, "type", search_type.as_str());
    push_parameter(&mut url, false, "plot", plot_type.as_str());
    push_parameter(&mut url, false, "r", response_format.as_str());
    proof {
        let p = lookup_parameters(key@, mode@, subject@, search_type, plot_type, response_format);
        lemma_join_five(p, '&');
        assert(url@ == base@ + "/?"@ + join(p, '&'));
    }
    url
}

/// The URL of a search. The term is taken as it is.
pub(crate) fn search_url(base: &str, key: &str, term: &str) -> (url: String)
    ensures
        url@ == url_text(base@, search_parameters(key@, term@)),
{
    let mut url = String::from_str(base);
    url.append("/?");
    push_parameter(&mut url, true, "apikey", key);
    push_parameter(&mut url, false, "s", term);
    proof {
        let p = search_parameters(key@, term@);
        assert(join(p.drop_last(), '&') == p[0]);
        assert(join(p, '&') == p[0] + seq!['&'] + p[1]);
        assert(url@ == base@ + "/?"@ + join(p, '&'));
    }
    url
}

/// A parameter holds `&` only where its name or its value does.
proof fn lemma_parameter_plain(name: Seq<char>, value: Seq<char>)
    requires
        !name.contains('&'),
        !value.contains('&'),
    ensures
        !parameter(name, value).contains('&'),
{
    let p = parameter(name, value);
    assert forall|i: int| 0 <= i < p.len() implies p[i] != '&' by {
        if i < name.len() {
            assert(p[i] == name[i]);
        } else if i > name.len() {
            assert(p[i] == value[i - name.len() - 1]);
        }
    }
}

/// An encoded text holds no `&`.
proof fn lemma_encoded_plain(bytes: Seq<u8>)
    ensures
        !percent_encoded(bytes).contains('&'),
{
    lemma_encoded_chars(bytes);
    let text = percent_encoded(bytes);
    assert forall|i: int| 0 <= i < text.len() implies text[i] != '&' by {
        assert(is_encoded_char(text[i]));
    }
}

/// A parameter has exactly the name it was made with, among names that hold
/// no `=`.
proof fn lemma_named(name: Seq<char>, value: Seq<char>, other: Seq<char>)
    requires
        !name.contains('='),
        !other.contains('='),
    ensures
        is_named(parameter(name, value), other) <==> other == name,
{
    let p = parameter(name, value);
    assert(p.take(name.len() as int) == name);
    assert(p[name.len() as int] == '=');
    if is_named(p, other) {
        if other.len() < name.len() {
            assert(p[other.len() as int] == name[other.len() as int]);
        } else if other.len() > name.len() {
            assert(other[name.len() as int] == p.take(other.len() as int)[name.len() as int]);
        }
    }
}

/// The names of the parameters are distinct texts without `=`.
proof fn lemma_names()
    ensures
        "apikey"@.len() == 6,
        "type"@.len() == 4,
        "plot"@.len() == 4,
        "t"@ == seq!['t'],
        "i"@ == seq!['i'],
        "s"@ == seq!['s'],
        "r"@ == seq!['r'],
        "t"@ != "i"@,
        "t"@ != "s"@,
        "t"@ != "r"@,
        "i"@ != "s"@,
        "i"@ != "r"@,
        "s"@ != "r"@,
        "type"@ != "plot"@,
        !is_query_name("apikey"@),
        !"apikey"@.contains('='),
        !"type"@.contains('='),
        !"plot"@.contains('='),
        !"t"@.contains('='),
        !"i"@.contains('='),
        !"s"@.contains('='),
        !"r"@.contains('='),
        !"apikey"@.contains('&'),
        !"type"@.contains('&'),
        !"plot"@.contains('&'),
        !"t"@.contains('&'),
        !"i"@.contains('&'),
        !"s"@.contains('&'),
        !"r"@.contains('&'),
{
    reveal_strlit("apikey");
    reveal_strlit("t");
    reveal_strlit("i");
    reveal_strlit("s");
    reveal_strlit("type");
    reveal_strlit("plot");
    reveal_strlit("r");
    assert("t"@[0] == 't' && "i"@[0] == 'i' && "s"@[0] == 's' && "r"@[0] == 'r');
    assert("type"@[0] == 't' && "plot"@[0] == 'p');
}

/// The query of a lookup under the mode `t` or `i` holds exactly the
/// parameters that were put into it, given that neither the key nor the
/// subject holds `&`.
proof fn lemma_lookup_query(
    key: Seq<char>,
    mode: Seq<char>,
    subject: Seq<char>,
    search_type: SearchType,
    plot_type: PlotType,
    response_format: ResponseFormat,
)
    requires
        mode == "t"@ || mode == "i"@,
        !key.contains('&'),
        !subject.contains('&'),
    ensures
        ({
            let sent = lookup_parameters(
                key,
                mode,
                subject,
                search_type,
                plot_type,
                response_format,
            );
            parameters_of(query_text(sent)) == sent
        }),
{
    lemma_names();
    lemma_words(search_type, plot_type, response_format);
    let sent = lookup_parameters(key, mode, subject, search_type, plot_type, response_format);
    lemma_parameter_plain("apikey"@, key);
    lemma_parameter_plain(mode, subject);
    lemma_parameter_plain("type"@, search_type.word());
    lemma_parameter_plain("plot"@, plot_type.word());
    lemma_parameter_plain("r"@, response_format.word());
    lemma_split_join(sent, '&');
}

/// The words that stand for the options hold no `&`.
proof fn lemma_words(search_type: SearchType, plot_type: PlotType, response_format: ResponseFormat)
    ensures
        !search_type.word().contains('&'),
        !plot_type.word().contains('&'),
        !response_format.word().contains('&'),
{
    reveal_strlit("movie");
    reveal_strlit("series");
    reveal_strlit("episode");
    reveal_strlit("short");
    reveal_strlit("full");
    reveal_strlit("json");
    reveal_strlit("xml");
}

/// The query of a lookup by title holds exactly the parameters that were put
/// into it, whatever the title. The key must hold no `&`, which would end its
/// parameter early.
pub proof fn lemma_title_query(
    key: Seq<char>,
    title: Seq<char>,
    search_type: SearchType,
    plot_type: PlotType,
    response_format: ResponseFormat,
)
    requires
        !key.contains('&'),
    ensures
        ({
            let sent = lookup_parameters(
                key,
                "t"@,
                percent_encoded(encode_utf8(title)),
                search_type,
                plot_type,
                response_format,
            );
            parameters_of(query_text(sent)) == sent
        }),
{
    lemma_encoded_plain(encode_utf8(title));
    lemma_lookup_query(
        key,
        "t"@,
        percent_encoded(encode_utf8(title)),
        search_type,
        plot_type,
        response_format,
    );
}

/// The query of a lookup by IMDb id holds exactly the parameters that were
/// put into it. Neither the key nor the id, which is not encoded, may hold
/// `&`.
pub proof fn lemma_imdb_id_query(
    key: Seq<char>,
    imdb_id: Seq<char>,
    search_type: SearchType,
    plot_type: PlotType,
    response_format: ResponseFormat,
)
    requires
        !key.contains('&'),
        !imdb_id.contains('&'),
    ensures
        ({
            let sent = lookup_parameters(
                key,
                "i"@,
                imdb_id,
                search_type,
                plot_type,
                response_format,
            );
            parameters_of(query_text(sent)) == sent
        }),
{
    lemma_lookup_query(key, "i"@, imdb_id, search_type, plot_type, response_format);
}

/// The query of a search holds exactly the parameters that were put into it,
/// whatever the term. The key must hold no `&`.
pub proof fn lemma_search_query(key: Seq<char>, term: Seq<char>)
    requires
        !key.contains('&'),
    ensures
        ({
            let sent = search_parameters(key, percent_encoded(encode_utf8(term)));
            parameters_of(query_text(sent)) == sent
        }),
{
    lemma_names();
    let encoded = percent_encoded(encode_utf8(term));
    lemma_encoded_plain(encode_utf8(term));
    lemma_parameter_plain("apikey"@, key);
    lemma_parameter_plain("s"@, encoded);
    lemma_split_join(search_parameters(key, encoded), '&');
}

/// Whether a parameter named `name` starts in `text` behind the `&` at `at`.
pub open spec fn starts_parameter_at(text: Seq<char>, at: int, name: Seq<char>) -> bool {
    &&& 0 <= at
    &&& at + 1 + name.len() < text.len()
    &&& text[at] == '&'
    &&& text.subrange(at + 1, at + 1 + name.len()) == name
    &&& text[at + 1 + name.len()] == '='
}

/// Whether `name` is one of the six names that a query is asked about: the
/// three modes and the three qualifiers.
pub open spec fn is_query_name(name: Seq<char>) -> bool {
    ||| name == "t"@
    ||| name == "i"@
    ||| name == "s"@
    ||| name == "type"@
    ||| name == "plot"@
    ||| name == "r"@
}

/// Whether a value adds no parameter of the six names to a query that it is
/// put into: nowhere in it is `&` followed by one of the names and `=`.
pub open spec fn adds_no_parameter(value: Seq<char>) -> bool {
    forall|at: int, name: Seq<char>|
        is_query_name(name) ==> !#[trigger] starts_parameter_at(value, at, name)
}

/// The pieces that the parameters fall into at `&`, in order.
pub open spec fn pieces(parameters: Seq<Seq<char>>) -> Seq<Seq<char>>
    decreases parameters.len(),
{
    if parameters.len() == 0 {
        Seq::empty()
    } else {
        pieces(parameters.drop_last()) + split(parameters.last(), '&')
    }
}

/// A query falls into the pieces of its parameters.
proof fn lemma_pieces(parameters: Seq<Seq<char>>)
    requires
        parameters.len() >= 1,
    ensures
        parameters_of(query_text(parameters)) == pieces(parameters),
    decreases parameters.len(),
{
    if parameters.len() == 1 {
        assert(pieces(parameters.drop_last()) == Seq::<Seq<char>>::empty());
    } else {
        lemma_pieces(parameters.drop_last());
        lemma_split_concat(join(parameters.drop_last(), '&'), parameters.last(), '&');
    }
}

/// The occurrences of a name in two runs of parameters add up.
proof fn lemma_occurrences_concat(a: Seq<Seq<char>>, b: Seq<Seq<char>>, name: Seq<char>)
    ensures
        occurrences(a + b, name) == occurrences(a, name) + occurrences(b, name),
    decreases b.len(),
{
    if b.len() == 0 {
        assert(a + b == a);
    } else {
        lemma_occurrences_concat(a, b.drop_last(), name);
        assert((a + b).drop_last() == a + b.drop_last());
        assert((a + b).last() == b.last());
    }
}

/// A name does not occur among parameters of which none has it.
proof fn lemma_occurrences_none(parameters: Seq<Seq<char>>, name: Seq<char>)
    requires
        forall|j: int| 0 <= j < parameters.len() ==> !is_named(#[trigger] parameters[j], name),
    ensures
        occurrences(parameters, name) == 0,
    decreases parameters.len(),
{
    if parameters.len() > 0 {
        lemma_occurrences_none(parameters.drop_last(), name);
    }
}

/// A text without the separator in front of another keeps the pieces of the
/// other, with the first piece behind the text.
proof fn lemma_split_behind(front: Seq<char>, text: Seq<char>, sep: char)
    requires
        !front.contains(sep),
    ensures
        split(text, sep).len() >= 1,
        split(front + text, sep) == seq![front + split(text, sep)[0]] + split(
            text,
            sep,
        ).drop_first(),
{
    let whole = front + text;
    lemma_reach_is_first(text, sep);
    let n = reach(text, sep);
    assert forall|j: int| 0 <= j < front.len() + n implies whole[j] != sep by {
        if j < front.len() {
            assert(whole[j] == front[j]);
        } else {
            assert(whole[j] == text[j - front.len()]);
        }
    }
    lemma_reach(whole, sep, front.len() + n);
    if n < text.len() {
        assert(whole.take(front.len() + n) == front + text.take(n));
        assert(whole.skip(front.len() + n + 1) == text.skip(n + 1));
        assert((seq![text.take(n)] + split(text.skip(n + 1), sep)).drop_first() == split(
            text.skip(n + 1),
            sep,
        ));
    } else {
        assert(seq![text].drop_first() == Seq::<Seq<char>>::empty());
    }
}

/// Behind a `&` that starts no parameter of a name, no piece has that name.
proof fn lemma_pieces_behind(text: Seq<char>, from: int, name: Seq<char>)
    requires
        0 < from <= text.len(),
        text[from - 1] == '&',
        forall|at: int| !#[trigger] starts_parameter_at(text, at, name),
    ensures
        forall|j: int|
            0 <= j < split(text.skip(from), '&').len() ==> !is_named(
                #[trigger] split(text.skip(from), '&')[j],
                name,
            ),
    decreases text.len() - from,
{
    let rest = text.skip(from);
    lemma_reach_is_first(rest, '&');
    let n = reach(rest, '&');
    let first = rest.take(n);
    if is_named(first, name) {
        assert(text.subrange(from, from + name.len()) == first.take(name.len() as int));
        assert(text[from + name.len()] == first[name.len() as int]);
        assert(starts_parameter_at(text, from - 1, name));
    }
    if n < rest.len() {
        assert(rest.skip(n + 1) == text.skip(from + n + 1));
        assert(text[from + n] == rest[n]);
        lemma_pieces_behind(text, from + n + 1, name);
        let later = split(text.skip(from + n + 1), '&');
        assert forall|j: int| 0 <= j < split(rest, '&').len() implies !is_named(
            #[trigger] split(rest, '&')[j],
            name,
        ) by {
            if j > 0 {
                assert(split(rest, '&')[j] == later[j - 1]);
            }
        }
    } else {
        assert(first == rest);
    }
}

/// A parameter whose value starts no parameter of a name holds that name once
/// where it is its own, and not at all where it is not.
proof fn lemma_parameter_occurrences(own: Seq<char>, value: Seq<char>, name: Seq<char>)
    requires
        !own.contains('&'),
        !own.contains('='),
        !name.contains('='),
        forall|at: int| !#[trigger] starts_parameter_at(value, at, name),
    ensures
        occurrences(split(parameter(own, value), '&'), name) == (if name == own {
            1nat
        } else {
            0nat
        }),
{
    let front = own + seq!['='];
    assert forall|j: int| 0 <= j < front.len() implies front[j] != '&' by {
        if j < own.len() {
            assert(front[j] == own[j]);
        }
    }
    lemma_split_behind(front, value, '&');
    let of_value = split(value, '&');
    let first = front + of_value[0];
    assert(parameter(own, value) == front + value);
    assert(first == parameter(own, of_value[0]));
    lemma_named(own, of_value[0], name);
    lemma_reach_is_first(value, '&');
    let n = reach(value, '&');
    if n < value.len() {
        lemma_pieces_behind(value, n + 1, name);
        assert(of_value.drop_first() == split(value.skip(n + 1), '&'));
    } else {
        assert(of_value.drop_first() == Seq::<Seq<char>>::empty());
    }
    lemma_occurrences_none(of_value.drop_first(), name);
    lemma_occurrences_concat(seq![first], of_value.drop_first(), name);
    assert(seq![first].drop_last() == Seq::<Seq<char>>::empty());
    assert(occurrences(seq![first].drop_last(), name) == 0);
    assert(seq![first].last() == first);
    assert(occurrences(seq![first], name) == (if is_named(first, name) {
        1nat
    } else {
        0nat
    }));
    assert(split(parameter(own, value), '&') == seq![first] + of_value.drop_first());
}

/// A value without `&` starts no parameter.
proof fn lemma_plain_adds_none(value: Seq<char>)
    requires
        !value.contains('&'),
    ensures
        forall|at: int, name: Seq<char>| !#[trigger] starts_parameter_at(value, at, name),
{
}

/// How often each of the six names occurs in the query of a lookup under the
/// mode `t` or `i`, given that neither the key nor the subject adds a
/// parameter.
proof fn lemma_lookup_counts(
    key: Seq<char>,
    mode: Seq<char>,
    subject: Seq<char>,
    search_type: SearchType,
    plot_type: PlotType,
    response_format: ResponseFormat,
    name: Seq<char>,
)
    requires
        mode == "t"@ || mode == "i"@,
        is_query_name(name),
        adds_no_parameter(key),
        adds_no_parameter(subject),
    ensures
        occurrences(
            parameters_of(
                query_text(
                    lookup_parameters(
                        key,
                        mode,
                        subject,
                        search_type,
                        plot_type,
                        response_format,
                    ),
                ),
            ),
            name,
        ) == (if name == mode || name == "type"@ || name == "plot"@ || name == "r"@ {
            1nat
        } else {
            0nat
        }),
{
    lemma_names();
    lemma_words(search_type, plot_type, response_format);
    let by_key = parameter("apikey"@, key);
    let by_mode = parameter(mode, subject);
    let by_type = parameter("type"@, search_type.word());
    let by_plot = parameter("plot"@, plot_type.word());
    let by_format = parameter("r"@, response_format.word());
    let sent = lookup_parameters(key, mode, subject, search_type, plot_type, response_format);
    lemma_pieces(sent);
    let four = sent.drop_last();
    let three = four.drop_last();
    let two = three.drop_last();
    let one = two.drop_last();
    assert(one.drop_last() == Seq::<Seq<char>>::empty());
    assert(pieces(one.drop_last()) == Seq::<Seq<char>>::empty());
    assert(one.last() == by_key);
    assert(pieces(one) == split(by_key, '&'));
    assert(pieces(two) == pieces(one) + split(by_mode, '&'));
    assert(pieces(three) == pieces(two) + split(by_type, '&'));
    assert(pieces(four) == pieces(three) + split(by_plot, '&'));
    assert(pieces(sent) == pieces(four) + split(by_format, '&'));
    lemma_occurrences_concat(pieces(one), split(by_mode, '&'), name);
    lemma_occurrences_concat(pieces(two), split(by_type, '&'), name);
    lemma_occurrences_concat(pieces(three), split(by_plot, '&'), name);
    lemma_occurrences_concat(pieces(four), split(by_format, '&'), name);
    lemma_plain_adds_none(search_type.word());
    lemma_plain_adds_none(plot_type.word());
    lemma_plain_adds_none(response_format.word());
    assert(forall|at: int| !#[trigger] starts_parameter_at(key, at, name));
    assert(forall|at: int| !#[trigger] starts_parameter_at(subject, at, name));
    lemma_parameter_occurrences("apikey"@, key, name);
    lemma_parameter_occurrences(mode, subject, name);
    lemma_parameter_occurrences("type"@, search_type.word(), name);
    lemma_parameter_occurrences("plot"@, plot_type.word(), name);
    lemma_parameter_occurrences("r"@, response_format.word(), name);
    assert(name != "apikey"@);
}

/// The query of a lookup by title holds one `t`, one each of `type`, `plot`
/// and `r`, and neither `i` nor `s`, whatever the title. This holds for every
/// key that adds no parameter of these names, that is in which no `&` is
/// followed by one of them and `=`.
pub proof fn lemma_title_counts(
    key: Seq<char>,
    title: Seq<char>,
    search_type: SearchType,
    plot_type: PlotType,
    response_format: ResponseFormat,
)
    requires
        adds_no_parameter(key),
    ensures
        ({
            let found = parameters_of(
                query_text(
                    lookup_parameters(
                        key,
                        "t"@,
                        percent_encoded(encode_utf8(title)),
                        search_type,
                        plot_type,
                        response_format,
                    ),
                ),
            );
            &&& occurrences(found, "t"@) == 1
            &&& occurrences(found, "i"@) == 0
            &&& occurrences(found, "s"@) == 0
            &&& occurrences(found, "type"@) == 1
            &&& occurrences(found, "plot"@) == 1
            &&& occurrences(found, "r"@) == 1
        }),
{
    lemma_names();
    let encoded = percent_encoded(encode_utf8(title));
    lemma_encoded_plain(encode_utf8(title));
    lemma_plain_adds_none(encoded);
    lemma_lookup_counts(key, "t"@, encoded, search_type, plot_type, response_format, "t"@);
    lemma_lookup_counts(key, "t"@, encoded, search_type, plot_type, response_format, "i"@);
    lemma_lookup_counts(key, "t"@, encoded, search_type, plot_type, response_format, "s"@);
    lemma_lookup_counts(key, "t"@, encoded, search_type, plot_type, response_format, "type"@);
    lemma_lookup_counts(key, "t"@, encoded, search_type, plot_type, response_format, "plot"@);
    lemma_lookup_counts(key, "t"@, encoded, search_type, plot_type, response_format, "r"@);
}

/// The query of a lookup by IMDb id holds one `i`, one each of `type`, `plot`
/// and `r`, and neither `t` nor `s`. This holds for every key and every id
/// that add no parameter of these names; the id is not encoded.
pub proof fn lemma_imdb_id_counts(
    key: Seq<char>,
    imdb_id: Seq<char>,
    search_type: SearchType,
    plot_type: PlotType,
    response_format: ResponseFormat,
)
    requires
        adds_no_parameter(key),
        adds_no_parameter(imdb_id),
    ensures
        ({
            let found = parameters_of(
                query_text(
                    lookup_parameters(
                        key,
                        "i"@,
                        imdb_id,
                        search_type,
                        plot_type,
                        response_format,
                    ),
                ),
            );
            &&& occurrences(found, "i"@) == 1
            &&& occurrences(found, "t"@) == 0
            &&& occurrences(found, "s"@) == 0
            &&& occurrences(found, "type"@) == 1
            &&& occurrences(found, "plot"@) == 1
            &&& occurrences(found, "r"@) == 1
        }),
{
    lemma_names();
    lemma_lookup_counts(key, "i"@, imdb_id, search_type, plot_type, response_format, "t"@);
    lemma_lookup_counts(key, "i"@, imdb_id, search_type, plot_type, response_format, "i"@);
    lemma_lookup_counts(key, "i"@, imdb_id, search_type, plot_type, response_format, "s"@);
    lemma_lookup_counts(key, "i"@, imdb_id, search_type, plot_type, response_format, "type"@);
    lemma_lookup_counts(key, "i"@, imdb_id, search_type, plot_type, response_format, "plot"@);
    lemma_lookup_counts(key, "i"@, imdb_id, search_type, plot_type, response_format, "r"@);
}

/// The query of a search holds one `s` and none of `t`, `i`, `type`, `plot`
/// and `r`, whatever the term. This holds for every key that adds no
/// parameter of these names.
pub proof fn lemma_search_counts(key: Seq<char>, term: Seq<char>)
    requires
        adds_no_parameter(key),
    ensures
        ({
            let found = parameters_of(
                query_text(search_parameters(key, percent_encoded(encode_utf8(term)))),
            );
            &&& occurrences(found, "s"@) == 1
            &&& occurrences(found, "t"@) == 0
            &&& occurrences(found, "i"@) == 0
            &&& occurrences(found, "type"@) == 0
            &&& occurrences(found, "plot"@) == 0
            &&& occurrences(found, "r"@) == 0
        }),
{
    lemma_names();
    let encoded = percent_encoded(encode_utf8(term));
    lemma_encoded_plain(encode_utf8(term));
    lemma_plain_adds_none(encoded);
    let by_key = parameter("apikey"@, key);
    let by_term = parameter("s"@, encoded);
    let sent = search_parameters(key, encoded);
    lemma_pieces(sent);
    let one = sent.drop_last();
    assert(one.drop_last() == Seq::<Seq<char>>::empty());
    assert(pieces(one.drop_last()) == Seq::<Seq<char>>::empty());
    assert(one.last() == by_key);
    assert(pieces(one) == split(by_key, '&'));
    assert(pieces(sent) == pieces(one) + split(by_term, '&'));
    assert forall|name: Seq<char>| is_query_name(name) implies #[trigger] occurrences(
        pieces(sent),
        name,
    ) == (if name == "s"@ {
        1nat
    } else {
        0nat
    }) by {
        lemma_occurrences_concat(pieces(one), split(by_term, '&'), name);
        assert(forall|at: int| !#[trigger] starts_parameter_at(key, at, name));
        lemma_parameter_occurrences("apikey"@, key, name);
        lemma_parameter_occurrences("s"@, encoded, name);
        assert(name != "apikey"@);
    }
    assert(is_query_name("s"@) && is_query_name("t"@) && is_query_name("i"@));
    assert(is_query_name("type"@) && is_query_name("plot"@) && is_query_name("r"@));
}

/// Five pieces joined are the pieces in order with a separator after each
/// but the last.
proof fn lemma_join_five(p: Seq<Seq<char>>, sep: char)
    requires
        p.len() == 5,
    ensures
        join(p, sep) == p[0] + seq![sep] + p[1] + seq![sep] + p[2] + seq![sep] + p[3] + seq![sep]
            + p[4],
{
    let four = p.drop_last();
    let three = four.drop_last();
    let two = three.drop_last();
    let one = two.drop_last();
    assert(join(one, sep) == p[0]);
    assert(join(two, sep) == p[0] + seq![sep] + p[1]);
    assert(join(three, sep) == join(two, sep) + seq![sep] + p[2]);
    assert(join(four, sep) == join(three, sep) + seq![sep] + p[3]);
    assert(join(p, sep) == join(four, sep) + seq![sep] + p[4]);
}

} // verus!
