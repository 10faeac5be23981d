//! Request headers: from host-language strings to an [`http::HeaderMap`].
use std::collections::HashMap;

use vstd::prelude::*;
use vstd::utf8::encode_utf8;

use crate::failure::{value_error_view, ExceptionKind, PyFailure, PyFailureView};
use crate::header_laws::values_of;

verus! {

/// A header name of the `http` crate.
#[verifier::external_type_specification]
#[verifier::external_body]
pub struct ExHeaderName(http::HeaderName);

/// A header value of the `http` crate.
#[verifier::external_type_specification]
#[verifier::external_body]
pub struct ExHeaderValue(http::HeaderValue);

/// The header map of the `http` crate.
#[verifier::external_type_specification]
#[verifier::external_body]
#[verifier::reject_recursive_types(T)]
pub struct ExHeaderMap<T>(http::HeaderMap<T>);

/// Why bytes are no header name.
#[verifier::external_type_specification]
#[verifier::external_body]
pub struct ExInvalidHeaderName(http::header::InvalidHeaderName);

/// Why text is no header value.
#[verifier::external_type_specification]
#[verifier::external_body]
pub struct ExInvalidHeaderValue(http::header::InvalidHeaderValue);

/// That a header map is full.
#[verifier::external_type_specification]
#[verifier::external_body]
pub struct ExMaxSizeReached(http::header::MaxSizeReached);

/// A byte that may stand in a header name.
pub open spec fn is_token_byte(b: u8) -> bool {
    ||| 48 <= b <= 57
    ||| 65 <= b <= 90
    ||| 97 <= b <= 122
    ||| b == 33 || b == 35 || b == 36 || b == 37 || b == 38 || b == 39
    ||| b == 42 || b == 43 || b == 45 || b == 46
    ||| b == 94 || b == 95 || b == 96 || b == 124 || b == 126
}

/// The longest header name, in bytes.
pub const MAX_HEADER_NAME_BYTES: usize = 65535;

/// The bytes of a well-formed header name.
pub open spec fn valid_name(name: Seq<u8>) -> bool {
    &&& 0 < name.len() <= MAX_HEADER_NAME_BYTES
    &&& forall|i: int| 0 <= i < name.len() ==> is_token_byte(#[trigger] name[i])
}

/// An ASCII letter in lower case; any other byte as it is.
pub open spec fn lower_byte(b: u8) -> u8 {
    if 65 <= b <= 90 {
        (b + 32) as u8
    } else {
        b
    }
}

/// The form in which a header name is stored and compared.
pub open spec fn normal_name(name: Seq<u8>) -> Seq<u8> {
    name.map_values(|b: u8| lower_byte(b))
}

/// The bytes of a well-formed header value: a tab, or anything that is no control byte.
pub open spec fn valid_value(value: Seq<u8>) -> bool {
    forall|i: int| 0 <= i < value.len() ==> ((#[trigger] value[i]) == 9 || (value[i] >= 32
        && value[i] != 127))
}

/// The bytes that a header name holds, in the order in which `HeaderName::as_str` gives them.
pub uninterp spec fn name_bytes(name: http::HeaderName) -> Seq<u8>;

/// The bytes that a header value holds, in the order in which `HeaderValue::as_bytes` gives them.
pub uninterp spec fn value_bytes(value: http::HeaderValue) -> Seq<u8>;

/// Names in stored form, each with its values in order.
pub type HeaderTable = Map<Seq<u8>, Seq<Seq<u8>>>;

/// What a header map holds: under each name, its values in the order in which
/// `HeaderMap::get_all` gives them.
pub uninterp spec fn header_entries(map: http::HeaderMap<http::HeaderValue>) -> HeaderTable;

/// Whether a header map takes a further header: its slots, of which there are at most 32768, need
/// not double first, or still can.
pub uninterp spec fn header_room(map: http::HeaderMap<http::HeaderValue>) -> bool;

/// The names that were tried on a header map with `try_append`, in order, taken or not; none at
/// all where the map came of anything else than `HeaderMap::new` and `try_append`.
pub uninterp spec fn tried_names(map: http::HeaderMap<http::HeaderValue>) -> Option<Seq<Seq<u8>>>;

/// No name yet.
pub open spec fn no_names() -> Seq<Seq<u8>> {
    Seq::empty()
}

/// A header map on which exactly these names were tried, in this order, takes no further header.
///
/// The crate's hash, on which that rests, is fixed on one machine, but takes in the width and
/// byte order of its words.
pub open spec fn full_after(names: Seq<Seq<u8>>) -> bool {
    exists|map: http::HeaderMap<http::HeaderValue>| #[trigger]
        tried_names(map) == Some(names) && !header_room(map)
}

/// The table without a single name.
pub open spec fn no_headers() -> HeaderTable {
    Map::empty()
}

/// The table after one more value was put at the end of a name's values.
pub open spec fn with_header(table: HeaderTable, name: Seq<u8>, value: Seq<u8>) -> HeaderTable {
    if table.contains_key(name) {
        table.insert(name, table[name].push(value))
    } else {
        table.insert(name, seq![value])
    }
}

/// With fewer names than this a header map takes every header.
pub const HEADERS_ALWAYS_TAKEN: usize = 6554;

/// With this many names a header map takes no further header.
pub const HEADERS_NEVER_TAKEN: usize = 24576;

/// `http::HeaderName::from_bytes`: a name comes of the bytes exactly if there are some, no more
/// than [`MAX_HEADER_NAME_BYTES`] and all of them token bytes; it holds them with letters in
/// lower case.
pub assume_specification[ http::HeaderName::from_bytes ](src: &[u8]) -> (parsed: Result<
    http::HeaderName,
    http::header::InvalidHeaderName,
>)
    ensures
        parsed is Ok <==> valid_name(src@),
        parsed matches Ok(name) ==> name_bytes(name) == normal_name(src@),
;

/// `http::HeaderValue::from_str`: a value comes of the text exactly if its UTF-8 bytes hold no
/// control byte but tabs; it holds those bytes. Bytes above the ASCII range are taken.
pub assume_specification[ http::HeaderValue::from_str ](src: &str) -> (parsed: Result<
    http::HeaderValue,
    http::header::InvalidHeaderValue,
>)
    ensures
        parsed is Ok <==> valid_value(encode_utf8(src@)),
        parsed matches Ok(value) ==> value_bytes(value) == encode_utf8(src@),
;

/// `http::HeaderMap::new`: the map holds nothing, and nothing was tried on it.
pub assume_specification[ http::HeaderMap::new ]() -> (fresh: http::HeaderMap<http::HeaderValue>)
    ensures
        header_entries(fresh) == no_headers(),
        tried_names(fresh) == Some(no_names()),
;

/// Calls `http::HeaderMap::try_append`: the value goes to the end of the name's values, and the
/// result tells whether the name was there before; or the map is full and stays as it was.
///
/// Whether it is full rests on the map alone, not on the name or the value: it is where its slots
/// would have to double beyond 32768. They double when three quarters of them are used, or when
/// collisions have piled up and a fifth is used. Collisions count only as long as names are hashed
/// with a fixed function; with a random one, the number of names alone counts. So maps on which
/// the same names were tried in the same order are full alike. A refusal counts as a try: it makes
/// the map forget the collisions. Which names fill a map is left unsaid, but for the two bounds.
#[verifier::external_body]
fn try_append(
    map: &mut http::HeaderMap<http::HeaderValue>,
    name: http::HeaderName,
    value: http::HeaderValue,
) -> (appended: Result<bool, http::header::MaxSizeReached>)
    ensures
        appended matches Ok(had_name) ==> had_name == header_entries(*old(map)).contains_key(
            name_bytes(name),
        ),
        appended is Ok ==> header_entries(*final(map)) == with_header(
            header_entries(*old(map)),
            name_bytes(name),
            value_bytes(value),
        ),
        appended is Err ==> header_entries(*final(map)) == header_entries(*old(map)),
        appended is Ok <==> header_room(*old(map)),
        tried_names(*old(map)) matches Some(names) ==> (appended is Err <==> full_after(names)),
        tried_names(*final(map)) == (match tried_names(*old(map)) {
            Some(names) => Some(names.push(name_bytes(name))),
            None => None,
        }),
        header_entries(*old(map)).dom().len() < HEADERS_ALWAYS_TAKEN ==> appended is Ok,
        header_entries(*old(map)).dom().len() >= HEADERS_NEVER_TAKEN ==> appended is Err,
{
    map.try_append(name, value)
}

/// Calls `to_string` on `http::header::InvalidHeaderName`, whose `Display` writes one fixed text.
#[verifier::external_body]
fn name_error_text(error: &http::header::InvalidHeaderName) -> (text: String)
    ensures
        text@ == "invalid HTTP header name"@,
{
    error.to_string()
}

/// Calls `to_string` on `http::header::InvalidHeaderValue`, whose `Display` writes one fixed text.
#[verifier::external_body]
fn value_error_text(error: &http::header::InvalidHeaderValue) -> (text: String)
    ensures
        text@ == "failed to parse header value"@,
{
    error.to_string()
}

/// Calls `to_string` on `http::header::MaxSizeReached`, whose `Display` writes one fixed text.
#[verifier::external_body]
fn size_error_text(error: &http::header::MaxSizeReached) -> (text: String)
    ensures
        text@ == "max size reached"@,
{
    error.to_string()
}

/// Calls `Vec::from_iter` on a `HashMap`, which visits all entries in arbitrary order.
///
/// Nothing is said of the order: it differs from process to process.
#[verifier::external_body]
fn walk<'a>(headers: &'a HashMap<String, String>) -> (pairs: Vec<(&'a String, &'a String)>)
    ensures
        is_walk(headers@, pairs@),
{
    Vec::from_iter(headers)
}

/// The pairs are the map's entries, each of them once, in some order.
pub open spec fn is_walk(headers: Map<String, String>, pairs: Seq<(&String, &String)>) -> bool {
    &&& pairs.len() == headers.dom().len()
    &&& forall|i: int|
        #![trigger pairs[i]]
        0 <= i < pairs.len() ==> headers.contains_key(*pairs[i].0) && headers[*pairs[i].0]
            == *pairs[i].1
    &&& forall|name: String| #[trigger]
        headers.contains_key(name) ==> exists|i: int|
            0 <= i < pairs.len() && *(#[trigger] pairs[i]).0 == name
    &&& forall|i: int, j: int|
        0 <= i < j < pairs.len() ==> *(#[trigger] pairs[i]).0 != *(#[trigger] pairs[j]).0
}

/// The UTF-8 bytes of each name and value.
pub open spec fn pair_bytes(pairs: Seq<(&String, &String)>) -> Seq<(Seq<u8>, Seq<u8>)> {
    pairs.map_values(|pair: (&String, &String)| (encode_utf8(pair.0@), encode_utf8(pair.1@)))
}

/// A pair whose name and value are both well formed.
pub open spec fn valid_header(pair: (Seq<u8>, Seq<u8>)) -> bool {
    valid_name(pair.0) && valid_value(pair.1)
}

/// Every pair is well formed.
pub open spec fn all_valid(pairs: Seq<(Seq<u8>, Seq<u8>)>) -> bool {
    forall|i: int| 0 <= i < pairs.len() ==> valid_header(#[trigger] pairs[i])
}

/// The table that holds the pairs, appended from first to last.
pub open spec fn header_table(pairs: Seq<(Seq<u8>, Seq<u8>)>) -> HeaderTable
    decreases pairs.len(),
{
    if pairs.len() == 0 {
        no_headers()
    } else {
        with_header(
            header_table(pairs.drop_last()),
            normal_name(pairs.last().0),
            pairs.last().1,
        )
    }
}

/// The failure for a pair that is not well formed: the name is looked at first.
pub open spec fn conversion_failure(pair: (Seq<u8>, Seq<u8>)) -> PyFailureView {
    if !valid_name(pair.0) {
        value_error_view("invalid HTTP header name"@)
    } else {
        value_error_view("failed to parse header value"@)
    }
}

/// The names of the pairs in stored form.
pub open spec fn names_of(pairs: Seq<(Seq<u8>, Seq<u8>)>) -> Seq<Seq<u8>> {
    pairs.map_values(|pair: (Seq<u8>, Seq<u8>)| normal_name(pair.0))
}

/// The pairs before `at` leave room for one more: they have fewer than [`HEADERS_ALWAYS_TAKEN`]
/// names, or a map on which exactly their names were tried is not full.
pub open spec fn room_at(pairs: Seq<(Seq<u8>, Seq<u8>)>, at: int) -> bool {
    ||| header_table(pairs.take(at)).dom().len() < HEADERS_ALWAYS_TAKEN
    ||| !full_after(names_of(pairs.take(at)))
}

/// The pairs before each pair leave room for it.
///
/// From [`HEADERS_ALWAYS_TAKEN`] names on nothing here tells which names do, but that no
/// [`HEADERS_NEVER_TAKEN`] do.
pub open spec fn fits(pairs: Seq<(Seq<u8>, Seq<u8>)>) -> bool {
    forall|at: int| 0 <= at < pairs.len() ==> #[trigger] room_at(pairs, at)
}

/// The pair at `at` is the first that is not taken, and `failure` says why.
pub open spec fn refused_at(
    pairs: Seq<(Seq<u8>, Seq<u8>)>,
    at: int,
    failure: PyFailureView,
) -> bool {
    &&& 0 <= at < pairs.len()
    &&& all_valid(pairs.take(at))
    &&& forall|i: int| 0 <= i < at ==> #[trigger] room_at(pairs, i)
    &&& if !valid_header(pairs[at]) {
        failure == conversion_failure(pairs[at])
    } else {
        &&& failure == value_error_view("max size reached"@)
        &&& !room_at(pairs, at)
    }
}

/// What comes of appending the pairs to an empty map, each of them tried once.
pub open spec fn header_outcome(
    pairs: Seq<(Seq<u8>, Seq<u8>)>,
    outcome: Result<http::HeaderMap<http::HeaderValue>, PyFailure>,
) -> bool {
    match outcome {
        Ok(map) => {
            &&& all_valid(pairs)
            &&& fits(pairs)
            &&& header_entries(map) == header_table(pairs)
            &&& tried_names(map) == Some(names_of(pairs))
            &&& forall|at: int|
                0 <= at < pairs.len() ==> header_table(#[trigger] pairs.take(at)).dom().len()
                    < HEADERS_NEVER_TAKEN
        },
        Err(failure) => exists|at: int| refused_at(pairs, at, failure@),
    }
}

/// The header map of the pairs, appended from first to last; the first pair that is not taken
/// decides the failure.
pub fn header_map_from_pairs(pairs: &Vec<(&String, &String)>) -> (outcome: Result<
    http::HeaderMap<http::HeaderValue>,
    PyFailure,
>)
    ensures
        header_outcome(pair_bytes(pairs@), outcome),
        outcome is Ok <==> all_valid(pair_bytes(pairs@)) && fits(pair_bytes(pairs@)),
        pairs.len() <= HEADERS_ALWAYS_TAKEN && all_valid(pair_bytes(pairs@)) ==> outcome is Ok,
        pairs.len() <= HEADERS_ALWAYS_TAKEN && (forall|i: int|
            0 <= i < pairs.len() ==> valid_name(encode_utf8((#[trigger] pairs[i]).0@))
                && valid_value(encode_utf8(pairs[i].1@))) ==> outcome is Ok,
        outcome matches Ok(map) ==> forall|name: Seq<u8>|
            (#[trigger] header_entries(map).contains_key(name) <==> values_of(
                pair_bytes(pairs@),
                name,
            ).len() > 0) && (header_entries(map).contains_key(name) ==> header_entries(map)[name]
                == values_of(pair_bytes(pairs@), name)),
        outcome matches Ok(map) ==> forall|i: int|
            0 <= i < pairs.len() ==> {
                let stored = normal_name(encode_utf8((#[trigger] pairs[i]).0@));
                &&& valid_name(encode_utf8(pairs[i].0@))
                &&& valid_value(encode_utf8(pairs[i].1@))
                &&& header_entries(map).contains_key(stored)
                &&& header_entries(map)[stored].contains(encode_utf8(pairs[i].1@))
            },
        outcome matches Err(failure) ==> failure.kind == ExceptionKind::ValueError,
        outcome matches Err(failure) ==> exists|at: int|
            {
                &&& 0 <= at < pairs.len()
                &&& failure.message@ == if !valid_name(
                    encode_utf8((#[trigger] pairs[at]).0@),
                ) {
                    "invalid HTTP header name"@
                } else if !valid_value(encode_utf8(pairs[at].1@)) {
                    "failed to parse header value"@
                } else {
                    "max size reached"@
                }
                &&& valid_name(encode_utf8(pairs[at].0@)) && valid_value(
                    encode_utf8(pairs[at].1@),
                ) ==> at >= HEADERS_ALWAYS_TAKEN
            },
{
    let mut result: http::HeaderMap<http::HeaderValue> = http::HeaderMap::new();
    let ghost bytes = pair_bytes(pairs@);
    let mut i: usize = 0;
    proof {
        assert(bytes.take(0) =~= Seq::empty());
        assert(names_of(bytes.take(0)) =~= no_names());
        crate::header_laws::law_few_headers_fit(bytes);
    }
    proof {
        if forall|i: int|
            0 <= i < pairs.len() ==> valid_name(encode_utf8((#[trigger] pairs[i]).0@))
                && valid_value(encode_utf8(pairs[i].1@)) {
            assert forall|i: int| 0 <= i < bytes.len() implies valid_header(
                #[trigger] bytes[i],
            ) by {
                assert(valid_name(encode_utf8(pairs[i].0@)));
            }
        }
    }
    while i < pairs.len()
        invariant
            i <= pairs.len(),
            bytes == pair_bytes(pairs@),
            (forall|j: int|
                0 <= j < pairs.len() ==> valid_name(encode_utf8((#[trigger] pairs[j]).0@))
                    && valid_value(encode_utf8(pairs[j].1@))) ==> all_valid(bytes),
            bytes.len() == pairs.len(),
            pairs.len() <= HEADERS_ALWAYS_TAKEN ==> fits(bytes),
            all_valid(bytes.take(i as int)),
            header_entries(result) == header_table(bytes.take(i as int)),
            tried_names(result) == Some(names_of(bytes.take(i as int))),
            forall|j: int| 0 <= j < i ==> #[trigger] room_at(bytes, j),
            forall|j: int|
                0 <= j < i ==> header_table(#[trigger] bytes.take(j)).dom().len()
                    < HEADERS_NEVER_TAKEN,
        decreases pairs.len() - i,
    {
        let (name, value) = pairs[i];
        assert(bytes[i as int] == (encode_utf8(name@), encode_utf8(value@)));
        let name = match http::HeaderName::from_bytes(name.as_str().as_bytes()) {
            Ok(name) => name,
            Err(error) => {
                let failure = PyFailure::value_error(name_error_text(&error));
                assert(!valid_header(bytes[i as int]));
                assert(refused_at(bytes, i as int, failure@));
                return Err(failure);
            },
        };
        let value = match http::HeaderValue::from_str(value.as_str()) {
            Ok(value) => value,
            Err(error) => {
                let failure = PyFailure::value_error(value_error_text(&error));
                assert(!valid_header(bytes[i as int]));
                assert(refused_at(bytes, i as int, failure@));
                return Err(failure);
            },
        };
        match try_append(&mut result, name, value) {
            Ok(_) => {},
            Err(error) => {
                let failure = PyFailure::value_error(size_error_text(&error));
                proof {
                    crate::header_laws::law_table_size(bytes.take(i as int));
                }
                assert(!room_at(bytes, i as int));
                assert(refused_at(bytes, i as int, failure@));
                return Err(failure);
            },
        }
        assert(room_at(bytes, i as int));
        assert(names_of(bytes.take(i + 1)) =~= names_of(bytes.take(i as int)).push(
            normal_name(bytes[i as int].0),
        ));
        assert(bytes.take(i + 1).drop_last() =~= bytes.take(i as int));
        assert(bytes.take(i + 1).last() == bytes[i as int]);
        assert forall|j: int| 0 <= j < i + 1 implies valid_header(
            #[trigger] bytes.take(i + 1)[j],
        ) by {
            if j < i {
                assert(bytes.take(i + 1)[j] == bytes.take(i as int)[j]);
            }
        }
        i += 1;
    }
    assert(bytes.take(i as int) =~= bytes);
    proof {
        assert(header_outcome(bytes, Ok(result)));
        assert forall|name: Seq<u8>|
            (#[trigger] header_entries(result).contains_key(name) <==> values_of(bytes, name).len()
                > 0) && (header_entries(result).contains_key(name) ==> header_entries(result)[name]
                == values_of(bytes, name)) by {
            crate::header_laws::law_map_holds_the_values(bytes, result, name);
        }
        crate::header_laws::law_values_are_those_of_the_pairs(bytes, result, Seq::empty(), 0);
        assert forall|j: int| 0 <= j < pairs.len() implies {
            let stored = normal_name(encode_utf8((#[trigger] pairs[j]).0@));
            &&& valid_name(encode_utf8(pairs[j].0@))
            &&& valid_value(encode_utf8(pairs[j].1@))
            &&& header_entries(result).contains_key(stored)
            &&& header_entries(result)[stored].contains(encode_utf8(pairs[j].1@))
        } by {
            assert(bytes[j] == (encode_utf8(pairs[j].0@), encode_utf8(pairs[j].1@)));
        }
    }
    Ok(result)
}

/// What may come of appending the map's entries to an empty header map: what comes of them in
/// some order.
pub open spec fn python_outcome(
    headers: Map<String, String>,
    outcome: Result<http::HeaderMap<http::HeaderValue>, PyFailure>,
) -> bool {
    exists|pairs: Seq<(&String, &String)>| #[trigger]
        is_walk(headers, pairs) && header_outcome(pair_bytes(pairs), outcome)
}

/// Every entry of the map is a well-formed header.
pub open spec fn all_entries_valid(headers: Map<String, String>) -> bool {
    forall|name: String| #[trigger]
        headers.contains_key(name) ==> valid_header(
            (encode_utf8(name@), encode_utf8(headers[name]@)),
        )
}

/// The map's entries fit, in whatever order they are appended.
///
/// Like [`fits`], it can be shown up to [`HEADERS_ALWAYS_TAKEN`] entries only.
pub open spec fn all_orders_fit(headers: Map<String, String>) -> bool {
    forall|pairs: Seq<(&String, &String)>| #[trigger]
        is_walk(headers, pairs) ==> fits(pair_bytes(pairs))
}

/// Some entry of the map is not well formed, and `failure` says so.
pub open spec fn refused_for_an_entry(
    headers: Map<String, String>,
    failure: PyFailureView,
) -> bool {
    exists|name: String| #[trigger]
        headers.contains_key(name) && {
            let pair = (encode_utf8(name@), encode_utf8(headers[name]@));
            !valid_header(pair) && failure == conversion_failure(pair)
        }
}

/// The header map of the headers that Python gave: every entry appended, in the order in which
/// the map is walked.
///
/// Which of several bad entries is reported depends on that order, and so does the order of
/// values whose names are equal but for letter case.
pub fn header_map_from_python(headers: &HashMap<String, String>) -> (outcome: Result<
    http::HeaderMap<http::HeaderValue>,
    PyFailure,
>)
    ensures
        python_outcome(headers@, outcome),
        outcome is Ok ==> all_entries_valid(headers@),
        all_orders_fit(headers@) && all_entries_valid(headers@) ==> outcome is Ok,
        all_orders_fit(headers@) ==> (outcome matches Err(failure) ==> refused_for_an_entry(
            headers@,
            failure@,
        )),
        headers@.dom().len() <= HEADERS_ALWAYS_TAKEN && all_entries_valid(headers@) ==> outcome
            is Ok,
        headers@.dom().len() <= HEADERS_ALWAYS_TAKEN && (forall|key: String| #[trigger]
            headers@.contains_key(key) ==> valid_name(encode_utf8(key@)) && valid_value(
                encode_utf8(headers@[key]@),
            )) ==> outcome is Ok,
        outcome matches Ok(map) ==> exists|pairs: Seq<(&String, &String)>|
            {
                &&& #[trigger] is_walk(headers@, pairs)
                &&& forall|name: Seq<u8>|
                    (#[trigger] header_entries(map).contains_key(name) <==> values_of(
                        pair_bytes(pairs),
                        name,
                    ).len() > 0) && (header_entries(map).contains_key(name) ==> header_entries(
                        map,
                    )[name] == values_of(pair_bytes(pairs), name))
            },
        outcome matches Ok(map) ==> forall|key: String| #[trigger]
            headers@.contains_key(key) ==> {
                let stored = normal_name(encode_utf8(key@));
                &&& valid_name(encode_utf8(key@))
                &&& valid_value(encode_utf8(headers@[key]@))
                &&& header_entries(map).contains_key(stored)
                &&& header_entries(map)[stored].contains(encode_utf8(headers@[key]@))
            },
        outcome matches Ok(map) ==> forall|name: Seq<u8>| #[trigger]
            header_entries(map).contains_key(name) ==> header_entries(map)[name].len()
                == headers@.dom().filter(
                |key: String| normal_name(encode_utf8(key@)) == name,
            ).len(),
        outcome matches Err(failure) ==> failure.kind == ExceptionKind::ValueError,
        outcome matches Err(failure) ==> exists|key: String|
            {
                &&& #[trigger] headers@.contains_key(key)
                &&& failure.message@ == if !valid_name(encode_utf8(key@)) {
                    "invalid HTTP header name"@
                } else if !valid_value(encode_utf8(headers@[key]@)) {
                    "failed to parse header value"@
                } else {
                    "max size reached"@
                }
                &&& valid_name(encode_utf8(key@)) && valid_value(encode_utf8(headers@[key]@))
                    ==> headers@.dom().len() > HEADERS_ALWAYS_TAKEN
            },
{
    let pairs = walk(headers);
    let outcome = header_map_from_pairs(&pairs);
    proof {
        crate::header_laws::law_python_headers(headers@, outcome);
        crate::header_laws::law_few_entries_fit(headers@);
        if outcome is Ok {
            let map = outcome->Ok_0;
            crate::header_laws::law_map_holds_the_entries(headers@, map, Seq::empty(), 0);
            assert forall|name: Seq<u8>| #[trigger]
                header_entries(map).contains_key(name) implies header_entries(map)[name].len()
                == headers@.dom().filter(
                |key: String| normal_name(encode_utf8(key@)) == name,
            ).len() by {
                crate::header_laws::law_map_holds_the_entries(headers@, map, name, 0);
            }
        }
        if outcome is Err {
            crate::header_laws::law_entries_are_refused_for_a_reason(headers@, outcome->Err_0);
        }
    }
    outcome
}

/// The entries of a map are well formed exactly if the pairs of a walk are.
pub proof fn lemma_walk_valid(headers: Map<String, String>, pairs: Seq<(&String, &String)>)
    requires
        is_walk(headers, pairs),
    ensures
        all_valid(pair_bytes(pairs)) <==> all_entries_valid(headers),
{
    let bytes = pair_bytes(pairs);
    if all_valid(bytes) {
        assert forall|name: String| #[trigger] headers.contains_key(name) implies valid_header(
            (encode_utf8(name@), encode_utf8(headers[name]@)),
        ) by {
            let i = choose|i: int| 0 <= i < pairs.len() && *(#[trigger] pairs[i]).0 == name;
            assert(valid_header(bytes[i]));
        }
    }
    if all_entries_valid(headers) {
        assert forall|i: int| 0 <= i < bytes.len() implies valid_header(#[trigger] bytes[i]) by {
            assert(headers.contains_key(*pairs[i].0));
        }
    }
}

} // verus!
