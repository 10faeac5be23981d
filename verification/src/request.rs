//! The request that starts a run.
use std::collections::HashMap;

use vstd::prelude::*;
use vstd::utf8::encode_utf8;

use crate::call::Raised;
use crate::failure::{ExceptionKind, PyFailure};
use crate::header_laws::{law_entries_are_refused_for_a_reason, law_map_holds_the_entries};
use crate::headers::{
    all_entries_valid, all_orders_fit, header_entries, header_map_from_python, normal_name,
    python_outcome, valid_name, valid_value, HEADERS_ALWAYS_TAKEN,
};

verus! {

/// A request to an algorithm.
#[derive(Debug)]
pub struct Request<L, W, M> {
    pub llm_request: L,
    pub raw_request: Option<W>,
    pub metadata: Option<M>,
}

/// What may come of the headers that a run was given, where it was given any.
pub open spec fn headers_outcome(
    headers: Option<HashMap<String, String>>,
    outcome: Result<Option<http::HeaderMap<http::HeaderValue>>, PyFailure>,
) -> bool {
    match (headers, outcome) {
        (None, Ok(None)) => true,
        (Some(given), Ok(Some(built))) => python_outcome(given@, Ok(built)),
        (Some(given), Err(failure)) => python_outcome(given@, Err(failure)),
        _ => false,
    }
}

/// The headers that a run was given may all be taken.
pub open spec fn headers_may_be_taken(headers: Option<HashMap<String, String>>) -> bool {
    exists|built: Option<http::HeaderMap<http::HeaderValue>>| #[trigger]
        headers_outcome(headers, Ok(built))
}

/// Every header that a run was given is well formed.
pub open spec fn given_headers_valid(headers: Option<HashMap<String, String>>) -> bool {
    headers matches Some(given) ==> all_entries_valid(given@)
}

/// A header map can hold the headers that a run was given.
pub open spec fn given_headers_fit(headers: Option<HashMap<String, String>>) -> bool {
    headers matches Some(given) ==> (given@.dom().len() <= HEADERS_ALWAYS_TAKEN || all_orders_fit(
        given@,
    ))
}

/// A run has a header map exactly if it was given headers, and the map holds exactly those: every
/// entry's value, as it is, is among those of its name, every value in the map is that of an entry
/// with that name, and a name has as many values as there are entries with it. Only given headers
/// can fail, and only with a `ValueError`.
pub proof fn law_headers_are_those_given(
    headers: Option<HashMap<String, String>>,
    outcome: Result<Option<http::HeaderMap<http::HeaderValue>>, PyFailure>,
    name: Seq<u8>,
    at: int,
)
    requires
        headers_outcome(headers, outcome),
    ensures
        headers is None ==> outcome is Ok,
        outcome matches Ok(built) ==> (built is Some <==> headers is Some),
        outcome matches Err(failure) ==> failure.kind == ExceptionKind::ValueError,
        outcome matches Ok(Some(map)) ==> {
            let given = headers->0@;
            &&& forall|key: String| #[trigger]
                given.contains_key(key) ==> {
                    let stored = normal_name(encode_utf8(key@));
                    &&& valid_name(encode_utf8(key@))
                    &&& valid_value(encode_utf8(given[key]@))
                    &&& header_entries(map).contains_key(stored)
                    &&& header_entries(map)[stored].contains(encode_utf8(given[key]@))
                }
            &&& header_entries(map).contains_key(name) && 0 <= at < header_entries(map)[name].len()
                ==> exists|key: String| #[trigger]
                given.contains_key(key) && normal_name(encode_utf8(key@)) == name && encode_utf8(
                    given[key]@,
                ) == header_entries(map)[name][at]
            &&& header_entries(map).contains_key(name) ==> header_entries(map)[name].len()
                == given.dom().filter(
                |key: String| normal_name(encode_utf8(key@)) == name,
            ).len()
        },
{
    if let Some(given) = headers {
        if let Ok(Some(map)) = outcome {
            law_map_holds_the_entries(given@, map, name, at);
        }
        if let Err(failure) = outcome {
            law_entries_are_refused_for_a_reason(given@, failure);
        }
    }
}

/// Headers may be taken only if every name and every value among them is good, and few headers of
/// which that holds fit.
pub proof fn law_only_good_headers_may_be_taken(headers: Option<HashMap<String, String>>)
    ensures
        headers_may_be_taken(headers) ==> given_headers_valid(headers),
        given_headers_valid(headers) <==> (headers matches Some(given) ==> forall|key: String|
            #[trigger]
            given@.contains_key(key) ==> valid_name(encode_utf8(key@)) && valid_value(
                encode_utf8(given@[key]@),
            )),
        headers is None ==> given_headers_fit(headers),
        headers matches Some(given) ==> (given@.dom().len() <= HEADERS_ALWAYS_TAKEN
            ==> given_headers_fit(headers)),
{
    if headers_may_be_taken(headers) {
        let built = choose|built: Option<http::HeaderMap<http::HeaderValue>>| #[trigger]
            headers_outcome(headers, Ok(built));
        law_headers_are_those_given(headers, Ok(built), Seq::empty(), 0);
    }
}

/// The header map of the headers that a run was given, where it was given any.
pub fn request_headers(headers: &Option<HashMap<String, String>>) -> (outcome: Result<
    Option<http::HeaderMap<http::HeaderValue>>,
    PyFailure,
>)
    ensures
        headers_outcome(*headers, outcome),
        outcome is Ok ==> given_headers_valid(*headers),
        given_headers_fit(*headers) && given_headers_valid(*headers) ==> outcome is Ok,
        headers is None ==> outcome is Ok,
        outcome matches Ok(built) ==> (built is Some <==> headers is Some),
        outcome matches Err(failure) ==> failure.kind == ExceptionKind::ValueError,
        headers matches Some(given) ==> (given@.dom().len() <= HEADERS_ALWAYS_TAKEN && (forall|
            key: String,
        | #[trigger]
            given@.contains_key(key) ==> valid_name(encode_utf8(key@)) && valid_value(
                encode_utf8(given@[key]@),
            )) ==> outcome is Ok),
        outcome matches Ok(Some(map)) ==> forall|key: String| #[trigger]
            headers->0@.contains_key(key) ==> {
                let stored = normal_name(encode_utf8(key@));
                &&& valid_name(encode_utf8(key@))
                &&& valid_value(encode_utf8(headers->0@[key]@))
                &&& header_entries(map).contains_key(stored)
                &&& header_entries(map)[stored].contains(encode_utf8(headers->0@[key]@))
            },
{
    match headers {
        Some(given) => match header_map_from_python(given) {
            Ok(built) => Ok(Some(built)),
            Err(failure) => Err(failure),
        },
        None => Ok(None),
    }
}

/// What a run starts with, where its headers and its request came out as given.
pub open spec fn run_start<L, E, H>(
    headers: Result<H, PyFailure>,
    request: Result<L, E>,
    outcome: Result<(L, H), Raised<E>>,
) -> bool {
    match (headers, request) {
        (Err(failure), _) => outcome == Err::<(L, H), Raised<E>>(Raised::Bindings(failure)),
        (Ok(_), Err(error)) => outcome == Err::<(L, H), Raised<E>>(Raised::Host(error)),
        (Ok(built), Ok(converted)) => outcome == Ok::<(L, H), Raised<E>>((converted, built)),
    }
}

/// A run starts exactly if neither its headers nor its request failed, with both as they came. A
/// failure of the headers is passed on whatever came of the request; an error of the request only
/// where the headers did not fail.
pub proof fn law_run_start<L, E, H>(
    headers: Result<H, PyFailure>,
    request: Result<L, E>,
    outcome: Result<(L, H), Raised<E>>,
)
    requires
        run_start(headers, request, outcome),
    ensures
        outcome is Ok <==> headers is Ok && request is Ok,
        outcome matches Ok((converted, built)) ==> converted == request->Ok_0 && built
            == headers->Ok_0,
        headers matches Err(failure) ==> outcome->Err_0 == Raised::<E>::Bindings(failure),
        headers is Ok ==> (request matches Err(error) ==> outcome->Err_0 == Raised::Host(error)),
{
}

/// What a run starts with, given what came of its headers and of its request: a failure of the
/// headers comes before an error of the request.
pub fn start_run<L, E, H>(headers: Result<H, PyFailure>, request: Result<L, E>) -> (outcome: Result<
    (L, H),
    Raised<E>,
>)
    ensures
        match (headers, request) {
            (Err(failure), _) => outcome == Err::<(L, H), Raised<E>>(Raised::Bindings(failure)),
            (Ok(_), Err(error)) => outcome == Err::<(L, H), Raised<E>>(Raised::Host(error)),
            (Ok(built), Ok(converted)) => outcome == Ok::<(L, H), Raised<E>>((converted, built)),
        },
        run_start(headers, request, outcome),
        outcome is Ok <==> headers is Ok && request is Ok,
        outcome matches Ok((converted, built)) ==> converted == request->Ok_0 && built
            == headers->Ok_0,
{
    match headers {
        Ok(built) => match request {
            Ok(converted) => Ok((converted, built)),
            Err(error) => Err(Raised::Host(error)),
        },
        Err(failure) => Err(Raised::Bindings(failure)),
    }
}

/// What may come of the headers that a run was given and of the conversion of its request.
pub open spec fn prepared<L, E, F>(
    headers: Option<HashMap<String, String>>,
    convert: F,
    outcome: Result<(L, Option<http::HeaderMap<http::HeaderValue>>), Raised<E>>,
) -> bool where F: FnOnce() -> Result<L, E> {
    match outcome {
        Ok((converted, built)) => {
            &&& headers_outcome(headers, Ok(built))
            &&& convert.ensures((), Ok(converted))
        },
        Err(Raised::Bindings(failure)) => headers_outcome(headers, Err(failure)),
        Err(Raised::Host(error)) => {
            &&& headers_may_be_taken(headers)
            &&& convert.ensures((), Err(error))
        },
    }
}

/// A prepared run has the request that the conversion gave, and a header map exactly if it was
/// given headers, which holds every one of them. The bindings fail only for given headers, with a
/// `ValueError`; the host's error is the conversion's, and comes only where every given header is
/// good.
pub proof fn law_prepared_run<L, E, F>(
    headers: Option<HashMap<String, String>>,
    convert: F,
    outcome: Result<(L, Option<http::HeaderMap<http::HeaderValue>>), Raised<E>>,
) where F: FnOnce() -> Result<L, E>
    requires
        prepared(headers, convert, outcome),
    ensures
        outcome matches Ok((converted, _)) ==> convert.ensures((), Ok(converted)),
        outcome matches Ok((_, built)) ==> (built is Some <==> headers is Some),
        outcome matches Ok((_, Some(map))) ==> forall|key: String| #[trigger]
            headers->0@.contains_key(key) ==> header_entries(map).contains_key(
                normal_name(encode_utf8(key@)),
            ) && header_entries(map)[normal_name(encode_utf8(key@))].contains(
                encode_utf8(headers->0@[key]@),
            ),
        outcome matches Err(Raised::Bindings(failure)) ==> headers is Some && failure.kind
            == ExceptionKind::ValueError,
        outcome matches Err(Raised::Host(error)) ==> convert.ensures((), Err(error)),
        !(outcome matches Err(Raised::Bindings(_))) ==> (headers matches Some(given) ==> forall|
            key: String,
        | #[trigger]
            given@.contains_key(key) ==> valid_name(encode_utf8(key@)) && valid_value(
                encode_utf8(given@[key]@),
            )),
{
    law_only_good_headers_may_be_taken(headers);
    match outcome {
        Ok((_, built)) => {
            law_headers_are_those_given(headers, Ok(built), Seq::empty(), 0);
        },
        Err(Raised::Bindings(failure)) => {
            law_headers_are_those_given(headers, Err(failure), Seq::empty(), 0);
        },
        Err(Raised::Host(_)) => {},
    }
}

/// What a run starts with: its converted request and the header map of its headers.
///
/// A run starts exactly if both can be made. The headers come first: where they fail, the request
/// is not looked at.
pub fn prepare_run<L, E, F>(headers: &Option<HashMap<String, String>>, convert: F) -> (outcome:
    Result<(L, Option<http::HeaderMap<http::HeaderValue>>), Raised<E>>) where
    F: FnOnce() -> Result<L, E>,

    requires
        convert.requires(()),
    ensures
        match outcome {
            Ok((converted, built)) => {
                &&& headers_outcome(*headers, Ok(built))
                &&& convert.ensures((), Ok(converted))
            },
            Err(Raised::Bindings(failure)) => headers_outcome(*headers, Err(failure)),
            Err(Raised::Host(error)) => {
                &&& headers_may_be_taken(*headers)
                &&& convert.ensures((), Err(error))
            },
        },
        prepared(*headers, convert, outcome),
        outcome matches Ok((_, built)) ==> (built is Some <==> headers is Some),
        outcome matches Ok((_, Some(map))) ==> forall|key: String| #[trigger]
            headers->0@.contains_key(key) ==> header_entries(map).contains_key(
                normal_name(encode_utf8(key@)),
            ) && header_entries(map)[normal_name(encode_utf8(key@))].contains(
                encode_utf8(headers->0@[key]@),
            ),
        !given_headers_valid(*headers) ==> outcome matches Err(Raised::Bindings(_)),
        given_headers_fit(*headers) && given_headers_valid(*headers) ==> !(outcome matches Err(
            Raised::Bindings(_),
        )),
{
    match request_headers(headers) {
        Ok(built) => {
            assert(headers_outcome(*headers, Ok(built)));
            start_run(Ok(built), convert())
        },
        Err(failure) => Err(Raised::Bindings(failure)),
    }
}

/// The request that a run is made with.
pub open spec fn is_run_request<L, W, M>(
    llm_request: L,
    metadata: Option<M>,
    request: Request<L, W, M>,
) -> bool {
    request == (Request { llm_request, raw_request: None::<W>, metadata })
}

/// A run's request keeps the request to the model and the metadata, which is there exactly if it
/// was given, and has no raw request.
pub proof fn law_run_request<L, W, M>(
    llm_request: L,
    metadata: Option<M>,
    request: Request<L, W, M>,
)
    requires
        is_run_request(llm_request, metadata, request),
    ensures
        request.llm_request == llm_request,
        request.raw_request is None,
        request.metadata is Some <==> metadata is Some,
        metadata is Some ==> request.metadata->0 == metadata->0,
{
}

/// The request of a run: no raw request goes with it.
pub fn run_request<L, W, M>(llm_request: L, metadata: Option<M>) -> (request: Request<L, W, M>)
    ensures
        request.llm_request == llm_request,
        request.raw_request is None,
        request.metadata == metadata,
        is_run_request(llm_request, metadata, request),
{
    Request { llm_request, raw_request: None, metadata }
}

} // verus!
