//! What holds of header maps built from pairs of strings.
use vstd::multiset::Multiset;
use vstd::prelude::*;
use vstd::utf8::encode_utf8;

use crate::failure::{ExceptionKind, PyFailure, PyFailureView};
use crate::headers::{
    all_entries_valid, all_orders_fit, all_valid, conversion_failure, fits, full_after,
    header_entries, header_outcome, header_table, is_token_byte, is_walk, lemma_walk_valid,
    lower_byte, names_of, normal_name, pair_bytes, python_outcome, refused_at,
    refused_for_an_entry, room_at, tried_names, valid_header, valid_name, valid_value,
    HEADERS_ALWAYS_TAKEN,
};

verus! {

broadcast use vstd::seq_lib::group_to_multiset_ensures;

/// The values of the pairs whose names are stored as `name`, in their order.
pub open spec fn values_of(pairs: Seq<(Seq<u8>, Seq<u8>)>, name: Seq<u8>) -> Seq<Seq<u8>> {
    pairs.filter(
        |pair: (Seq<u8>, Seq<u8>)| normal_name(pair.0) == name,
    ).map_values(|pair: (Seq<u8>, Seq<u8>)| pair.1)
}

/// How [`values_of`] grows with the last pair.
proof fn lemma_values_of_last(pairs: Seq<(Seq<u8>, Seq<u8>)>, name: Seq<u8>)
    requires
        pairs.len() > 0,
    ensures
        values_of(pairs, name) == if normal_name(pairs.last().0) == name {
            values_of(pairs.drop_last(), name).push(pairs.last().1)
        } else {
            values_of(pairs.drop_last(), name)
        },
{
    reveal(Seq::filter);
    let here = |pair: (Seq<u8>, Seq<u8>)| normal_name(pair.0) == name;
    let value = |pair: (Seq<u8>, Seq<u8>)| pair.1;
    let rest = pairs.drop_last().filter(here);
    if here(pairs.last()) {
        assert(rest.push(pairs.last()).map_values(value) =~= rest.map_values(value).push(
            pairs.last().1,
        ));
    }
}

/// A header map holds, under each name and in order, the values that were given for it in any
/// letter case; it holds no other name.
pub proof fn law_table_holds_the_values(pairs: Seq<(Seq<u8>, Seq<u8>)>, name: Seq<u8>)
    ensures
        header_table(pairs).contains_key(name) <==> values_of(pairs, name).len()
            > 0,
        header_table(pairs).contains_key(name) ==> header_table(
            pairs,
        )[name] == values_of(pairs, name),
    decreases pairs.len(),
{
    if pairs.len() == 0 {
        reveal(Seq::filter);
    } else {
        law_table_holds_the_values(pairs.drop_last(), name);
        lemma_values_of_last(pairs, name);
        assert(Seq::<Seq<u8>>::empty().push(pairs.last().1) =~= seq![pairs.last().1]);
        assert(values_of(pairs.drop_last(), name).len() == 0 ==> values_of(pairs.drop_last(), name)
            =~= Seq::empty());
    }
}

/// The bytes of pairs of strings are those of each name and each value, whole and in their place.
pub proof fn law_bytes_are_the_strings(pairs: Seq<(&String, &String)>, at: int)
    ensures
        pair_bytes(pairs).len() == pairs.len(),
        0 <= at < pairs.len() ==> pair_bytes(pairs)[at].0 == encode_utf8(pairs[at].0@),
        0 <= at < pairs.len() ==> pair_bytes(pairs)[at].1 == encode_utf8(pairs[at].1@),
{
}

/// A stored name is the given one, byte for byte, with the letters from A to Z in lower case.
pub proof fn law_stored_name(name: Seq<u8>, at: int)
    ensures
        normal_name(name).len() == name.len(),
        0 <= at < name.len() && 65 <= name[at] <= 90 ==> normal_name(name)[at] == name[at] + 32,
        0 <= at < name.len() && !(65 <= name[at] <= 90) ==> normal_name(name)[at] == name[at],
{
}

/// Where pairs are taken, the map has exactly their names, and under each name exactly the values
/// that were given for it, byte for byte and in order.
pub proof fn law_map_holds_the_values(
    pairs: Seq<(Seq<u8>, Seq<u8>)>,
    map: http::HeaderMap<http::HeaderValue>,
    name: Seq<u8>,
)
    requires
        header_outcome(pairs, Ok(map)),
    ensures
        header_entries(map).contains_key(name) <==> values_of(pairs, name).len() > 0,
        header_entries(map).contains_key(name) ==> header_entries(map)[name] == values_of(
            pairs,
            name,
        ),
{
    law_table_holds_the_values(pairs, name);
}

/// Without pairs nothing is refused, and the map has no name.
pub proof fn law_no_pairs_no_headers(
    outcome: Result<http::HeaderMap<http::HeaderValue>, PyFailure>,
)
    requires
        header_outcome(Seq::empty(), outcome),
    ensures
        outcome is Ok,
        forall|name: Seq<u8>| !(#[trigger] header_entries(outcome->Ok_0).contains_key(name)),
{
}

/// One more pair adds its value, as it is, at the end of its name's values, and changes nothing
/// else: no other name comes or goes, and no other value changes.
pub proof fn law_one_more_pair(
    pairs: Seq<(Seq<u8>, Seq<u8>)>,
    pair: (Seq<u8>, Seq<u8>),
    before: http::HeaderMap<http::HeaderValue>,
    after: http::HeaderMap<http::HeaderValue>,
    name: Seq<u8>,
)
    requires
        header_outcome(pairs, Ok(before)),
        header_outcome(pairs.push(pair), Ok(after)),
    ensures
        header_entries(after).contains_key(normal_name(pair.0)),
        header_entries(after)[normal_name(pair.0)].last() == pair.1,
        header_entries(before).contains_key(normal_name(pair.0)) ==> header_entries(
            after,
        )[normal_name(pair.0)].drop_last() =~= header_entries(before)[normal_name(pair.0)],
        !header_entries(before).contains_key(normal_name(pair.0)) ==> header_entries(
            after,
        )[normal_name(pair.0)].len() == 1,
        name != normal_name(pair.0) ==> (header_entries(after).contains_key(name)
            <==> header_entries(before).contains_key(name)),
        name != normal_name(pair.0) && header_entries(before).contains_key(name)
            ==> header_entries(after)[name] == header_entries(before)[name],
{
    assert(pairs.push(pair).drop_last() =~= pairs);
}

/// No value is lost and none is made up: every pair's value, as it is, is among those of its name,
/// and every value in the map is that of a pair with that name.
pub proof fn law_values_are_those_of_the_pairs(
    pairs: Seq<(Seq<u8>, Seq<u8>)>,
    map: http::HeaderMap<http::HeaderValue>,
    name: Seq<u8>,
    at: int,
)
    requires
        header_outcome(pairs, Ok(map)),
    ensures
        forall|i: int|
            #![trigger pairs[i]]
            0 <= i < pairs.len() ==> {
                let stored = normal_name(pairs[i].0);
                &&& valid_name(pairs[i].0)
                &&& valid_value(pairs[i].1)
                &&& header_entries(map).contains_key(stored)
                &&& header_entries(map)[stored].contains(pairs[i].1)
            },
        header_entries(map).contains_key(name) && 0 <= at < header_entries(map)[name].len()
            ==> exists|i: int|
            #![trigger pairs[i]]
            0 <= i < pairs.len() && normal_name(pairs[i].0) == name && pairs[i].1 == header_entries(
                map,
            )[name][at],
{
    assert forall|i: int| #![trigger pairs[i]] 0 <= i < pairs.len() implies {
        let stored = normal_name(pairs[i].0);
        &&& valid_name(pairs[i].0)
        &&& valid_value(pairs[i].1)
        &&& header_entries(map).contains_key(stored)
        &&& header_entries(map)[stored].contains(pairs[i].1)
    } by {
        lemma_pair_is_stored(pairs, i);
        assert(valid_header(pairs[i]));
    }
    if header_entries(map).contains_key(name) && 0 <= at < header_entries(map)[name].len() {
        lemma_stored_value_has_a_pair(pairs, name, at);
    }
}

/// The value of each pair is in the table, under its name.
proof fn lemma_pair_is_stored(pairs: Seq<(Seq<u8>, Seq<u8>)>, i: int)
    requires
        0 <= i < pairs.len(),
    ensures
        header_table(pairs).contains_key(normal_name(pairs[i].0)),
        header_table(pairs)[normal_name(pairs[i].0)].contains(pairs[i].1),
    decreases pairs.len(),
{
    let rest = pairs.drop_last();
    let name = normal_name(pairs[i].0);
    let values = header_table(pairs)[name];
    if i < rest.len() {
        lemma_pair_is_stored(rest, i);
        let at = choose|at: int|
            0 <= at < header_table(rest)[name].len() && header_table(rest)[name][at] == pairs[i].1;
        assert(values[at] == pairs[i].1);
    } else {
        assert(values.last() == pairs[i].1);
    }
}

/// Each value in the table is that of a pair with its name.
proof fn lemma_stored_value_has_a_pair(
    pairs: Seq<(Seq<u8>, Seq<u8>)>,
    name: Seq<u8>,
    at: int,
)
    requires
        header_table(pairs).contains_key(name),
        0 <= at < header_table(pairs)[name].len(),
    ensures
        exists|i: int|
            #![trigger pairs[i]]
            0 <= i < pairs.len() && normal_name(pairs[i].0) == name && pairs[i].1 == header_table(
                pairs,
            )[name][at],
    decreases pairs.len(),
{
    let rest = pairs.drop_last();
    let last = pairs.len() - 1;
    let values = header_table(pairs)[name];
    if normal_name(pairs[last].0) == name && at == values.len() - 1 {
        assert(pairs[last].1 == values[at]);
    } else {
        lemma_stored_value_has_a_pair(rest, name, at);
        let i = choose|i: int|
            #![trigger rest[i]]
            0 <= i < rest.len() && normal_name(rest[i].0) == name && rest[i].1 == header_table(
                rest,
            )[name][at];
        assert(pairs[i] == rest[i]);
    }
}

/// Each pair is tried once, in order: the names that were tried on the map are those of the pairs.
pub proof fn law_each_pair_is_tried_once(
    pairs: Seq<(Seq<u8>, Seq<u8>)>,
    map: http::HeaderMap<http::HeaderValue>,
)
    requires
        header_outcome(pairs, Ok(map)),
    ensures
        tried_names(map) is Some,
        tried_names(map)->0.len() == pairs.len(),
        forall|i: int|
            0 <= i < pairs.len() ==> #[trigger] tried_names(map)->0[i] == normal_name(pairs[i].0),
{
}

/// A refusal says what is wrong with the first pair that cannot be taken: a bad name, or else a
/// bad value, or else that a map on which exactly the names before it were tried is full, which
/// never happens with few pairs.
pub proof fn law_refusal_says_why(pairs: Seq<(Seq<u8>, Seq<u8>)>, failure: PyFailure)
    requires
        header_outcome(pairs, Err(failure)),
    ensures
        failure.kind == ExceptionKind::ValueError,
        exists|at: int|
            #![trigger pairs[at]]
            {
                &&& 0 <= at < pairs.len()
                &&& forall|i: int|
                    0 <= i < at ==> valid_name((#[trigger] pairs[i]).0) && valid_value(pairs[i].1)
                &&& failure.message@ == if !valid_name(pairs[at].0) {
                    "invalid HTTP header name"@
                } else if !valid_value(pairs[at].1) {
                    "failed to parse header value"@
                } else {
                    "max size reached"@
                }
                &&& valid_name(pairs[at].0) && valid_value(pairs[at].1) ==> {
                    &&& at >= HEADERS_ALWAYS_TAKEN
                    &&& full_after(Seq::new(at as nat, |i: int| normal_name(pairs[i].0)))
                }
            },
{
    let at = choose|at: int| refused_at(pairs, at, failure@);
    assert(refused_at(pairs, at, failure@));
    assert forall|i: int| 0 <= i < at implies valid_name((#[trigger] pairs[i]).0) && valid_value(
        pairs[i].1,
    ) by {
        assert(valid_header(pairs.take(at)[i]));
    }
    law_table_size(pairs.take(at));
    assert(names_of(pairs.take(at)) =~= Seq::new(at as nat, |i: int| normal_name(pairs[i].0)));
}

/// Few pairs with good names and good values are always taken.
pub proof fn law_few_good_pairs_are_taken(
    pairs: Seq<(Seq<u8>, Seq<u8>)>,
    outcome: Result<http::HeaderMap<http::HeaderValue>, PyFailure>,
)
    requires
        header_outcome(pairs, outcome),
        pairs.len() <= HEADERS_ALWAYS_TAKEN,
        forall|i: int|
            0 <= i < pairs.len() ==> valid_name((#[trigger] pairs[i]).0) && valid_value(pairs[i].1),
    ensures
        outcome is Ok,
{
    if let Err(failure) = outcome {
        law_refusal_says_why(pairs, failure);
    }
}

/// The headers that Python gave are in the map, and nothing else is: every entry's value, as it
/// is, is among those of its name, every value in the map is that of an entry with that name, and
/// a name has as many values as there are entries with it.
pub proof fn law_map_holds_the_entries(
    headers: Map<String, String>,
    map: http::HeaderMap<http::HeaderValue>,
    name: Seq<u8>,
    at: int,
)
    requires
        python_outcome(headers, Ok(map)),
    ensures
        forall|key: String| #[trigger]
            headers.contains_key(key) ==> {
                let stored = normal_name(encode_utf8(key@));
                &&& valid_name(encode_utf8(key@))
                &&& valid_value(encode_utf8(headers[key]@))
                &&& header_entries(map).contains_key(stored)
                &&& header_entries(map)[stored].contains(encode_utf8(headers[key]@))
            },
        header_entries(map).contains_key(name) && 0 <= at < header_entries(map)[name].len()
            ==> exists|key: String| #[trigger]
            headers.contains_key(key) && normal_name(encode_utf8(key@)) == name && encode_utf8(
                headers[key]@,
            ) == header_entries(map)[name][at],
        header_entries(map).contains_key(name) ==> header_entries(map)[name].len()
            == headers.dom().filter(
            |key: String| normal_name(encode_utf8(key@)) == name,
        ).len(),
{
    let pairs = choose|pairs: Seq<(&String, &String)>| #[trigger]
        is_walk(headers, pairs) && header_outcome(pair_bytes(pairs), Ok(map));
    let bytes = pair_bytes(pairs);
    law_values_are_those_of_the_pairs(bytes, map, name, at);
    assert forall|key: String| #[trigger] headers.contains_key(key) implies {
        let stored = normal_name(encode_utf8(key@));
        &&& valid_name(encode_utf8(key@))
        &&& valid_value(encode_utf8(headers[key]@))
        &&& header_entries(map).contains_key(stored)
        &&& header_entries(map)[stored].contains(encode_utf8(headers[key]@))
    } by {
        let i = choose|i: int| 0 <= i < pairs.len() && *(#[trigger] pairs[i]).0 == key;
        assert(bytes[i] == (encode_utf8(key@), encode_utf8(headers[key]@)));
    }
    if header_entries(map).contains_key(name) {
        if 0 <= at < header_entries(map)[name].len() {
            let i = choose|i: int|
                #![trigger bytes[i]]
                0 <= i < bytes.len() && normal_name(bytes[i].0) == name && bytes[i].1
                    == header_entries(map)[name][at];
            let key = *pairs[i].0;
            assert(headers.contains_key(key) && headers[key] == *pairs[i].1);
        }
        law_map_holds_the_values(bytes, map, name);
        lemma_values_are_as_many_as_keys(pairs, name);
        assert(walked_keys(pairs) =~= headers.dom()) by {
            assert forall|key: String| walked_keys(pairs).contains(key) <==> headers.dom().contains(
                key,
            ) by {
                if headers.contains_key(key) {
                    let i = choose|i: int| 0 <= i < pairs.len() && *(#[trigger] pairs[i]).0 == key;
                    assert(walked_names(pairs)[i] == key);
                }
                if walked_keys(pairs).contains(key) {
                    let i = choose|i: int|
                        0 <= i < pairs.len() && #[trigger] walked_names(pairs)[i] == key;
                    assert(headers.contains_key(*pairs[i].0));
                }
            }
        }
    }
}

/// The names of a walk, as they were given.
spec fn walked_names(pairs: Seq<(&String, &String)>) -> Seq<String> {
    pairs.map_values(|pair: (&String, &String)| *pair.0)
}

/// The names of a walk, without their order.
spec fn walked_keys(pairs: Seq<(&String, &String)>) -> Set<String> {
    walked_names(pairs).to_set()
}

/// Where the names of a walk differ, a stored name has as many values as there are names for it.
proof fn lemma_values_are_as_many_as_keys(pairs: Seq<(&String, &String)>, name: Seq<u8>)
    requires
        forall|i: int, j: int|
            0 <= i < j < pairs.len() ==> *(#[trigger] pairs[i]).0 != *(#[trigger] pairs[j]).0,
    ensures
        walked_keys(pairs).finite(),
        values_of(pair_bytes(pairs), name).len() == walked_keys(pairs).filter(
            |key: String| normal_name(encode_utf8(key@)) == name,
        ).len(),
    decreases pairs.len(),
{
    let here = |key: String| normal_name(encode_utf8(key@)) == name;
    let keys = walked_keys(pairs);
    let bytes = pair_bytes(pairs);
    if pairs.len() == 0 {
        reveal(Seq::filter);
        assert(keys =~= Set::empty());
        assert(keys.filter(here) =~= Set::empty());
    } else {
        let rest = pairs.drop_last();
        let last = *pairs.last().0;
        lemma_values_are_as_many_as_keys(rest, name);
        lemma_values_of_last(bytes, name);
        assert(bytes.drop_last() =~= pair_bytes(rest));
        let all = walked_names(pairs);
        let some = walked_names(rest);
        assert(all =~= some.push(last));
        assert(keys =~= walked_keys(rest).insert(last)) by {
            assert forall|key: String| keys.contains(key) <==> walked_keys(rest).insert(
                last,
            ).contains(key) by {
                if keys.contains(key) {
                    let i = choose|i: int| 0 <= i < all.len() && all[i] == key;
                    if i < some.len() {
                        assert(some[i] == key);
                    }
                }
                if walked_keys(rest).contains(key) {
                    let i = choose|i: int| 0 <= i < some.len() && some[i] == key;
                    assert(all[i] == key);
                }
                assert(all[all.len() - 1] == last);
            }
        }
        assert(!walked_keys(rest).contains(last)) by {
            if walked_keys(rest).contains(last) {
                let i = choose|i: int| 0 <= i < some.len() && some[i] == last;
                assert(*pairs[i].0 != *pairs[pairs.len() - 1].0);
            }
        }
        if here(last) {
            assert(keys.filter(here) =~= walked_keys(rest).filter(here).insert(last));
        } else {
            assert(keys.filter(here) =~= walked_keys(rest).filter(here));
        }
    }
}

/// A refusal of the headers that Python gave says what is wrong: some entry's name is bad, or else
/// its value is, or there are too many.
pub proof fn law_entries_are_refused_for_a_reason(
    headers: Map<String, String>,
    failure: PyFailure,
)
    requires
        python_outcome(headers, Err(failure)),
    ensures
        failure.kind == ExceptionKind::ValueError,
        exists|key: String|
            {
                &&& #[trigger] headers.contains_key(key)
                &&& failure.message@ == if !valid_name(encode_utf8(key@)) {
                    "invalid HTTP header name"@
                } else if !valid_value(encode_utf8(headers[key]@)) {
                    "failed to parse header value"@
                } else {
                    "max size reached"@
                }
                &&& valid_name(encode_utf8(key@)) && valid_value(encode_utf8(headers[key]@))
                    ==> headers.dom().len() > HEADERS_ALWAYS_TAKEN
            },
{
    let pairs = choose|pairs: Seq<(&String, &String)>| #[trigger]
        is_walk(headers, pairs) && header_outcome(pair_bytes(pairs), Err(failure));
    let bytes = pair_bytes(pairs);
    law_refusal_says_why(bytes, failure);
    let at = choose|at: int|
        #![trigger bytes[at]]
        {
            &&& 0 <= at < bytes.len()
            &&& forall|i: int|
                0 <= i < at ==> valid_name((#[trigger] bytes[i]).0) && valid_value(bytes[i].1)
            &&& failure.message@ == if !valid_name(bytes[at].0) {
                "invalid HTTP header name"@
            } else if !valid_value(bytes[at].1) {
                "failed to parse header value"@
            } else {
                "max size reached"@
            }
            &&& valid_name(bytes[at].0) && valid_value(bytes[at].1) ==> {
                &&& at >= HEADERS_ALWAYS_TAKEN
                &&& full_after(Seq::new(at as nat, |i: int| normal_name(bytes[i].0)))
            }
        };
    let key = *pairs[at].0;
    assert(headers.contains_key(key) && headers[key] == *pairs[at].1);
    assert(bytes[at] == (encode_utf8(key@), encode_utf8(headers[key]@)));
}

/// There are no more names than pairs.
pub proof fn law_table_size(pairs: Seq<(Seq<u8>, Seq<u8>)>)
    ensures
        header_table(pairs).dom().finite(),
        header_table(pairs).dom().len() <= pairs.len(),
    decreases pairs.len(),
{
    if pairs.len() > 0 {
        law_table_size(pairs.drop_last());
    }
}

/// Header names are equal in any letter case: pairs that differ in the case of names alone are
/// well formed alike and give the same table.
pub proof fn law_names_ignore_case(p: Seq<(Seq<u8>, Seq<u8>)>, q: Seq<(Seq<u8>, Seq<u8>)>)
    requires
        p.len() == q.len(),
        forall|i: int|
            0 <= i < p.len() ==> normal_name((#[trigger] p[i]).0)
                == normal_name(q[i].0),
        forall|i: int| 0 <= i < p.len() ==> (#[trigger] p[i]).1 == q[i].1,
    ensures
        all_valid(p) <==> all_valid(q),
        header_table(p) == header_table(q),
    decreases p.len(),
{
    assert forall|i: int| 0 <= i < p.len() implies valid_header(#[trigger] p[i])
        == valid_header(q[i]) by {
        lemma_valid_name_ignores_case(p[i].0);
        lemma_valid_name_ignores_case(q[i].0);
    }
    if all_valid(p) {
        assert forall|i: int| 0 <= i < q.len() implies valid_header(
            #[trigger] q[i],
        ) by {
            assert(valid_header(p[i]));
        }
    }
    if all_valid(q) {
        assert forall|i: int| 0 <= i < p.len() implies valid_header(
            #[trigger] p[i],
        ) by {
            assert(valid_header(q[i]));
        }
    }
    if p.len() > 0 {
        let n = p.len() - 1;
        assert(normal_name(p[n].0) == normal_name(q[n].0));
        assert(p[n].1 == q[n].1);
        assert forall|i: int| 0 <= i < p.drop_last().len() implies normal_name(
            (#[trigger] p.drop_last()[i]).0,
        ) == normal_name(q.drop_last()[i].0) && p.drop_last()[i].1
            == q.drop_last()[i].1 by {
            assert(p.drop_last()[i] == p[i]);
        }
        law_names_ignore_case(p.drop_last(), q.drop_last());
    }
}

/// A name is well formed exactly if its stored form is.
proof fn lemma_valid_name_ignores_case(name: Seq<u8>)
    ensures
        valid_name(name) <==> valid_name(
            normal_name(name),
        ),
{
    let normal = normal_name(name);
    assert forall|i: int| 0 <= i < name.len() implies is_token_byte(
        #[trigger] name[i],
    ) == is_token_byte(normal[i]) by {
        assert(normal[i] == lower_byte(name[i]));
    }
    if valid_name(normal) {
        assert forall|i: int| 0 <= i < name.len() implies is_token_byte(
            #[trigger] name[i],
        ) by {
            assert(is_token_byte(normal[i]));
        }
    }
    if valid_name(name) {
        assert forall|i: int| 0 <= i < normal.len() implies is_token_byte(
            #[trigger] normal[i],
        ) by {
            assert(is_token_byte(name[i]));
        }
    }
}

/// A header map can hold the pairs where they are few enough.
pub proof fn law_few_headers_fit(pairs: Seq<(Seq<u8>, Seq<u8>)>)
    ensures
        pairs.len() <= HEADERS_ALWAYS_TAKEN ==> fits(pairs),
{
    if pairs.len() <= HEADERS_ALWAYS_TAKEN {
        assert forall|at: int| 0 <= at < pairs.len() implies #[trigger] room_at(pairs, at) by {
            law_table_size(pairs.take(at));
        }
    }
}

/// A header map can hold the entries of a map where they are few enough.
pub proof fn law_few_entries_fit(headers: Map<String, String>)
    ensures
        headers.dom().len() <= HEADERS_ALWAYS_TAKEN ==> all_orders_fit(headers),
{
    assert forall|pairs: Seq<(&String, &String)>| #[trigger] is_walk(headers, pairs)
        && headers.dom().len() <= HEADERS_ALWAYS_TAKEN implies fits(pair_bytes(pairs)) by {
        law_few_headers_fit(pair_bytes(pairs));
    }
}

/// Headers that a header map can hold are taken exactly if all are well formed; otherwise the
/// first that is not is reported, and none is skipped.
pub proof fn law_taken_exactly_if_valid(
    pairs: Seq<(Seq<u8>, Seq<u8>)>,
    outcome: Result<http::HeaderMap<http::HeaderValue>, PyFailure>,
)
    requires
        header_outcome(pairs, outcome),
        fits(pairs),
    ensures
        outcome is Ok <==> all_valid(pairs),
        outcome matches Err(failure) ==> exists|at: int|
            #![trigger pairs[at]]
            0 <= at < pairs.len() && !valid_header(pairs[at]) && all_valid(pairs.take(at))
                && failure@ == conversion_failure(pairs[at]),
{
    if let Err(failure) = outcome {
        let at = choose|at: int| refused_at(pairs, at, failure@);
        assert(refused_at(pairs, at, failure@));
        if valid_header(pairs[at]) {
            assert(room_at(pairs, at));
        }
        assert(!valid_header(pairs[at]));
    }
}

/// The headers that Python gives are taken only if all are well formed. Where a header map can
/// hold them, they are taken exactly if all are, and otherwise one that is not is reported.
pub proof fn law_python_headers(
    headers: Map<String, String>,
    outcome: Result<http::HeaderMap<http::HeaderValue>, PyFailure>,
)
    requires
        python_outcome(headers, outcome),
    ensures
        outcome is Ok ==> all_entries_valid(headers),
        all_orders_fit(headers) ==> (outcome is Ok <==> all_entries_valid(headers)),
        all_orders_fit(headers) ==> (outcome matches Err(failure) ==> refused_for_an_entry(
            headers,
            failure@,
        )),
{
    let pairs = choose|pairs: Seq<(&String, &String)>| #[trigger]
        is_walk(headers, pairs) && header_outcome(pair_bytes(pairs), outcome);
    let bytes = pair_bytes(pairs);
    lemma_walk_valid(headers, pairs);
    if all_orders_fit(headers) {
        law_taken_exactly_if_valid(bytes, outcome);
        if let Err(failure) = outcome {
            let at = choose|at: int|
                #![trigger bytes[at]]
                0 <= at < bytes.len() && !valid_header(bytes[at]) && all_valid(bytes.take(at))
                    && failure@ == conversion_failure(bytes[at]);
            let name = *pairs[at].0;
            assert(headers.contains_key(name) && headers[name] == *pairs[at].1);
            assert(bytes[at] == (encode_utf8(name@), encode_utf8(headers[name]@)));
        }
    }
}

/// What comes of the pairs is determined: the same pairs are always taken or always refused, into
/// the same table or with the same failure.
pub proof fn law_outcome_is_determined(
    pairs: Seq<(Seq<u8>, Seq<u8>)>,
    a: Result<http::HeaderMap<http::HeaderValue>, PyFailure>,
    b: Result<http::HeaderMap<http::HeaderValue>, PyFailure>,
)
    requires
        header_outcome(pairs, a),
        header_outcome(pairs, b),
    ensures
        match (a, b) {
            (Ok(x), Ok(y)) => header_entries(x) == header_entries(y),
            (Err(x), Err(y)) => x@ == y@,
            _ => false,
        },
{
    if let Err(x) = a {
        let i = choose|at: int| refused_at(pairs, at, x@);
        lemma_refusal_is_the_first(pairs, i, x@, b);
    }
    if let Err(y) = b {
        let j = choose|at: int| refused_at(pairs, at, y@);
        lemma_refusal_is_the_first(pairs, j, y@, a);
    }
}

/// Where a pair is refused, nothing else can come of the pairs.
proof fn lemma_refusal_is_the_first(
    pairs: Seq<(Seq<u8>, Seq<u8>)>,
    at: int,
    failure: PyFailureView,
    outcome: Result<http::HeaderMap<http::HeaderValue>, PyFailure>,
)
    requires
        refused_at(pairs, at, failure),
        header_outcome(pairs, outcome),
    ensures
        outcome matches Err(other) && other@ == failure,
{
    assert(valid_header(pairs[at]) ==> !room_at(pairs, at));
    if let Err(other) = outcome {
        let j = choose|j: int| refused_at(pairs, j, other@);
        assert(valid_header(pairs[j]) ==> !room_at(pairs, j));
        if at < j {
            assert(pairs.take(j)[at] == pairs[at]);
        }
        if j < at {
            assert(pairs.take(at)[j] == pairs[j]);
        }
    }
}

/// Whatever is wrong with headers, Python gets a `ValueError`.
pub proof fn law_header_failures_are_value_errors(
    pairs: Seq<(Seq<u8>, Seq<u8>)>,
    outcome: Result<http::HeaderMap<http::HeaderValue>, PyFailure>,
)
    requires
        header_outcome(pairs, outcome),
    ensures
        outcome matches Err(failure) ==> failure.kind == ExceptionKind::ValueError,
{
    if let Err(failure) = outcome {
        let at = choose|at: int| refused_at(pairs, at, failure@);
        assert(failure@.kind == ExceptionKind::ValueError);
    }
}

/// Two walks of one map visit the same pairs, each once.
proof fn lemma_walks_are_permutations<'a>(
    headers: Map<String, String>,
    p: Seq<(&'a String, &'a String)>,
    q: Seq<(&'a String, &'a String)>,
)
    requires
        is_walk(headers, p),
        is_walk(headers, q),
    ensures
        p.to_multiset() == q.to_multiset(),
{
    lemma_walk_visits_once(headers, p);
    lemma_walk_visits_once(headers, q);
    assert forall|x: (&'a String, &'a String)|
        p.to_multiset().count(x) == q.to_multiset().count(x) by {
        assert(p.contains(x) <==> headers.contains_key(*x.0) && headers[*x.0] == *x.1);
        assert(q.contains(x) <==> headers.contains_key(*x.0) && headers[*x.0] == *x.1);
    }
    assert(p.to_multiset() =~= q.to_multiset());
}

/// A walk visits a pair exactly if it is an entry of the map, and then once.
proof fn lemma_walk_visits_once<'a>(
    headers: Map<String, String>,
    pairs: Seq<(&'a String, &'a String)>,
)
    requires
        is_walk(headers, pairs),
    ensures
        forall|x: (&'a String, &'a String)| #[trigger]
            pairs.contains(x) <==> headers.contains_key(*x.0) && headers[*x.0] == *x.1,
        forall|x: (&'a String, &'a String)| #[trigger]
            pairs.to_multiset().count(x) == if pairs.contains(x) {
                1nat
            } else {
                0nat
            },
{
    assert(pairs.no_duplicates()) by {
        assert forall|i: int, j: int|
            0 <= i < pairs.len() && 0 <= j < pairs.len() && i != j implies pairs[i]
            != pairs[j] by {
            if i < j {
                assert(*pairs[i].0 != *pairs[j].0);
            } else {
                assert(*pairs[j].0 != *pairs[i].0);
            }
        }
    }
    pairs.lemma_multiset_has_no_duplicates();
    assert forall|x: (&'a String, &'a String)| #[trigger]
        pairs.to_multiset().count(x) == if pairs.contains(x) {
            1nat
        } else {
            0nat
        } by {
        assert(pairs.contains(x) <==> pairs.to_multiset().count(x) > 0);
        assert(pairs.to_multiset().contains(x) <==> pairs.to_multiset().count(x) > 0);
    }
    assert forall|x: (&'a String, &'a String)| #[trigger]
        pairs.contains(x) <==> headers.contains_key(*x.0) && headers[*x.0] == *x.1 by {
        if headers.contains_key(*x.0) && headers[*x.0] == *x.1 {
            let i = choose|i: int| 0 <= i < pairs.len() && *(#[trigger] pairs[i]).0 == *x.0;
            assert(pairs[i] == x);
        }
        if pairs.contains(x) {
            let i = choose|i: int| 0 <= i < pairs.len() && pairs[i] == x;
            assert(headers.contains_key(*pairs[i].0));
        }
    }
}

/// One more pair, counted under `name`.
spec fn counted<'a>(name: Seq<u8>) -> spec_fn(
    Multiset<Seq<u8>>,
    (&'a String, &'a String),
) -> Multiset<Seq<u8>> {
    |seen: Multiset<Seq<u8>>, pair: (&'a String, &'a String)|
        if normal_name(encode_utf8(pair.0@)) == name {
            seen.insert(encode_utf8(pair.1@))
        } else {
            seen
        }
}

/// The values under a name, as a multiset, are counted pair by pair.
proof fn lemma_values_are_counted<'a>(pairs: Seq<(&'a String, &'a String)>, name: Seq<u8>)
    ensures
        values_of(pair_bytes(pairs), name).to_multiset() == pairs.fold_left(
            Multiset::<Seq<u8>>::empty(),
            counted(name),
        ),
    decreases pairs.len(),
{
    let bytes = pair_bytes(pairs);
    if pairs.len() == 0 {
        reveal(Seq::filter);
        assert(values_of(bytes, name) =~= Seq::empty());
        assert(values_of(bytes, name).to_multiset() =~= Multiset::empty());
    } else {
        lemma_values_are_counted(pairs.drop_last(), name);
        lemma_values_of_last(bytes, name);
        assert(bytes.drop_last() =~= pair_bytes(pairs.drop_last()));
        assert(bytes.last() == (
            encode_utf8(pairs.last().0@),
            encode_utf8(pairs.last().1@),
        ));
        reveal(Seq::fold_left);
    }
}

/// The order in which a map is walked decides nothing but the order of values under one name:
/// two walks give the same names, and under each name the same values, each as often.
pub proof fn law_walk_order<'a>(
    headers: Map<String, String>,
    p: Seq<(&'a String, &'a String)>,
    q: Seq<(&'a String, &'a String)>,
    name: Seq<u8>,
)
    requires
        is_walk(headers, p),
        is_walk(headers, q),
    ensures
        ({
            let tp = header_table(pair_bytes(p));
            let tq = header_table(pair_bytes(q));
            &&& tp.contains_key(name) <==> tq.contains_key(name)
            &&& tp.contains_key(name) ==> tp[name].to_multiset() == tq[name].to_multiset()
        }),
{
    lemma_walks_are_permutations(headers, p, q);
    let f = counted(name);
    assert forall|
        x: (&'a String, &'a String),
        y: (&'a String, &'a String),
        v: Multiset<Seq<u8>>,
    | #[trigger] f(f(v, x), y) == f(f(v, y), x) by {
        assert(f(f(v, x), y) =~= f(f(v, y), x));
    }
    vstd::seq_lib::lemma_fold_left_permutation(p, q, f, Multiset::empty());
    lemma_values_are_counted(p, name);
    lemma_values_are_counted(q, name);
    law_table_holds_the_values(pair_bytes(p), name);
    law_table_holds_the_values(pair_bytes(q), name);
    let vp = values_of(pair_bytes(p), name);
    let vq = values_of(pair_bytes(q), name);
    assert(vp.to_multiset() == vq.to_multiset());
    assert(vp.len() == vp.to_multiset().len());
    assert(vq.len() == vq.to_multiset().len());
}

/// Where no two names of a map are equal in any letter case, the order in which the map is
/// walked decides nothing at all.
pub proof fn law_walk_order_of_distinct_names(
    headers: Map<String, String>,
    p: Seq<(&String, &String)>,
    q: Seq<(&String, &String)>,
)
    requires
        is_walk(headers, p),
        is_walk(headers, q),
        forall|a: String, b: String|
            #![trigger headers.contains_key(a), headers.contains_key(b)]
            headers.contains_key(a) && headers.contains_key(b) && a != b
                ==> normal_name(encode_utf8(a@))
                != normal_name(encode_utf8(b@)),
    ensures
        header_table(pair_bytes(p)) == header_table(
            pair_bytes(q),
        ),
{
    let bp = pair_bytes(p);
    let bq = pair_bytes(q);
    lemma_distinct_names(headers, p);
    lemma_distinct_names(headers, q);
    let tp = header_table(bp);
    let tq = header_table(bq);
    assert forall|name: Seq<u8>| #[trigger] tp.contains_key(name) <==> tq.contains_key(name) by {
        law_walk_order(headers, p, q, name);
    }
    assert forall|name: Seq<u8>| #[trigger] tp.contains_key(name) implies tp[name] == tq[name] by {
        law_walk_order(headers, p, q, name);
        law_table_holds_the_values(bp, name);
        law_table_holds_the_values(bq, name);
        lemma_one_value(bp, name);
        lemma_one_value(bq, name);
        assert(tp[name].to_multiset().count(tp[name][0]) > 0) by {
            assert(tp[name].contains(tp[name][0]));
        }
        assert(tq[name].contains(tp[name][0]));
        assert(tp[name] =~= tq[name]);
    }
    assert(tp =~= tq);
}

/// The stored names of the pairs of a walk differ where the map's do.
proof fn lemma_distinct_names(headers: Map<String, String>, pairs: Seq<(&String, &String)>)
    requires
        is_walk(headers, pairs),
        forall|a: String, b: String|
            #![trigger headers.contains_key(a), headers.contains_key(b)]
            headers.contains_key(a) && headers.contains_key(b) && a != b
                ==> normal_name(encode_utf8(a@))
                != normal_name(encode_utf8(b@)),
    ensures
        names_differ(pair_bytes(pairs)),
{
    let bytes = pair_bytes(pairs);
    assert forall|i: int, j: int| 0 <= i < j < bytes.len() implies normal_name(
        (#[trigger] bytes[i]).0,
    ) != normal_name((#[trigger] bytes[j]).0) by {
        assert(*pairs[i].0 != *pairs[j].0);
        assert(headers.contains_key(*pairs[i].0) && headers.contains_key(*pairs[j].0));
    }
}

/// No two pairs have the same stored name.
spec fn names_differ(pairs: Seq<(Seq<u8>, Seq<u8>)>) -> bool {
    forall|i: int, j: int|
        0 <= i < j < pairs.len() ==> normal_name((#[trigger] pairs[i]).0)
            != normal_name((#[trigger] pairs[j]).0)
}

/// Where stored names differ, a name has at most one value.
proof fn lemma_one_value(pairs: Seq<(Seq<u8>, Seq<u8>)>, name: Seq<u8>)
    requires
        names_differ(pairs),
    ensures
        values_of(pairs, name).len() <= 1,
        values_of(pairs, name).len() == 1 ==> exists|i: int|
            0 <= i < pairs.len() && normal_name((#[trigger] pairs[i]).0) == name,
    decreases pairs.len(),
{
    if pairs.len() == 0 {
        reveal(Seq::filter);
    } else {
        let rest = pairs.drop_last();
        assert(names_differ(rest)) by {
            assert forall|i: int, j: int| 0 <= i < j < rest.len() implies normal_name(
                (#[trigger] rest[i]).0,
            ) != normal_name((#[trigger] rest[j]).0) by {
                assert(rest[i] == pairs[i] && rest[j] == pairs[j]);
            }
        }
        lemma_one_value(rest, name);
        lemma_values_of_last(pairs, name);
        if values_of(rest, name).len() == 1 {
            let i = choose|i: int|
                0 <= i < rest.len() && normal_name((#[trigger] rest[i]).0) == name;
            assert(pairs[i] == rest[i]);
            assert(normal_name(pairs[pairs.len() - 1].0) != name);
        } else {
            assert(pairs[pairs.len() - 1] == pairs.last());
        }
    }
}

} // verus!
