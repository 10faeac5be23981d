//! Routing decisions and the JSON object that stands for one in Python.
use vstd::prelude::*;

verus! {

/// A JSON value of the `serde_json` crate.
#[verifier::external_type_specification]
#[verifier::external_body]
pub struct ExValue(serde_json::Value);

/// The flag that a JSON boolean holds, as `Value::as_bool` gives it; none of any other value.
pub uninterp spec fn json_flag(value: serde_json::Value) -> Option<bool>;

/// The fields that a JSON object holds; none where the value is no object.
pub uninterp spec fn json_fields(value: serde_json::Value) -> Map<Seq<char>, serde_json::Value>;

/// `serde_json`'s `Clone` for `Value`: the copy is the same JSON value.
pub assume_specification[ <serde_json::Value as Clone>::clone ](value: &serde_json::Value) -> (copy:
    serde_json::Value)
    ensures
        copy == *value,
;

/// Makes a JSON boolean with `serde_json`'s `From<bool> for Value`: it holds the flag.
#[verifier::external_body]
fn bool_value(flag: bool) -> (value: serde_json::Value)
    ensures
        json_flag(value) == Some(flag),
{
    serde_json::Value::from(flag)
}

/// The fields that the pairs give, with the names as characters.
pub open spec fn field_map(fields: Seq<(String, serde_json::Value)>) -> Map<
    Seq<char>,
    serde_json::Value,
>
    decreases fields.len(),
{
    if fields.len() == 0 {
        Map::empty()
    } else {
        field_map(fields.drop_last()).insert(fields.last().0@, fields.last().1)
    }
}

/// Makes a JSON object with `serde_json`'s `FromIterator<(K, V)> for Value`: it has the given
/// fields and no other. The names are asked to differ.
#[verifier::external_body]
fn object_value(fields: Vec<(String, serde_json::Value)>) -> (value: serde_json::Value)
    requires
        forall|i: int, j: int|
            0 <= i < j < fields.len() ==> (#[trigger] fields[i]).0@ != (#[trigger] fields[j]).0@,
    ensures
        json_fields(value) == field_map(fields@),
{
    serde_json::Value::from_iter(fields)
}

/// A routing decision.
///
/// `selected_model_id` is the id as the algorithm holds it, and `selected_model_json` its JSON
/// form. `reasoning` is in JSON form too.
#[derive(Debug)]
pub struct Decision<I> {
    pub selected_model_id: I,
    pub selected_model_json: serde_json::Value,
    pub reasoning: serde_json::Value,
    pub is_answer_call: bool,
}

/// The JSON value is the object that stands for the decision: it has its three fields and no
/// other.
pub open spec fn shows_decision<I>(value: serde_json::Value, decision: Decision<I>) -> bool {
    let fields = json_fields(value);
    &&& fields.dom() == set!["selected_model_id"@, "reasoning"@, "is_answer_call"@]
    &&& fields["selected_model_id"@] == decision.selected_model_json
    &&& fields["reasoning"@] == decision.reasoning
    &&& json_flag(fields["is_answer_call"@]) == Some(decision.is_answer_call)
}

/// The JSON object that stands for a decision.
pub fn decision_value<I>(decision: &Decision<I>) -> (value: serde_json::Value)
    ensures
        shows_decision(value, *decision),
        json_fields(value).dom() =~= set![
            "selected_model_id"@,
            "reasoning"@,
            "is_answer_call"@,
        ],
        json_fields(value)["selected_model_id"@] == decision.selected_model_json,
        json_fields(value)["reasoning"@] == decision.reasoning,
        json_flag(json_fields(value)["is_answer_call"@]) == Some(decision.is_answer_call),
{
    proof {
        reveal_strlit("selected_model_id");
        reveal_strlit("reasoning");
        reveal_strlit("is_answer_call");
        assert("selected_model_id"@.len() == 17);
        assert("reasoning"@.len() == 9);
        assert("is_answer_call"@.len() == 14);
    }
    let mut fields: Vec<(String, serde_json::Value)> = Vec::new();
    fields.push(("selected_model_id".to_owned(), decision.selected_model_json.clone()));
    fields.push(("reasoning".to_owned(), decision.reasoning.clone()));
    fields.push(("is_answer_call".to_owned(), bool_value(decision.is_answer_call)));
    proof {
        reveal_with_fuel(field_map, 4);
        assert(fields@.drop_last().drop_last().drop_last() =~= Seq::empty());
        assert(field_map(fields@).dom() =~= set![
            "selected_model_id"@,
            "reasoning"@,
            "is_answer_call"@,
        ]);
    }
    object_value(fields)
}

/// The object that stands for a decision has the JSON form of its model id, its reasoning and its
/// flag, each under its own name, and nothing else.
pub proof fn law_decision_object_fields<I>(
    value: serde_json::Value,
    decision: Decision<I>,
    field: Seq<char>,
)
    requires
        shows_decision(value, decision),
    ensures
        json_fields(value).contains_key(field) <==> field == "selected_model_id"@ || field
            == "reasoning"@ || field == "is_answer_call"@,
        json_fields(value)["selected_model_id"@] == decision.selected_model_json,
        json_fields(value)["reasoning"@] == decision.reasoning,
        json_flag(json_fields(value)["is_answer_call"@]) == Some(decision.is_answer_call),
{
}

/// Nothing that Python is to see of a decision is lost in its object: decisions whose objects have
/// the same fields have the same model id, the same reasoning and the same flag.
pub proof fn law_decision_object_injective<I>(
    v: serde_json::Value,
    a: Decision<I>,
    w: serde_json::Value,
    b: Decision<I>,
)
    requires
        shows_decision(v, a),
        shows_decision(w, b),
        json_fields(v) == json_fields(w),
    ensures
        a.selected_model_json == b.selected_model_json,
        a.reasoning == b.reasoning,
        a.is_answer_call == b.is_answer_call,
{
}

} // verus!
