//! Lightweight JSON schema validation for tool call parameters.
//!
//! Validates that parameters satisfy the basic structural contract
//! declared by a tool's input schema: object type check and required
//! field presence.

use crate::error::ToolRegistryDomainError;
use crate::json::{json_get, lemma_views_of_index, views_of, JsonValue, JsonView};
use crate::text::{chars_of, push_all, string_from_chars};
use vstd::prelude::*;

verus! {

/// Whether the schema declares `"type": "object"`.
pub open spec fn schema_requires_object(schema: JsonView) -> bool {
    json_get(schema, "type"@) == Some(JsonView::Str("object"@))
}

/// Whether `params` lacks a top-level member `k` (a non-object lacks all).
pub open spec fn param_missing(params: JsonView, k: Seq<char>) -> bool {
    json_get(params, k) is None
}

/// The first string in `required` naming a member that `params` lacks.
pub open spec fn first_missing(required: Seq<JsonView>, params: JsonView) -> Option<Seq<char>>
    decreases required.len(),
{
    if required.len() == 0 {
        None
    } else {
        match required[0] {
            JsonView::Str(k) => if param_missing(params, k) {
                Some(k)
            } else {
                first_missing(required.drop_first(), params)
            },
            _ => first_missing(required.drop_first(), params),
        }
    }
}

/// What validation reports: `None` when the parameters pass, otherwise the
/// failure reason.
pub open spec fn validation_failure(schema: JsonView, params: JsonView) -> Option<Seq<char>> {
    if schema_requires_object(schema) && !(params is Object) {
        Some("parameters must be a JSON object"@)
    } else {
        match json_get(schema, "required"@) {
            Some(JsonView::Array(required)) => match first_missing(required, params) {
                Some(k) => Some("missing required parameter: "@ + k),
                None => None,
            },
            _ => None,
        }
    }
}

/// Whether every string listed in `required` names a member of `params`.
pub open spec fn all_listed_present(required: Seq<JsonView>, params: JsonView) -> bool {
    forall|i: int| 0 <= i < required.len() ==> (#[trigger] required[i] matches JsonView::Str(k)
        ==> !param_missing(params, k))
}

/// Whether `params` meets what `schema` asks: an object where the schema
/// declares `"type": "object"`, and a member for every string that the
/// schema's `"required"` array lists.
pub open spec fn meets_schema(schema: JsonView, params: JsonView) -> bool {
    &&& !(schema_requires_object(schema) && !(params is Object))
    &&& json_get(schema, "required"@) matches Some(JsonView::Array(required)) ==> all_listed_present(
        required,
        params,
    )
}

/// `first_missing` finds nothing exactly when every listed key is present,
/// and otherwise names a listed key that is missing, with every string
/// listed before it present.
proof fn lemma_first_missing(required: Seq<JsonView>, params: JsonView)
    ensures
        first_missing(required, params) is None <==> all_listed_present(required, params),
        first_missing(required, params) matches Some(k) ==> exists|j: int|
            0 <= j < required.len() && #[trigger] required[j] == JsonView::Str(k) && param_missing(params, k)
                && all_listed_present(required.take(j), params),
    decreases required.len(),
{
    if required.len() > 0 {
        let rest = required.drop_first();
        lemma_first_missing(rest, params);
        if !all_listed_present(rest, params) {
            let i = choose|i: int| 0 <= i < rest.len() && !(#[trigger] rest[i] matches JsonView::Str(k)
                ==> !param_missing(params, k));
            assert(required[i + 1] == rest[i]);
        }
        if all_listed_present(rest, params) && !all_listed_present(required, params) {
            let i = choose|i: int| 0 <= i < required.len() && !(#[trigger] required[i] matches JsonView::Str(k)
                ==> !param_missing(params, k));
            if i > 0 {
                assert(rest[i - 1] == required[i]);
            }
        }
        match required[0] {
            JsonView::Str(k) => {
                if param_missing(params, k) {
                    assert(required.take(0) =~= Seq::<JsonView>::empty());
                }
            },
            _ => {},
        }
        if let Some(k) = first_missing(required, params) {
            if !(required[0] matches JsonView::Str(k0) && param_missing(params, k0)) {
                let j = choose|j: int|
                    0 <= j < rest.len() && #[trigger] rest[j] == JsonView::Str(k) && param_missing(params, k)
                        && all_listed_present(rest.take(j), params);
                assert(required[j + 1] == JsonView::Str(k));
                assert forall|i: int| 0 <= i < j + 1 implies (#[trigger] required.take(j + 1)[i] matches JsonView::Str(
                    kk,
                ) ==> !param_missing(params, kk)) by {
                    if i > 0 {
                        assert(required.take(j + 1)[i] == rest.take(j)[i - 1]);
                    }
                }
            }
        }
    }
}

/// Validation passes exactly when the parameters meet the schema; when it
/// fails on the type check the reason is that the parameters must be an
/// object, and otherwise it names the first listed key that is missing.
pub proof fn lemma_validation_passes_iff_meets_schema(schema: JsonView, params: JsonView)
    ensures
        validation_failure(schema, params) is None <==> meets_schema(schema, params),
        (schema_requires_object(schema) && !(params is Object)) ==> validation_failure(schema, params)
            == Some("parameters must be a JSON object"@),
        (validation_failure(schema, params) is Some && !(schema_requires_object(schema) && !(params is Object)))
            ==> (json_get(schema, "required"@) matches Some(JsonView::Array(required))
            && exists|j: int|
            0 <= j < required.len() && #[trigger] required[j] is Str && validation_failure(schema, params)->Some_0
                == "missing required parameter: "@
                + required[j]->Str_0 && param_missing(params, required[j]->Str_0) && all_listed_present(
                required.take(j),
                params,
            )),
{
    if let Some(JsonView::Array(required)) = json_get(schema, "required"@) {
        lemma_first_missing(required, params);
    }
}

fn schema_failure(reason: String) -> (r: ToolRegistryDomainError)
    ensures
        r matches ToolRegistryDomainError::SchemaValidationFailed { tool_name, reason: rr } && tool_name@
            == Seq::<char>::empty() && rr@ == reason@,
{
    ToolRegistryDomainError::SchemaValidationFailed { tool_name: String::new(), reason }
}

/// Validates `parameters` against the structural requirements of
/// `input_schema`:
/// 1. if the schema declares `"type": "object"`, the parameters must be an
///    object;
/// 2. if the schema declares a `"required"` array, every string it lists
///    must be a top-level key of the parameters.
///
/// A failure is `SchemaValidationFailed` with an empty tool name, for the
/// caller to fill in.
pub fn validate_parameters(input_schema: &JsonValue, parameters: &JsonValue) -> (r: Result<
    (),
    ToolRegistryDomainError,
>)
    ensures
        match validation_failure(input_schema@, parameters@) {
            None => r is Ok,
            Some(reason) => r matches Err(
                ToolRegistryDomainError::SchemaValidationFailed { tool_name, reason: rr },
            ) && tool_name@ == Seq::<char>::empty() && rr@ == reason,
        },
        r is Ok <==> meets_schema(input_schema@, parameters@),
{
    proof {
        lemma_validation_passes_iff_meets_schema(input_schema@, parameters@);
    }
    let type_is_object = match input_schema.get("type") {
        Some(t) => match t.as_str() {
            Some(s) => {
                let sc = chars_of(s);
                crate::health::chars_eq_str(sc.as_slice(), "object")
            },
            None => false,
        },
        None => false,
    };
    if type_is_object && !parameters.is_object() {
        return Err(schema_failure("parameters must be a JSON object".to_owned()));
    }
    check_required_fields(input_schema, parameters)
}

/// Checks that all fields listed in the schema's `"required"` array are
/// present in `parameters`.
#[verifier::loop_isolation(false)]
fn check_required_fields(input_schema: &JsonValue, parameters: &JsonValue) -> (r: Result<
    (),
    ToolRegistryDomainError,
>)
    requires
        !(schema_requires_object(input_schema@) && !(parameters@ is Object)),
    ensures
        match validation_failure(input_schema@, parameters@) {
            None => r is Ok,
            Some(reason) => r matches Err(
                ToolRegistryDomainError::SchemaValidationFailed { tool_name, reason: rr },
            ) && tool_name@ == Seq::<char>::empty() && rr@ == reason,
        },
{
    let required = match input_schema.get("required") {
        Some(v) => match v.as_array() {
            Some(a) => a,
            None => {
                return Ok(());
            },
        },
        None => {
            return Ok(());
        },
    };
    let ghost rv = views_of(required@);
    proof {
        lemma_views_of_index(required@);
        assert(rv.skip(0) =~= rv);
    }
    let n = required.len();
    let mut i: usize = 0;
    while i < n
        invariant
            n == required@.len(),
            rv == views_of(required@),
            rv.len() == n,
            i <= n,
            first_missing(rv, parameters@) == first_missing(rv.skip(i as int), parameters@),
        decreases n - i,
    {
        assert(rv.skip(i as int).drop_first() =~= rv.skip(i + 1));
        assert(rv.skip(i as int)[0] == rv[i as int]);
        if let Some(key_name) = required[i].as_str() {
            if !parameters.contains_key(key_name) {
                let mut reason = chars_of("missing required parameter: ");
                let kc = chars_of(key_name);
                push_all(&mut reason, kc.as_slice());
                return Err(schema_failure(string_from_chars(reason.as_slice())));
            }
        }
        i = i + 1;
    }
    Ok(())
}

} // verus!
