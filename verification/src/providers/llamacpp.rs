//! llama.cpp's server with a single loaded model: the model name is asked of
//! the server at launch instead of being typed into the profile.

use vstd::prelude::*;
use crate::error::concat3;
use crate::json::{json_view, JsonValue, JsonView};
use crate::text::{append_str, ends_with, ends_with_spec, trim, trim_end_char, trim_end_char_spec, trim_spec};
use crate::tui::screens::extra_body::{find_member, is_first, lemma_is_first_unique, members_view, obj_lookup};
use super::{
    effort_field, effort_field_spec, fields_view, fv, FieldType, FieldTypeView, FieldView, ProviderField,
    ENV_AUTH_TOKEN, ENV_BASE_URL,
};

verus! {

/// Id of the llama.cpp single-model provider.
pub const PROVIDER_LLAMACPP_SINGLE_MODEL: &'static str = "llama-single-model";

/// The llama.cpp form: server URL, optional token and effort level (the
/// model overrides are filled in at launch).
pub open spec fn llamacpp_fields_spec() -> Seq<FieldView> {
    seq![
        fv(ENV_BASE_URL@, "llama.cpp URL"@, FieldTypeView::Url, true, Some("http://localhost:8080"@)),
        fv(ENV_AUTH_TOKEN@, "Auth Token"@, FieldTypeView::Secret, false, None),
        effort_field_spec(None),
    ]
}

/// The llama.cpp form.
pub fn llamacpp_fields() -> (r: Vec<ProviderField>)
    ensures
        fields_view(r@) == llamacpp_fields_spec(),
{
    let mut v: Vec<ProviderField> = Vec::new();
    v.push(ProviderField::field(ENV_BASE_URL, "llama.cpp URL", FieldType::Url).required().default("http://localhost:8080"));
    v.push(ProviderField::field(ENV_AUTH_TOKEN, "Auth Token", FieldType::Secret).optional());
    v.push(effort_field(None));
    assert(fields_view(v@) =~= llamacpp_fields_spec());
    v
}

/// The OpenAI-style model listing endpoint for a base URL: surrounding
/// whitespace and trailing slashes are dropped, then `/models` is added after
/// a final `/v1`, and `/v1/models` otherwise.
pub open spec fn models_url_spec(base_url: Seq<char>) -> Seq<char> {
    let base = trim_end_char_spec(trim_spec(base_url), '/');
    if ends_with_spec(base, "/v1"@) {
        base + "/models"@
    } else {
        base + "/v1/models"@
    }
}

/// The model listing endpoint for `base_url` (accepts `http://host:port`,
/// with or without a trailing `/`, `/v1` or `/v1/`).
pub fn models_url(base_url: &str) -> (r: String)
    ensures
        r@ == models_url_spec(base_url@),
{
    let trimmed = trim(base_url);
    let base = trim_end_char(trimmed.as_str(), '/');
    let mut r = base;
    if ends_with(r.as_str(), "/v1") {
        append_str(&mut r, "/models");
    } else {
        append_str(&mut r, "/v1/models");
    }
    r
}

/// The id of the first model a model listing names: `data[0].id`, when
/// `data` is an array whose first entry has a string `id`.
pub open spec fn first_model_id_spec(body: JsonView) -> Option<Seq<char>> {
    match body {
        JsonView::Object(es) => match obj_lookup(es, "data"@) {
            Some(JsonView::Array(models)) => if models.len() > 0 {
                match models[0] {
                    JsonView::Object(m) => match obj_lookup(m, "id"@) {
                        Some(JsonView::Str(id)) => Some(id),
                        _ => None,
                    },
                    _ => None,
                }
            } else {
                None
            },
            _ => None,
        },
        _ => None,
    }
}

/// The member named `key` of a JSON object, found as `obj_lookup` finds it.
fn member<'a>(es: &'a Vec<(String, JsonValue)>, key: &str) -> (r: Option<&'a JsonValue>)
    ensures
        match r {
            Some(v) => obj_lookup(members_view(es), key@) == Some(json_view(v)),
            None => obj_lookup(members_view(es), key@) is None,
        },
{
    let ghost m = members_view(es);
    match find_member(es, key) {
        Some(i) => {
            proof {
                let c = choose|c: int| is_first(m, key@, c);
                lemma_is_first_unique(m, key@, c, i as int);
            }
            Some(&es[i].1)
        },
        None => None,
    }
}

/// The model the server at `url` lists first, from the listing's JSON
/// `body`; an error naming `url` when the listing names none.
pub fn model_from_listing(url: &str, body: &JsonValue) -> (r: Result<String, String>)
    ensures
        match first_model_id_spec(json_view(body)) {
            Some(id) => r matches Ok(s) && s@ == id,
            None => r matches Err(e) && e@ == "No model id found in "@ + url@
                + " (server returned an empty model list)"@,
        },
{
    let found: Option<String> = match body {
        JsonValue::Object(es) => match member(es, "data") {
            Some(JsonValue::Array(models)) => if models.len() > 0 {
                proof {
                    assert(json_view(&models@[0]) == match json_view(body) {
                        JsonView::Object(es2) => match obj_lookup(es2, "data"@) {
                            Some(JsonView::Array(ms)) => ms[0],
                            _ => JsonView::Null,
                        },
                        _ => JsonView::Null,
                    });
                }
                match &models[0] {
                    JsonValue::Object(m) => match member(m, "id") {
                        Some(JsonValue::Str(id)) => Some(id.clone()),
                        _ => None,
                    },
                    _ => None,
                }
            } else {
                None
            },
            _ => None,
        },
        _ => None,
    };
    match found {
        Some(id) => Ok(id),
        None => Err(concat3("No model id found in ", url, " (server returned an empty model list)")),
    }
}

} // verus!
