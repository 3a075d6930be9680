//! The list-objects response: `{"Contents":[{"Key": ...}, ...]}`, with
//! `Contents` possibly absent and extra fields ignored. The document is
//! parsed by serde_json; the shape is read off a model of the parsed
//! value, and the object keys are extracted by verified code.

use vstd::prelude::*;

use crate::text::spec_str_views;

verus! {

/// What a parsed JSON value holds, as far as this library reads it:
/// strings, arrays and objects carry their contents; numbers are not
/// inspected and stay abstract.
pub enum JsonModel {
    Null,
    Bool { b: bool },
    Number,
    Text { s: Seq<char> },
    Array { items: Seq<JsonModel> },
    Object { fields: Map<Seq<char>, JsonModel> },
}

#[verifier::external_type_specification]
#[verifier::external_body]
pub struct ExValue(serde_json::Value);

/// What a parsed value holds.
pub uninterp spec fn json_model(v: serde_json::Value) -> JsonModel;

/// The models of a list of parsed values.
pub open spec fn json_models_of(vs: Seq<serde_json::Value>) -> Seq<JsonModel> {
    vs.map_values(|x: serde_json::Value| json_model(x))
}

/// The value a JSON document parses to, or `None` when the text is not
/// well-formed JSON. The result is fixed by the text alone.
pub uninterp spec fn json_doc_of(s: Seq<char>) -> Option<JsonModel>;

/// Relies on `serde_json::from_str::<Value>`: deterministically parses a
/// JSON document into a value, or rejects text that is not well-formed
/// JSON.
#[verifier::external_body]
fn parse_json(s: &str) -> (r: Option<serde_json::Value>)
    ensures
        r matches Some(v) ==> json_doc_of(s@) == Some(json_model(v)),
        r is None ==> json_doc_of(s@) is None,
{
    match serde_json::from_str::<serde_json::Value>(s) {
        Ok(v) => Some(v),
        Err(_) => None,
    }
}

/// Relies on `serde_json::Value::get` with a string index: on an object
/// it looks the key up, on anything else it yields `None`.
#[verifier::external_body]
fn get_field<'a>(v: &'a serde_json::Value, name: &str) -> (r: Option<&'a serde_json::Value>)
    ensures
        (json_model(*v) matches JsonModel::Object { fields } ==> {
            &&& r is Some <==> fields.dom().contains(name@)
            &&& (r matches Some(f) ==> fields.dom().contains(name@) && json_model(*f)
                == fields[name@])
        }),
        !(json_model(*v) is Object) ==> r is None,
{
    v.get(name)
}

/// Relies on `serde_json::Value::as_array`: yields the element vector of
/// an array value and `None` for every other value.
#[verifier::external_body]
fn as_array<'a>(v: &'a serde_json::Value) -> (r: Option<&'a Vec<serde_json::Value>>)
    ensures
        r matches Some(a) ==> json_model(*v) == (JsonModel::Array { items: json_models_of(a@) }),
        r is None ==> !(json_model(*v) is Array),
{
    v.as_array()
}

/// Relies on `serde_json::Value::as_str`: yields the characters of a
/// string value and `None` for every other value.
#[verifier::external_body]
fn as_text<'a>(v: &'a serde_json::Value) -> (r: Option<&'a str>)
    ensures
        r matches Some(s) ==> json_model(*v) == (JsonModel::Text { s: s@ }),
        r is None ==> !(json_model(*v) is Text),
{
    v.as_str()
}

/// The characters that a byte string decodes to as UTF-8, or `None` when
/// it is not valid UTF-8. The result is fixed by the bytes alone.
pub uninterp spec fn utf8_chars_of(bytes: Seq<u8>) -> Option<Seq<char>>;

/// Relies on `serde_json::Value::is_object`: whether the value is an
/// object.
#[verifier::external_body]
fn is_object(v: &serde_json::Value) -> (r: bool)
    ensures
        r == (json_model(*v) is Object),
{
    v.is_object()
}

/// Relies on std's `String::from_utf8`: decodes a byte vector as UTF-8 or
/// rejects it.
#[verifier::external_body]
fn decode_utf8(bytes: Vec<u8>) -> (r: Option<String>)
    ensures
        r matches Some(s) ==> utf8_chars_of(bytes@) == Some(s@),
        r is None ==> utf8_chars_of(bytes@) is None,
{
    match String::from_utf8(bytes) {
        Ok(s) => Some(s),
        Err(_) => None,
    }
}

/// The key of one listed entry: the entry must be an object whose `Key`
/// field is a string.
pub open spec fn spec_entry_key(item: JsonModel) -> Option<Seq<char>> {
    match item {
        JsonModel::Object { fields } => if fields.dom().contains("Key"@) {
            match fields["Key"@] {
                JsonModel::Text { s } => Some(s),
                _ => None,
            }
        } else {
            None
        },
        _ => None,
    }
}

/// The keys of the listed entries, in order; `None` as soon as one entry
/// is malformed.
pub open spec fn spec_entry_keys(items: Seq<JsonModel>) -> Option<Seq<Seq<char>>>
    decreases items.len(),
{
    if items.len() == 0 {
        Some(seq![])
    } else {
        match (spec_entry_key(items[0]), spec_entry_keys(items.skip(1))) {
            (Some(k), Some(ks)) => Some(seq![k] + ks),
            _ => None,
        }
    }
}

/// The object keys of a list-objects document: the document must be an
/// object; an absent `Contents` field means no keys; a present one must
/// be an array of well-formed entries. Extra fields are ignored.
pub open spec fn spec_contents_keys(doc: JsonModel) -> Option<Seq<Seq<char>>> {
    match doc {
        JsonModel::Object { fields } => if !fields.dom().contains("Contents"@) {
            Some(seq![])
        } else {
            match fields["Contents"@] {
                JsonModel::Array { items } => spec_entry_keys(items),
                _ => None,
            }
        },
        _ => None,
    }
}

/// The object keys carried by the raw bytes of a listing response:
/// decoded as UTF-8, parsed as JSON, and read as a list-objects document.
pub open spec fn spec_list_keys(bytes: Seq<u8>) -> Option<Seq<Seq<char>>> {
    match utf8_chars_of(bytes) {
        Some(chars) => match json_doc_of(chars) {
            Some(doc) => spec_contents_keys(doc),
            None => None,
        },
        None => None,
    }
}

/// The listing response could not be read: it was not valid UTF-8, not
/// well-formed JSON, or not of the documented list-objects shape. Fatal:
/// tagging cannot proceed without a key list.
#[derive(Debug, Clone, PartialEq, Eq)]
pub enum ListParseError {
    InvalidUtf8,
    MalformedDocument,
}

/// Extracts the object keys from the raw bytes of a listing response,
/// exactly when the bytes decode, parse and match the documented shape.
pub fn list_object_keys(bytes: Vec<u8>) -> (r: Result<Vec<String>, ListParseError>)
    ensures
        r matches Ok(keys) ==> spec_list_keys(bytes@) == Some(spec_str_views(keys@)),
        r is Err ==> spec_list_keys(bytes@) is None,
{
    let text = match decode_utf8(bytes) {
        Some(t) => t,
        None => {
            return Err(ListParseError::InvalidUtf8);
        },
    };
    let doc = match parse_json(text.as_str()) {
        Some(d) => d,
        None => {
            return Err(ListParseError::MalformedDocument);
        },
    };
    let contents = match get_field(&doc, "Contents") {
        Some(c) => c,
        None => {
            if is_object(&doc) {
                let keys: Vec<String> = Vec::new();
                proof {
                    assert(spec_str_views(keys@) =~= Seq::<Seq<char>>::empty());
                }
                return Ok(keys);
            } else {
                return Err(ListParseError::MalformedDocument);
            }
        },
    };
    let items = match as_array(contents) {
        Some(a) => a,
        None => {
            return Err(ListParseError::MalformedDocument);
        },
    };
    let ghost models = json_models_of(items@);
    proof {
        assert(spec_list_keys(bytes@) == spec_entry_keys(models));
    }
    let mut keys: Vec<String> = Vec::new();
    let mut i: usize = 0;
    proof {
        assert(models.skip(0) =~= models);
        match spec_entry_keys(models.skip(0)) {
            Some(ks) => {
                assert(spec_str_views(keys@) + ks =~= ks);
            },
            None => {},
        }
    }
    while i < items.len()
        invariant
            i <= items@.len(),
            models == json_models_of(items@),
            items@.len() == models.len(),
            spec_list_keys(bytes@) == spec_entry_keys(models),
            (match spec_entry_keys(models.skip(i as int)) {
                Some(ks) => spec_entry_keys(models) == Some(spec_str_views(keys@) + ks),
                None => spec_entry_keys(models) is None,
            }),
        decreases items@.len() - i,
    {
        proof {
            assert(models.skip(i as int)[0] == models[i as int]);
            assert(models.skip(i as int).skip(1) =~= models.skip(i + 1));
            assert(models[i as int] == json_model(items@[i as int]));
        }
        let item = &items[i];
        let key_field = match get_field(item, "Key") {
            Some(f) => f,
            None => {
                proof {
                    assert(spec_entry_key(models[i as int]) is None);
                }
                return Err(ListParseError::MalformedDocument);
            },
        };
        let key_text = match as_text(key_field) {
            Some(t) => t,
            None => {
                proof {
                    assert(spec_entry_key(models[i as int]) is None);
                }
                return Err(ListParseError::MalformedDocument);
            },
        };
        let ghost before = keys@;
        keys.push(String::from_str(key_text));
        proof {
            assert(spec_entry_key(models[i as int]) == Some(key_text@));
            match spec_entry_keys(models.skip(i + 1)) {
                Some(ks) => {
                    assert(spec_str_views(keys@) =~= spec_str_views(before).push(key_text@));
                    assert(spec_str_views(before) + (seq![key_text@] + ks) =~= spec_str_views(
                        keys@,
                    ) + ks);
                },
                None => {},
            }
        }
        i += 1;
    }
    proof {
        assert(models.skip(items@.len() as int) =~= Seq::<JsonModel>::empty());
        assert(spec_str_views(keys@) + Seq::<Seq<char>>::empty() =~= spec_str_views(keys@));
    }
    Ok(keys)
}

} // verus!
