//! Checks of index names and schemas.
use vstd::prelude::*;
use crate::capabilities::utf8_len;
use crate::error::SearchError;
use crate::query_utils::blank;
use crate::text::{chars_of, char_is_alphanumeric, char_is_whitespace, is_alnum, is_ws, str_eq};
use crate::types::{FieldType, Schema, SchemaField};

verus! {

/// Longest index or field name, in bytes.
pub const MAX_NAME_BYTES: usize = 255;

/// A character allowed in an index name.
pub open spec fn name_char(c: char) -> bool {
    is_alnum(c) || c == '-' || c == '_'
}

/// An index name is usable: not blank, at most 255 bytes, only
/// alphanumeric characters, hyphens and underscores, not starting with a
/// hyphen or an underscore.
pub open spec fn valid_index_name(s: Seq<char>) -> bool {
    &&& !blank(s)
    &&& utf8_len(s) <= MAX_NAME_BYTES
    &&& forall|i: int| 0 <= i < s.len() ==> name_char(#[trigger] s[i])
    &&& !(s.len() > 0 && (s[0] == '-' || s[0] == '_'))
}

fn blank_chars(chars: &Vec<char>) -> (r: bool)
    ensures
        r == blank(chars@),
{
    let mut i: usize = 0;
    while i < chars.len()
        invariant
            i <= chars@.len(),
            forall|j: int| 0 <= j < i ==> is_ws(#[trigger] chars@[j]),
        decreases chars@.len() - i,
    {
        if !char_is_whitespace(chars[i]) {
            return false;
        }
        i = i + 1;
    }
    true
}

/// Checks an index name.
pub fn validate_index_name(name: &str) -> (r: Result<(), SearchError>)
    ensures
        r is Ok <==> valid_index_name(name@),
        r matches Err(e) ==> e is InvalidQuery,
{
    let chars = chars_of(name);
    if blank_chars(&chars) {
        return Err(SearchError::invalid_query("Index name cannot be empty"));
    }
    if name.len() > MAX_NAME_BYTES {
        return Err(SearchError::invalid_query("Index name too long"));
    }
    let mut i: usize = 0;
    while i < chars.len()
        invariant
            i <= chars@.len(),
            chars@ == name@,
            forall|j: int| 0 <= j < i ==> name_char(#[trigger] chars@[j]),
        decreases chars@.len() - i,
    {
        let c = chars[i];
        if !(char_is_alphanumeric(c) || c == '-' || c == '_') {
            return Err(
                SearchError::invalid_query(
                    "Index name can only contain alphanumeric characters, hyphens, and underscores",
                ),
            );
        }
        i = i + 1;
    }
    if chars.len() > 0 && (chars[0] == '-' || chars[0] == '_') {
        return Err(SearchError::invalid_query("Index name cannot start with hyphen or underscore"));
    }
    Ok(())
}

/// A schema field is usable: a name that is not blank and at most 255
/// bytes; a geo-point neither faceted nor sorted; a text field not sorted.
pub open spec fn valid_field(f: SchemaField) -> bool {
    &&& !blank(f.name@)
    &&& utf8_len(f.name@) <= MAX_NAME_BYTES
    &&& f.field_type == FieldType::GeoPoint ==> !f.facet && !f.sort
    &&& f.field_type == FieldType::Text ==> !f.sort
}

/// Checks one schema field.
pub fn validate_field(field: &SchemaField) -> (r: Result<(), SearchError>)
    ensures
        r is Ok <==> valid_field(*field),
        r matches Err(e) ==> e is InvalidQuery,
{
    let chars = chars_of(field.name.as_str());
    if blank_chars(&chars) {
        return Err(SearchError::invalid_query("Field name cannot be empty"));
    }
    if field.name.as_str().len() > MAX_NAME_BYTES {
        return Err(SearchError::invalid_query("Field name too long"));
    }
    match field.field_type {
        FieldType::GeoPoint => {
            if field.facet {
                return Err(SearchError::invalid_query("Geo-point fields cannot be faceted"));
            }
            if field.sort {
                return Err(SearchError::invalid_query("Geo-point fields cannot be sorted"));
            }
        },
        FieldType::Text => {
            if field.sort {
                return Err(
                    SearchError::invalid_query(
                        "Text fields are typically not suitable for sorting. Consider using keyword type.",
                    ),
                );
            }
        },
        _ => {},
    }
    Ok(())
}

/// A schema is usable: at least one field, distinct field names, every
/// field usable, and a primary key, when given, naming one of the fields.
pub open spec fn valid_schema(s: Schema) -> bool {
    let fields = s.fields@;
    &&& fields.len() > 0
    &&& forall|i: int, j: int| 0 <= i < j < fields.len() ==> (#[trigger] fields[i]).name@ != (#[trigger] fields[j]).name@
    &&& forall|i: int| 0 <= i < fields.len() ==> valid_field(#[trigger] fields[i])
    &&& s.primary_key matches Some(k) ==> exists|i: int| 0 <= i < fields.len() && (#[trigger] fields[i]).name@ == k@
}

/// Checks a schema; the first problem found is reported.
pub fn validate_schema(schema: &Schema) -> (r: Result<(), SearchError>)
    ensures
        r is Ok <==> valid_schema(*schema),
        r matches Err(e) ==> e is InvalidQuery,
{
    if schema.fields.len() == 0 {
        return Err(SearchError::invalid_query("Schema must have at least one field"));
    }
    let ghost fields = schema.fields@;
    let mut i: usize = 0;
    while i < schema.fields.len()
        invariant
            i <= fields.len(),
            fields == schema.fields@,
            forall|a: int, b: int| 0 <= a < b < i ==> (#[trigger] fields[a]).name@ != (#[trigger] fields[b]).name@,
            forall|a: int| 0 <= a < i ==> valid_field(#[trigger] fields[a]),
        decreases fields.len() - i,
    {
        let mut j: usize = 0;
        while j < i
            invariant
                j <= i,
                i < fields.len(),
                fields == schema.fields@,
                forall|a: int| 0 <= a < j ==> (#[trigger] fields[a]).name@ != fields[i as int].name@,
            decreases i - j,
        {
            if str_eq(schema.fields[j].name.as_str(), schema.fields[i].name.as_str()) {
                let msg = String::from_str("Duplicate field name: ").concat(schema.fields[i].name.as_str());
                return Err(SearchError::InvalidQuery(msg));
            }
            j = j + 1;
        }
        let r = validate_field(&schema.fields[i]);
        if r.is_err() {
            return r;
        }
        i = i + 1;
    }
    if let Some(key) = &schema.primary_key {
        let mut k: usize = 0;
        while k < schema.fields.len()
            invariant
                k <= fields.len(),
                fields == schema.fields@,
                fields.len() > 0,
                schema.primary_key == Some(*key),
                forall|a: int, b: int|
                    0 <= a < b < fields.len() ==> (#[trigger] fields[a]).name@ != (#[trigger] fields[b]).name@,
                forall|a: int| 0 <= a < fields.len() ==> valid_field(#[trigger] fields[a]),
                forall|a: int| 0 <= a < k ==> (#[trigger] fields[a]).name@ != key@,
            decreases fields.len() - k,
        {
            if str_eq(schema.fields[k].name.as_str(), key.as_str()) {
                assert(fields[k as int].name@ == key@);
                return Ok(());
            }
            k = k + 1;
        }
        return Err(SearchError::invalid_query("Primary key field must be defined in schema"));
    }
    Ok(())
}

} // verus!
