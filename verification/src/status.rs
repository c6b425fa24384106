//! Reading the answer of the service to a health check.
//!
//! The service answers with a JSON object; it is up when the field `status`
//! of the object is a string and holds `ACTIVE_STATUS`. What the other fields
//! hold does not matter. Reading JSON is the work of `serde_json`:
//! `json_object_fields` names what it returns, and the functions of this
//! module decide on that.

use std::collections::BTreeMap;
use serde_json::Value;
use vstd::prelude::*;

verus! {

/// Field of the answer that tells the state of the service.
pub const STATUS_FIELD: &'static str = "status";

/// What the field holds while the service is up.
pub const ACTIVE_STATUS: &'static str = "spacetraders is currently online and available to play";

/// What `serde_json::from_slice` makes of `body` when asked for a map from
/// strings to JSON values: the fields of the JSON object, each as its name
/// and, where its value is a string, that string; or `None` where it does
/// not read `body` as a JSON object.
pub uninterp spec fn json_object_fields(body: Seq<u8>) -> Option<
    Seq<(Seq<char>, Option<Seq<char>>)>,
>;

/// No two of the fields have the same name.
pub open spec fn names_distinct(fields: Seq<(Seq<char>, Option<Seq<char>>)>) -> bool {
    forall|i: int, j: int|
        0 <= i < j < fields.len() ==> (#[trigger] fields[i]).0 != (#[trigger] fields[j]).0
}

/// Reads `body` with `serde_json::from_slice` into a map from strings to
/// `serde_json::Value` and lists the map's entries, keeping of each value
/// the string, where it is one. Trusted: the result is, by definition,
/// `json_object_fields` of the body; and, the entries being those of a map,
/// no name comes twice.
#[verifier::external_body]
fn parse_object_fields(body: &[u8]) -> (fields: Option<Vec<(String, Option<String>)>>)
    ensures
        fields.deep_view() == json_object_fields(body@),
        fields.deep_view() matches Some(listed) ==> names_distinct(listed),
{
    let object = serde_json::from_slice::<BTreeMap<String, Value>>(body).ok()?;
    Some(object.into_iter().map(|(name, value)| (name, match value {
        Value::String(text) => Some(text),
        Value::Null => None,
        Value::Bool(_) => None,
        Value::Number(_) => None,
        Value::Array(_) => None,
        Value::Object(_) => None,
    })).collect())
}

/// The string in the first field called `name`: `None` where there is no
/// such field, or where its value is no string.
pub open spec fn field_text(fields: Seq<(Seq<char>, Option<Seq<char>>)>, name: Seq<char>) -> Option<
    Seq<char>,
>
    decreases fields.len(),
{
    if fields.len() == 0 {
        None
    } else if fields[0].0 == name {
        fields[0].1
    } else {
        field_text(fields.drop_first(), name)
    }
}

/// The fields say that the service is up: `status` is a string and holds
/// `ACTIVE_STATUS`.
pub open spec fn fields_report_active(fields: Seq<(Seq<char>, Option<Seq<char>>)>) -> bool {
    field_text(fields, STATUS_FIELD@) == Some(ACTIVE_STATUS@)
}

/// The field that tells that the service is up.
pub open spec fn active_field() -> (Seq<char>, Option<Seq<char>>) {
    (STATUS_FIELD@, Some(ACTIVE_STATUS@))
}

/// The body of an answer says that the service is up: it is a JSON object
/// whose fields say so.
pub open spec fn body_reports_active(body: Seq<u8>) -> bool {
    match json_object_fields(body) {
        Some(fields) => fields_report_active(fields),
        None => false,
    }
}

/// The field at `at` is the first one called `name`.
pub open spec fn is_first_of_name(
    fields: Seq<(Seq<char>, Option<Seq<char>>)>,
    name: Seq<char>,
    at: int,
) -> bool {
    &&& 0 <= at < fields.len()
    &&& fields[at].0 == name
    &&& forall|j: int| 0 <= j < at ==> (#[trigger] fields[j]).0 != name
}

/// `field_text` without the recursion: it is what the first field of that
/// name holds, and nothing where no field has the name.
pub proof fn lemma_field_text_is_first_match(
    fields: Seq<(Seq<char>, Option<Seq<char>>)>,
    name: Seq<char>,
)
    ensures
        forall|at: int| #[trigger]
            is_first_of_name(fields, name, at) ==> field_text(fields, name) == fields[at].1,
        (forall|i: int| 0 <= i < fields.len() ==> (#[trigger] fields[i]).0 != name) ==> field_text(
            fields,
            name,
        ) is None,
    decreases fields.len(),
{
    if fields.len() > 0 {
        let rest = fields.drop_first();
        lemma_field_text_is_first_match(rest, name);
        assert(forall|i: int| 0 <= i < rest.len() ==> rest[i] == fields[i + 1]);
        assert forall|at: int| #[trigger] is_first_of_name(fields, name, at) implies field_text(
            fields,
            name,
        ) == fields[at].1 by {
            if fields[0].0 == name {
                assert(at == 0);
            } else {
                assert(at > 0);
                assert forall|j: int| 0 <= j < at - 1 implies (#[trigger] rest[j]).0 != name by {
                    assert(fields[j + 1].0 != name);
                }
                assert(is_first_of_name(rest, name, at - 1));
            }
        }
        if forall|i: int| 0 <= i < fields.len() ==> (#[trigger] fields[i]).0 != name {
            assert(fields[0].0 != name);
            assert forall|i: int| 0 <= i < rest.len() implies (#[trigger] rest[i]).0 != name by {
                assert(fields[i + 1].0 != name);
            }
        }
    }
}

/// Where no name comes twice, a field is found wherever it stands: the
/// string of the field called `name` is `text` exactly when the fields hold
/// the pair of `name` and `text`, whatever the other fields hold.
pub proof fn lemma_field_text_by_membership(
    fields: Seq<(Seq<char>, Option<Seq<char>>)>,
    name: Seq<char>,
    text: Seq<char>,
)
    requires
        names_distinct(fields),
    ensures
        field_text(fields, name) == Some(text) <==> fields.contains((name, Some(text))),
{
    lemma_field_text_is_first_match(fields, name);
    if fields.contains((name, Some(text))) {
        let at = choose|i: int| 0 <= i < fields.len() && fields[i] == (name, Some(text));
        assert forall|j: int| 0 <= j < at implies (#[trigger] fields[j]).0 != name by {
            assert(fields[j].0 != fields[at].0);
        }
        assert(is_first_of_name(fields, name, at));
    }
    if field_text(fields, name) == Some(text) {
        assert(exists|i: int| 0 <= i < fields.len() && (#[trigger] fields[i]).0 == name);
        let some = choose|i: int| 0 <= i < fields.len() && (#[trigger] fields[i]).0 == name;
        assert forall|j: int| 0 <= j < some implies (#[trigger] fields[j]).0 != name by {
            assert(fields[j].0 != fields[some].0);
        }
        assert(is_first_of_name(fields, name, some));
        assert(fields[some] == (name, Some(text)));
    }
}

/// The body of an answer is a JSON object that holds the field `status` with
/// the string `ACTIVE_STATUS`.
pub open spec fn body_holds_active_field(body: Seq<u8>) -> bool {
    match json_object_fields(body) {
        Some(fields) => fields.contains(active_field()),
        None => false,
    }
}

/// An answer whose body is no JSON object tells that the service is down.
pub proof fn lemma_malformed_body_is_down(body: Seq<u8>)
    requires
        json_object_fields(body) is None,
    ensures
        !body_reports_active(body),
{
}

/// An answer tells that the service is up exactly when its body is a JSON
/// object that holds the field `status` with the string `ACTIVE_STATUS`.
/// The other fields do not matter, whether they hold strings or not; an
/// object without that field, with another string in it or with something
/// in it that is no string tells that the service is down.
pub proof fn lemma_status_field_decides(body: Seq<u8>, fields: Seq<(Seq<char>, Option<Seq<char>>)>)
    requires
        json_object_fields(body) == Some(fields),
        names_distinct(fields),
    ensures
        body_reports_active(body) <==> fields.contains(active_field()),
        body_reports_active(body) == body_holds_active_field(body),
{
    lemma_field_text_by_membership(fields, STATUS_FIELD@, ACTIVE_STATUS@);
}

/// Looks up the field `name` among `fields` and hands back its string.
pub fn find_field<'a>(fields: &'a Vec<(String, Option<String>)>, name: &str) -> (text: Option<
    &'a String,
>)
    ensures
        text.deep_view() == field_text(fields.deep_view(), name@),
{
    let wanted = String::from_str(name);
    let mut i: usize = 0;
    assert(fields.deep_view().skip(0) == fields.deep_view());
    while i < fields.len()
        invariant
            i <= fields.len(),
            wanted@ == name@,
            field_text(fields.deep_view(), name@) == field_text(
                fields.deep_view().skip(i as int),
                name@,
            ),
        decreases fields.len() - i,
    {
        assert(fields.deep_view().skip(i as int).drop_first() == fields.deep_view().skip(i + 1));
        if fields[i].0 == wanted {
            return match &fields[i].1 {
                Some(text) => Some(text),
                None => None,
            };
        }
        i = i + 1;
    }
    None
}

/// Whether the fields of an answer say that the service is up.
pub fn status_is_active(fields: &Vec<(String, Option<String>)>) -> (active: bool)
    ensures
        active == fields_report_active(fields.deep_view()),
{
    match find_field(fields, STATUS_FIELD) {
        Some(status) => {
            let expected = String::from_str(ACTIVE_STATUS);
            *status == expected
        },
        None => false,
    }
}

/// Whether the body of an answer says that the service is up.
pub fn body_is_active(body: &[u8]) -> (active: bool)
    ensures
        active == body_reports_active(body@),
        active == body_holds_active_field(body@),
{
    match parse_object_fields(body) {
        Some(fields) => {
            proof {
                lemma_status_field_decides(body@, fields.deep_view());
            }
            status_is_active(&fields)
        },
        None => false,
    }
}

} // verus!
