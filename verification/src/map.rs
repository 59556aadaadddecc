//! The text of a map marker's popup, as the map scripts embed it: the label
//! goes in as a JSON string literal, so that no label can end the string or
//! break out of the script. (The rest of the scripts embed coordinates as
//! decimal floating-point text and are written by the platform side.)
use vstd::prelude::*;

use crate::json::{escaped_text_stays_inside_its_quotes, json_escaped, json_string, json_string_literal, safe_inside_quotes};

verus! {

/// The popup call of a marker: `.bindPopup("…")` with the label as a JSON
/// string, or nothing for a marker without a label.
pub open spec fn popup_call(label: Option<Seq<char>>) -> Seq<char> {
    match label {
        Some(text) => ".bindPopup("@ + json_string(text) + ")"@,
        None => Seq::empty(),
    }
}

/// Writes the popup call of a marker (see `popup_call`).
pub fn marker_popup(label: &Option<String>) -> (r: String)
    ensures
        r@ == popup_call(
            match label {
                Some(text) => Some(text@),
                None => None,
            },
        ),
{
    match label {
        Some(text) => {
            let mut call = String::from_str(".bindPopup(");
            let literal = json_string_literal(text.as_str());
            call.append(literal.as_str());
            call.append(")");
            call
        },
        None => String::new(),
    }
}

/// A label cannot break out of its popup call: the call is `.bindPopup("`,
/// then text in which every quote is escaped and no control character
/// stands as it is, then `")`.
pub proof fn a_label_stays_inside_its_popup(text: Seq<char>)
    ensures
        popup_call(Some(text)) == ".bindPopup(\""@ + json_escaped(text) + "\")"@,
        safe_inside_quotes(json_escaped(text)),
{
    reveal_strlit(".bindPopup(");
    reveal_strlit(".bindPopup(\"");
    reveal_strlit(")");
    reveal_strlit("\")");
    escaped_text_stays_inside_its_quotes(text);
    assert(popup_call(Some(text)) =~= ".bindPopup(\""@ + json_escaped(text) + "\")"@);
}

} // verus!
