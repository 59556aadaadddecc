//! How a form shows an error: next to each field, the first message that the
//! backend reported for it; below the form, the error's own text, only where
//! no field carries a message, so that the same text is not shown twice.
use vstd::prelude::*;

use crate::models::ApiErrorBody;
use crate::api::errors::{
    field_message_of, RegisterError, RegisterVehicleError, UpdateProfileError, UpdateVehicleError,
};

verus! {

/// An error that a form can show field by field.
pub trait FieldErrors {
    /// The message for `field`, if the error reports one.
    spec fn spec_field_message(&self, field: Seq<char>) -> Option<String>;

    /// The error's own text.
    spec fn spec_text(&self) -> Seq<char>;

    fn field_text(&self, field: &str) -> (r: Option<String>)
        ensures
            r == self.spec_field_message(field@),
    ;

    fn text(&self) -> (r: String)
        ensures
            r@ == self.spec_text(),
    ;
}

/// What a form shows for an error: a message per field, in the order the
/// fields were given, and the general message.
#[derive(Debug, Clone, PartialEq)]
pub struct FormMessages {
    pub fields: Vec<Option<String>>,
    pub general: Option<String>,
}

/// Whether some field of `fields` carries a message of `err`.
pub open spec fn some_field_reported<E: FieldErrors>(err: E, fields: Seq<&str>) -> bool {
    exists|i: int| 0 <= i < fields.len() && (#[trigger] err.spec_field_message(fields[i]@)) is Some
}

/// The messages that a form of `fields` shows for `err`: each field's own
/// message, and the error's text below the form only where no field has one.
pub fn form_messages<E: FieldErrors>(err: &E, fields: &Vec<&str>) -> (r: FormMessages)
    ensures
        r.fields@.len() == fields@.len(),
        forall|i: int|
            0 <= i < fields@.len() ==> r.fields@[i] == err.spec_field_message(#[trigger] fields@[i]@),
        match r.general {
            Some(text) => !some_field_reported(*err, fields@) && text@ == err.spec_text(),
            None => some_field_reported(*err, fields@),
        },
{
    let mut messages: Vec<Option<String>> = Vec::new();
    let mut reported = false;
    let mut i: usize = 0;
    while i < fields.len()
        invariant
            i <= fields@.len(),
            messages@.len() == i,
            forall|j: int| 0 <= j < i ==> messages@[j] == err.spec_field_message(#[trigger] fields@[j]@),
            reported <==> exists|j: int| 0 <= j < i && (#[trigger] err.spec_field_message(fields@[j]@)) is Some,
        decreases fields@.len() - i,
    {
        let message = err.field_text(fields[i]);
        if message.is_some() {
            reported = true;
        }
        messages.push(message);
        i = i + 1;
    }
    let general = if reported {
        None
    } else {
        Some(err.text())
    };
    FormMessages { fields: messages, general }
}

/// Every form error reads a field's message alike: a validation error gives
/// the first message that its body reports for the field (see
/// `field_message_of`), whichever operation it belongs to; any other error
/// gives none.
pub proof fn form_errors_read_a_field_alike(body: ApiErrorBody, field: Seq<char>)
    ensures
        RegisterError::Validation(body).spec_field_message(field) == field_message_of(body, field),
        UpdateProfileError::Validation(body).spec_field_message(field) == field_message_of(body, field),
        RegisterVehicleError::Validation(body).spec_field_message(field) == field_message_of(body, field),
        UpdateVehicleError::Validation(body).spec_field_message(field) == field_message_of(body, field),
        RegisterError::EmptyFields.spec_field_message(field) is None,
        UpdateProfileError::NoFields.spec_field_message(field) is None,
        RegisterVehicleError::EmptyFields.spec_field_message(field) is None,
        UpdateVehicleError::NoFields.spec_field_message(field) is None,
{
}

impl FieldErrors for RegisterError {
    open spec fn spec_field_message(&self, field: Seq<char>) -> Option<String> {
        match self {
            RegisterError::Validation(body) => field_message_of(*body, field),
            _ => None,
        }
    }

    open spec fn spec_text(&self) -> Seq<char> {
        self.spec_message()
    }

    fn field_text(&self, field: &str) -> (r: Option<String>) {
        self.field_message(field)
    }

    fn text(&self) -> (r: String) {
        self.message()
    }
}

impl FieldErrors for UpdateProfileError {
    open spec fn spec_field_message(&self, field: Seq<char>) -> Option<String> {
        match self {
            UpdateProfileError::Validation(body) => field_message_of(*body, field),
            _ => None,
        }
    }

    open spec fn spec_text(&self) -> Seq<char> {
        self.spec_message()
    }

    fn field_text(&self, field: &str) -> (r: Option<String>) {
        self.field_message(field)
    }

    fn text(&self) -> (r: String) {
        self.message()
    }
}

impl FieldErrors for RegisterVehicleError {
    open spec fn spec_field_message(&self, field: Seq<char>) -> Option<String> {
        match self {
            RegisterVehicleError::Validation(body) => field_message_of(*body, field),
            _ => None,
        }
    }

    open spec fn spec_text(&self) -> Seq<char> {
        self.spec_message()
    }

    fn field_text(&self, field: &str) -> (r: Option<String>) {
        self.field_message(field)
    }

    fn text(&self) -> (r: String) {
        self.message()
    }
}

impl FieldErrors for UpdateVehicleError {
    open spec fn spec_field_message(&self, field: Seq<char>) -> Option<String> {
        match self {
            UpdateVehicleError::Validation(body) => field_message_of(*body, field),
            _ => None,
        }
    }

    open spec fn spec_text(&self) -> Seq<char> {
        self.spec_message()
    }

    fn field_text(&self, field: &str) -> (r: Option<String>) {
        self.field_message(field)
    }

    fn text(&self) -> (r: String) {
        self.message()
    }
}

} // verus!
