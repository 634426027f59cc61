//! HTTP calls as values: what to send, before it is sent.
use vstd::prelude::*;
use vstd::string::*;

use crate::providers::media::{ReferenceImage, ReferenceImageView};

verus! {

/// Request method.
#[derive(Debug, Clone, Copy, PartialEq, Eq, Structural)]
pub enum Method {
    /// `GET`.
    Get,
    /// `POST`.
    Post,
}

/// The value of a member of a JSON object.
#[derive(Debug)]
pub enum FieldValue {
    /// A string.
    Text(String),
    /// A number.
    Number(u64),
}

/// The value of a member of a JSON object, with its text as a sequence.
pub enum FieldValueView {
    /// A string.
    Text(Seq<char>),
    /// A number.
    Number(u64),
}

/// A member of a JSON object.
#[derive(Debug)]
pub struct Field {
    /// Its name.
    pub name: &'static str,
    /// Its value.
    pub value: FieldValue,
}

impl View for Field {
    type V = (Seq<char>, FieldValueView);

    open spec fn view(&self) -> (Seq<char>, FieldValueView) {
        (
            self.name@,
            match self.value {
                FieldValue::Text(s) => FieldValueView::Text(s@),
                FieldValue::Number(n) => FieldValueView::Number(n),
            },
        )
    }
}

/// A text field of a multipart form.
#[derive(Debug)]
pub struct FormField {
    /// Its name.
    pub name: &'static str,
    /// Its value.
    pub value: String,
}

impl View for FormField {
    type V = (Seq<char>, Seq<char>);

    open spec fn view(&self) -> (Seq<char>, Seq<char>) {
        (self.name@, self.value@)
    }
}

/// What a call carries.
#[derive(Debug)]
pub enum Body {
    /// Nothing.
    Empty,
    /// A JSON object.
    Json(Vec<Field>),
    /// A multipart form: text fields, then one file.
    Form {
        /// The text fields, in order.
        fields: Vec<FormField>,
        /// The name of the field that holds the file.
        file_field: &'static str,
        /// The file.
        file: ReferenceImage,
    },
}

/// What a call carries, as sequences.
pub enum BodyView {
    /// Nothing.
    Empty,
    /// A JSON object.
    Json(Seq<(Seq<char>, FieldValueView)>),
    /// A multipart form.
    Form {
        /// The text fields, in order.
        fields: Seq<(Seq<char>, Seq<char>)>,
        /// The name of the field that holds the file.
        file_field: Seq<char>,
        /// The file.
        file: ReferenceImageView,
    },
}

/// The members of a JSON object.
pub open spec fn members(fields: Seq<Field>) -> Seq<(Seq<char>, FieldValueView)> {
    fields.map_values(|f: Field| f@)
}

/// The text fields of a form.
pub open spec fn form_fields(fields: Seq<FormField>) -> Seq<(Seq<char>, Seq<char>)> {
    fields.map_values(|f: FormField| f@)
}

impl View for Body {
    type V = BodyView;

    open spec fn view(&self) -> BodyView {
        match *self {
            Body::Empty => BodyView::Empty,
            Body::Json(fields) => BodyView::Json(members(fields@)),
            Body::Form { fields, file_field, file } => BodyView::Form {
                fields: form_fields(fields@),
                file_field: file_field@,
                file: file@,
            },
        }
    }
}

/// One HTTP call.
#[derive(Debug)]
pub struct Call {
    /// Request method.
    pub method: Method,
    /// Where to send it.
    pub url: String,
    /// What carries it in the log.
    pub operation: &'static str,
    /// Which request of ours it belongs to.
    pub correlation_id: String,
    /// What to send.
    pub body: Body,
}

/// One HTTP call as sequences.
pub struct CallView {
    /// Request method.
    pub method: Method,
    /// Where to send it.
    pub url: Seq<char>,
    /// What carries it in the log.
    pub operation: Seq<char>,
    /// Which request of ours it belongs to.
    pub correlation_id: Seq<char>,
    /// What to send.
    pub body: BodyView,
}

impl View for Call {
    type V = CallView;

    open spec fn view(&self) -> CallView {
        CallView {
            method: self.method,
            url: self.url@,
            operation: self.operation@,
            correlation_id: self.correlation_id@,
            body: self.body@,
        }
    }
}

/// A JSON member that is a string.
pub fn text_field(name: &'static str, value: &str) -> (r: Field)
    ensures
        r@ == (name@, FieldValueView::Text(value@)),
{
    Field { name, value: FieldValue::Text(value.to_owned()) }
}

/// A JSON member that is a number.
pub fn number_field(name: &'static str, value: u64) -> (r: Field)
    ensures
        r@ == (name@, FieldValueView::Number(value)),
{
    Field { name, value: FieldValue::Number(value) }
}

/// A text field of a form.
pub fn form_field(name: &'static str, value: &str) -> (r: FormField)
    ensures
        r@ == (name@, value@),
{
    FormField { name, value: value.to_owned() }
}

impl CallView {
    /// The call carries the field `name` with the text `value`.
    pub open spec fn says(self, name: Seq<char>, value: Seq<char>) -> bool {
        match self.body {
            BodyView::Empty => false,
            BodyView::Json(members) => exists|i: int|
                0 <= i < members.len() && #[trigger] members[i] == (
                    name,
                    FieldValueView::Text(value),
                ),
            BodyView::Form { fields, .. } => exists|i: int|
                0 <= i < fields.len() && #[trigger] fields[i] == (name, value),
        }
    }

    /// How many fields the call carries, a file not counted.
    pub open spec fn field_count(self) -> nat {
        match self.body {
            BodyView::Empty => 0,
            BodyView::Json(members) => members.len(),
            BodyView::Form { fields, .. } => fields.len(),
        }
    }

    /// The file that the call uploads, and the field that it goes into.
    pub open spec fn upload(self) -> Option<(Seq<char>, ReferenceImageView)> {
        match self.body {
            BodyView::Form { file_field, file, .. } => Some((file_field, file)),
            _ => None,
        }
    }
}

} // verus!
