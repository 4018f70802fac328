//! Form fields: a labeled, hinted input descriptor with a closed set of
//! declared input kinds, and its raw wire form in which the kind is a
//! plain string that must name one of the known kinds.

use vstd::prelude::*;

use crate::errors::{ValidationError, ValidationErrorV};

verus! {

/// The closed enumeration of input kinds a field may declare.
#[derive(Clone, Copy, PartialEq, Eq, Structural, Debug)]
pub enum FormType {
    InputArea,
    InputText,
    InputDate,
}

/// The wire name of an input kind.
pub open spec fn form_type_name(t: FormType) -> Seq<char> {
    match t {
        FormType::InputArea => "InputArea"@,
        FormType::InputText => "InputText"@,
        FormType::InputDate => "InputDate"@,
    }
}

/// Which input kind, if any, a wire name denotes. Unknown names denote
/// none: they are a validation error, never a silent default.
pub open spec fn spec_parse_form_type(s: Seq<char>) -> Option<FormType> {
    if s == "InputArea"@ {
        Some(FormType::InputArea)
    } else if s == "InputText"@ {
        Some(FormType::InputText)
    } else if s == "InputDate"@ {
        Some(FormType::InputDate)
    } else {
        None
    }
}

/// String equality, decided on the character sequences.
pub fn str_eq(a: &str, b: &str) -> (r: bool)
    ensures
        r == (a@ == b@),
{
    let owned_a = a.to_owned();
    owned_a.eq(&b.to_owned())
}

impl FormType {
    /// The wire name of this input kind.
    pub fn as_str(&self) -> (r: &'static str)
        ensures
            r@ == form_type_name(*self),
    {
        match self {
            FormType::InputArea => "InputArea",
            FormType::InputText => "InputText",
            FormType::InputDate => "InputDate",
        }
    }

    /// Resolves a wire name to the input kind it denotes; a name outside
    /// the closed enumeration is rejected, carrying the offending name.
    pub fn parse(s: &str) -> (res: Result<FormType, ValidationError>)
        ensures
            match res {
                Ok(t) => spec_parse_form_type(s@) == Some(t),
                Err(e) => {
                    &&& spec_parse_form_type(s@) is None
                    &&& e@ == ValidationErrorV::InvalidFormKind(s@)
                },
            },
    {
        if str_eq(s, "InputArea") {
            Ok(FormType::InputArea)
        } else if str_eq(s, "InputText") {
            Ok(FormType::InputText)
        } else if str_eq(s, "InputDate") {
            Ok(FormType::InputDate)
        } else {
            Err(ValidationError::InvalidFormKind(s.to_owned()))
        }
    }
}

/// The wire names of distinct input kinds differ.
pub proof fn lemma_form_type_names_distinct(t1: FormType, t2: FormType)
    ensures
        t1 != t2 ==> form_type_name(t1) != form_type_name(t2),
{
    reveal_strlit("InputArea");
    reveal_strlit("InputText");
    reveal_strlit("InputDate");
    assert("InputArea"@[5] == 'A');
    assert("InputText"@[5] == 'T');
    assert("InputDate"@[5] == 'D');
}

/// Parsing inverts naming: every input kind is recovered from its wire
/// name.
pub proof fn lemma_form_type_round_trip(t: FormType)
    ensures
        spec_parse_form_type(form_type_name(t)) == Some(t),
{
    lemma_form_type_names_distinct(t, FormType::InputArea);
    lemma_form_type_names_distinct(t, FormType::InputText);
    lemma_form_type_names_distinct(t, FormType::InputDate);
}

/// Naming inverts parsing: a wire name that denotes an input kind is that
/// kind's own name.
pub proof fn lemma_form_type_parse_inverts(s: Seq<char>, t: FormType)
    requires
        spec_parse_form_type(s) == Some(t),
    ensures
        form_type_name(t) == s,
{
}

/// A single form-editable value descriptor.
#[derive(Debug)]
pub struct Field {
    pub label: String,
    pub hint: String,
    pub form_type: FormType,
}

/// Mathematical image of a `Field`.
pub struct FieldV {
    pub label: Seq<char>,
    pub hint: Seq<char>,
    pub form_type: FormType,
}

impl View for Field {
    type V = FieldV;

    open spec fn view(&self) -> FieldV {
        FieldV { label: self.label@, hint: self.hint@, form_type: self.form_type }
    }
}

impl Clone for Field {
    fn clone(&self) -> (r: Self)
        ensures
            r == *self,
    {
        Field {
            label: self.label.clone(),
            hint: self.hint.clone(),
            form_type: self.form_type,
        }
    }
}

/// The raw wire form of a field: the declared kind is still a plain
/// string.
#[derive(Debug)]
pub struct RawField {
    pub label: String,
    pub hint: String,
    pub form_type: String,
}

/// Mathematical image of a `RawField`.
pub struct RawFieldV {
    pub label: Seq<char>,
    pub hint: Seq<char>,
    pub form_type: Seq<char>,
}

impl View for RawField {
    type V = RawFieldV;

    open spec fn view(&self) -> RawFieldV {
        RawFieldV { label: self.label@, hint: self.hint@, form_type: self.form_type@ }
    }
}

impl Clone for RawField {
    fn clone(&self) -> (r: Self)
        ensures
            r == *self,
    {
        RawField {
            label: self.label.clone(),
            hint: self.hint.clone(),
            form_type: self.form_type.clone(),
        }
    }
}

/// The raw form a field serializes to.
pub open spec fn raw_of_field(f: FieldV) -> RawFieldV {
    RawFieldV { label: f.label, hint: f.hint, form_type: form_type_name(f.form_type) }
}

/// Which field, if any, a raw form deserializes to: the labels carry
/// over, and the kind string must name a known input kind.
pub open spec fn spec_parse_field(r: RawFieldV) -> Option<FieldV> {
    match spec_parse_form_type(r.form_type) {
        Some(t) => Some(FieldV { label: r.label, hint: r.hint, form_type: t }),
        None => None,
    }
}

impl Field {
    /// Serializes this field to its raw wire form.
    pub fn to_raw(&self) -> (r: RawField)
        ensures
            r@ == raw_of_field(self@),
    {
        RawField {
            label: self.label.clone(),
            hint: self.hint.clone(),
            form_type: self.form_type.as_str().to_owned(),
        }
    }

    /// Deserializes a raw wire form, rejecting an unknown input kind with
    /// the offending name.
    pub fn parse_raw(raw: &RawField) -> (res: Result<Field, ValidationError>)
        ensures
            match res {
                Ok(f) => spec_parse_field(raw@) == Some(f@),
                Err(e) => {
                    &&& spec_parse_field(raw@) is None
                    &&& e@ == ValidationErrorV::InvalidFormKind(raw@.form_type)
                },
            },
    {
        match FormType::parse(raw.form_type.as_str()) {
            Ok(t) => Ok(Field { label: raw.label.clone(), hint: raw.hint.clone(), form_type: t }),
            Err(e) => Err(e),
        }
    }
}

/// Round trip: serializing a field and deserializing the result yields
/// the field back, for every valid `(label, hint, form_type)` triple.
pub proof fn lemma_field_round_trip(f: FieldV)
    ensures
        spec_parse_field(raw_of_field(f)) == Some(f),
{
    lemma_form_type_round_trip(f.form_type);
}

/// Deserializing then serializing yields the original raw form.
pub proof fn lemma_field_parse_inverts(r: RawFieldV, f: FieldV)
    requires
        spec_parse_field(r) == Some(f),
    ensures
        raw_of_field(f) == r,
{
    lemma_form_type_parse_inverts(r.form_type, f.form_type);
}

} // verus!
