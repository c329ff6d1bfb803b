use vstd::prelude::*;
use vstd::string::StringExecFns;
use crate::local::app_error::{AppError, ErrorKind};
use crate::local::text::{is_nul_free, nul_free, same_text};

verus! {

/// What a field of a structure holds.
#[derive(Debug)]
pub enum Value {
    Text(String),
    Int64(i64),
    UInt64(u64),
}

/// A field of a structure: a name and a typed value.
#[derive(Debug)]
pub struct Field {
    pub name: String,
    pub value: Value,
}

pub enum ValueView {
    Text(Seq<char>),
    Int64(i64),
    UInt64(u64),
}

pub struct FieldView {
    pub name: Seq<char>,
    pub value: ValueView,
}

pub struct StructureView {
    pub name: Seq<char>,
    pub fields: Seq<FieldView>,
}

impl View for Value {
    type V = ValueView;

    open spec fn view(&self) -> ValueView {
        match self {
            Value::Text(s) => ValueView::Text(s@),
            Value::Int64(v) => ValueView::Int64(*v),
            Value::UInt64(v) => ValueView::UInt64(*v),
        }
    }
}

impl View for Field {
    type V = FieldView;

    open spec fn view(&self) -> FieldView {
        FieldView { name: self.name@, value: self.value@ }
    }
}

/// The views of a run of fields, in order.
pub open spec fn field_views(fields: Seq<Field>) -> Seq<FieldView> {
    Seq::new(fields.len(), |i: int| fields[i]@)
}

/// Whether the engine can hold this value: a text without NUL, or a number.
pub open spec fn value_encodable(value: ValueView) -> bool {
    match value {
        ValueView::Text(s) => nul_free(s),
        _ => true,
    }
}

/// Whether the engine can hold this field.
pub open spec fn field_encodable(field: FieldView) -> bool {
    nul_free(field.name) && value_encodable(field.value)
}

/// Whether the engine can hold this structure: its name, the names of its
/// fields and their texts are free of NUL.
pub open spec fn encodable(s: StructureView) -> bool {
    &&& nul_free(s.name)
    &&& forall|i: int| 0 <= i < s.fields.len() ==> field_encodable(#[trigger] s.fields[i])
}

/// The value under `name`: that of the last field so named, since a later
/// field replaces an earlier one of the same name.
pub open spec fn lookup(fields: Seq<FieldView>, name: Seq<char>) -> Option<ValueView>
    decreases fields.len(),
{
    if fields.len() == 0 {
        None
    } else if fields.last().name == name {
        Some(fields.last().value)
    } else {
        lookup(fields.drop_last(), name)
    }
}

impl Field {
    /// A field that holds a text.
    pub fn string(field_name: &str, value: &str) -> (f: Field)
        ensures
            f@ == (FieldView { name: field_name@, value: ValueView::Text(value@) }),
    {
        Field { name: field_name.to_owned(), value: Value::Text(value.to_owned()) }
    }

    /// A field that holds a signed number.
    pub fn int64(field_name: &str, value: i64) -> (f: Field)
        ensures
            f@ == (FieldView { name: field_name@, value: ValueView::Int64(value) }),
    {
        Field { name: field_name.to_owned(), value: Value::Int64(value) }
    }

    /// A field that holds an unsigned number.
    pub fn uint64(field_name: &str, value: u64) -> (f: Field)
        ensures
            f@ == (FieldView { name: field_name@, value: ValueView::UInt64(value) }),
    {
        Field { name: field_name.to_owned(), value: Value::UInt64(value) }
    }

    /// Whether the engine can hold this field.
    pub fn is_encodable(&self) -> (r: bool)
        ensures
            r == field_encodable(self@),
    {
        if !is_nul_free(self.name.as_str()) {
            return false;
        }
        match &self.value {
            Value::Text(s) => is_nul_free(s.as_str()),
            _ => true,
        }
    }
}

/// A message in the engine's structured form: a name and named, typed
/// fields. Every value of this type can be handed to the engine.
#[derive(Debug)]
pub struct Structure {
    name: String,
    fields: Vec<Field>,
}

impl View for Structure {
    type V = StructureView;

    closed spec fn view(&self) -> StructureView {
        StructureView { name: self.name@, fields: field_views(self.fields@) }
    }
}

impl Structure {
    #[verifier::type_invariant]
    spec fn inv(self) -> bool {
        encodable(self@)
    }

    /// The structure of that name and those fields, if the engine can hold
    /// it; an error of class `Protocol` if a name or a text holds a NUL.
    pub fn new(name: &str, fields: Vec<Field>) -> (r: Result<Self, AppError>)
        ensures
            r is Ok <==> encodable(StructureView { name: name@, fields: field_views(fields@) }),
            r is Ok ==> r->Ok_0@ == (StructureView { name: name@, fields: field_views(fields@) }),
            r is Err ==> r->Err_0.spec_kind() == ErrorKind::Protocol,
    {
        let ghost views = field_views(fields@);
        if !is_nul_free(name) {
            return Err(
                AppError::with_kind(
                    ErrorKind::Protocol,
                    String::from_str("The structure name holds a NUL character."),
                ),
            );
        }
        let mut i: usize = 0;
        while i < fields.len()
            invariant
                i <= fields.len(),
                views == field_views(fields@),
                forall|j: int| 0 <= j < i ==> field_encodable(#[trigger] views[j]),
            decreases fields.len() - i,
        {
            if !fields[i].is_encodable() {
                proof {
                    let whole = StructureView { name: name@, fields: views };
                    assert(whole.fields[i as int] == fields@[i as int]@);
                    assert(!field_encodable(whole.fields[i as int]));
                }
                return Err(
                    AppError::with_kind(
                        ErrorKind::Protocol,
                        String::from_str("A structure field holds a NUL character."),
                    ),
                );
            }
            i += 1;
        }
        Ok(Structure { name: name.to_owned(), fields })
    }

    /// The name of the structure. It holds no NUL, as nothing in a
    /// structure does.
    pub fn name(&self) -> (n: &str)
        ensures
            n@ == self@.name,
            encodable(self@),
    {
        proof {
            use_type_invariant(self);
        }
        self.name.as_str()
    }

    /// The fields of the structure, in order. The engine can hold each,
    /// as it can hold all of a structure.
    pub fn fields(&self) -> (f: &Vec<Field>)
        ensures
            field_views(f@) == self@.fields,
            encodable(self@),
    {
        proof {
            use_type_invariant(self);
        }
        &self.fields
    }

    /// The place of the last field of that name.
    fn find(&self, field_name: &str) -> (r: Option<usize>)
        ensures
            match r {
                Some(i) => i < self.fields@.len() && lookup(self@.fields, field_name@) == Some(
                    self.fields@[i as int]@.value,
                ),
                None => lookup(self@.fields, field_name@) is None,
            },
    {
        let ghost all = self@.fields;
        let mut i: usize = self.fields.len();
        proof {
            assert(all.take(i as int) == all);
        }
        while i > 0
            invariant
                i <= self.fields.len(),
                all == field_views(self.fields@),
                lookup(all, field_name@) == lookup(all.take(i as int), field_name@),
            decreases i,
        {
            proof {
                let head = all.take(i as int);
                assert(head.last() == all[i - 1]);
                assert(head.drop_last() == all.take(i - 1));
            }
            i -= 1;
            if same_text(self.fields[i].name.as_str(), field_name) {
                return Some(i);
            }
        }
        proof {
            assert(all.take(0).len() == 0);
        }
        None
    }

    /// The text under `field_name`; an error of class `Protocol` if no field
    /// has that name or the field holds no text.
    pub fn get_string(&self, field_name: &str) -> (r: Result<String, AppError>)
        ensures
            match lookup(self@.fields, field_name@) {
                Some(ValueView::Text(s)) => r is Ok && r->Ok_0@ == s,
                _ => r is Err && r->Err_0.spec_kind() == ErrorKind::Protocol,
            },
    {
        if let Some(i) = self.find(field_name) {
            if let Value::Text(s) = &self.fields[i].value {
                return Ok(s.clone());
            }
        }
        Err(
            AppError::with_kind(
                ErrorKind::Protocol,
                String::from_str("The value is `null` for the String field `").concat(
                    field_name,
                ).concat("`."),
            ),
        )
    }

    /// The signed number under `field_name`; an error of class `Protocol` if
    /// no field has that name or the field holds something else.
    pub fn get_i64(&self, field_name: &str) -> (r: Result<i64, AppError>)
        ensures
            match lookup(self@.fields, field_name@) {
                Some(ValueView::Int64(v)) => r is Ok && r->Ok_0 == v,
                _ => r is Err && r->Err_0.spec_kind() == ErrorKind::Protocol,
            },
    {
        if let Some(i) = self.find(field_name) {
            if let Value::Int64(v) = &self.fields[i].value {
                return Ok(*v);
            }
        }
        Err(
            AppError::with_kind(
                ErrorKind::Protocol,
                String::from_str("The value is `null` for the i64 field `").concat(
                    field_name,
                ).concat("`."),
            ),
        )
    }

    /// The unsigned number under `field_name`; an error of class `Protocol`
    /// if no field has that name or the field holds something else.
    pub fn get_u64(&self, field_name: &str) -> (r: Result<u64, AppError>)
        ensures
            match lookup(self@.fields, field_name@) {
                Some(ValueView::UInt64(v)) => r is Ok && r->Ok_0 == v,
                _ => r is Err && r->Err_0.spec_kind() == ErrorKind::Protocol,
            },
    {
        if let Some(i) = self.find(field_name) {
            if let Value::UInt64(v) = &self.fields[i].value {
                return Ok(*v);
            }
        }
        Err(
            AppError::with_kind(
                ErrorKind::Protocol,
                String::from_str("The value is `null` for the u64 field `").concat(
                    field_name,
                ).concat("`."),
            ),
        )
    }
}

} // verus!
