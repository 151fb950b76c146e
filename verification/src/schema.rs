//! Schemas as the host engine sees them, and their normal form.
//!
//! A schema is an ordered sequence of named, typed, nullable fields. The host
//! engine addresses fields by lowercase names, so every schema that leaves
//! this library has its field names rewritten to lowercase, by the Unicode
//! rules. Order, types and nullability are those that the source reported.

use datafusion::arrow::datatypes::DataType;
use vstd::prelude::*;

verus! {

/// The columnar library's type of a column. The library carries such values
/// through and never looks inside one.
#[verifier::external_type_specification]
#[verifier::external_body]
pub struct ExDataType(DataType);

/// `<DataType as Clone>::clone`, which the columnar library derives: the copy
/// is the value that was copied.
pub assume_specification[ <DataType as Clone>::clone ](data_type: &DataType) -> (copy: DataType)
    ensures
        copy == *data_type,
;

/// One column of a schema.
#[derive(Debug)]
pub struct Field {
    pub name: String,
    pub data_type: DataType,
    pub nullable: bool,
}

/// An ordered sequence of fields. Two fields may share a name.
#[derive(Debug)]
pub struct Schema {
    pub fields: Vec<Field>,
}

/// The lowercase form of a text: what `str::to_lowercase` gives for it, by
/// the Unicode rules for lowercase. It may be longer than the text.
pub uninterp spec fn lowercase_text(text: Seq<char>) -> Seq<char>;

/// Whether `text` is a lowercase form: what the lowering gives for some text.
pub open spec fn is_lowercase_form(text: Seq<char>) -> bool {
    exists|source: Seq<char>| text == #[trigger] lowercase_text(source)
}

/// Whether `renamed` is `field` under the name `name`, with nothing else
/// changed.
pub open spec fn is_renamed_field(field: Field, name: Seq<char>, renamed: Field) -> bool {
    &&& renamed.name@ == name
    &&& renamed.data_type == field.data_type
    &&& renamed.nullable == field.nullable
}

/// The name that `with_names` gives the field at `i`: the one at `i` in
/// `names`, or the field's own where `names` is too short.
pub open spec fn name_at(fields: Seq<Field>, names: Seq<String>, i: int) -> Seq<char> {
    if i < names.len() {
        names[i]@
    } else {
        fields[i].name@
    }
}

/// Whether `renamed` holds the fields of `fields`, in their order, each under
/// the name that `names` has at its place and with nothing else changed.
pub open spec fn is_renamed(fields: Seq<Field>, names: Seq<String>, renamed: Seq<Field>) -> bool {
    &&& renamed.len() == fields.len()
    &&& forall|i: int|
        0 <= i < fields.len() ==> is_renamed_field(
            #[trigger] fields[i],
            name_at(fields, names, i),
            renamed[i],
        )
}

/// Whether `lowered` is `field` with its name in lowercase form and nothing
/// else changed.
pub open spec fn is_lowered_field(field: Field, lowered: Field) -> bool {
    is_renamed_field(field, lowercase_text(field.name@), lowered)
}

/// Whether `lowered` holds the fields of `fields`, in their order, each with
/// its name in lowercase form and nothing else changed.
pub open spec fn is_lowered(fields: Seq<Field>, lowered: Seq<Field>) -> bool {
    &&& lowered.len() == fields.len()
    &&& forall|i: int| 0 <= i < fields.len() ==> is_lowered_field(#[trigger] fields[i], lowered[i])
}

/// Whether every field name of `fields` is a lowercase form.
pub open spec fn has_lowercase_names(fields: Seq<Field>) -> bool {
    forall|i: int| 0 <= i < fields.len() ==> is_lowercase_form(#[trigger] fields[i].name@)
}

/// Fields that were lowered from any fields at all have lowercase forms for
/// names.
pub proof fn lemma_lowered_has_lowercase_names(fields: Seq<Field>, lowered: Seq<Field>)
    requires
        is_lowered(fields, lowered),
    ensures
        has_lowercase_names(lowered),
{
    assert forall|i: int| 0 <= i < lowered.len() implies is_lowercase_form(
        #[trigger] lowered[i].name@,
    ) by {
        assert(is_lowered_field(fields[i], lowered[i]));
        assert(lowered[i].name@ == lowercase_text(fields[i].name@));
    }
}

/// `str::to_lowercase`: the lowercase equivalent of the text as a new string.
/// It depends on the text alone.
#[verifier::external_body]
fn to_lowercase(text: &str) -> (lowered: String)
    ensures
        lowered@ == lowercase_text(text@),
{
    text.to_lowercase()
}

/// A copy of `schema` under other names: the fields of `schema` in their
/// order, the field at each place under the name that `names` has there, its
/// type and its nullability kept. A field for which `names` has no name
/// keeps its own; names beyond the last field are not used.
pub fn with_names(schema: &Schema, names: &Vec<String>) -> (renamed: Schema)
    ensures
        is_renamed(schema.fields@, names@, renamed.fields@),
{
    let mut fields: Vec<Field> = Vec::new();
    let mut i: usize = 0;
    while i < schema.fields.len()
        invariant
            i <= schema.fields.len(),
            fields.len() == i,
            forall|j: int|
                0 <= j < i ==> is_renamed_field(
                    #[trigger] schema.fields[j],
                    name_at(schema.fields@, names@, j),
                    fields[j],
                ),
        decreases schema.fields.len() - i,
    {
        let field = &schema.fields[i];
        let name = if i < names.len() {
            names[i].clone()
        } else {
            field.name.clone()
        };
        fields.push(Field { name, data_type: field.data_type.clone(), nullable: field.nullable });
        i = i + 1;
    }
    Schema { fields }
}

/// The schema with lowercase field names: the fields of `schema` in their
/// order, each with its name in lowercase form, its type and its nullability
/// kept. Names that differ in case only come out equal; both fields stay.
pub fn schema_to_lowercase(schema: &Schema) -> (lowered: Schema)
    ensures
        is_lowered(schema.fields@, lowered.fields@),
        has_lowercase_names(lowered.fields@),
{
    let mut names: Vec<String> = Vec::new();
    let mut i: usize = 0;
    while i < schema.fields.len()
        invariant
            i <= schema.fields.len(),
            names.len() == i,
            forall|j: int|
                0 <= j < i ==> (#[trigger] names[j])@ == lowercase_text(schema.fields[j].name@),
        decreases schema.fields.len() - i,
    {
        let name = to_lowercase(schema.fields[i].name.as_str());
        names.push(name);
        i = i + 1;
    }
    let lowered = with_names(schema, &names);
    proof {
        assert forall|j: int| 0 <= j < schema.fields.len() implies is_lowered_field(
            #[trigger] schema.fields[j],
            lowered.fields[j],
        ) by {
            assert(name_at(schema.fields@, names@, j) == names[j]@);
        }
        lemma_lowered_has_lowercase_names(schema.fields@, lowered.fields@);
    }
    lowered
}

/// The schema without fields.
pub fn empty_schema() -> (schema: Schema)
    ensures
        schema.fields@.len() == 0,
{
    Schema { fields: Vec::new() }
}

} // verus!
