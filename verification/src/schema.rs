//! Record schemas and the generic field values that they describe.
//!
//! A schema is the ordered list of a record's fields. Each field has a name
//! and a type; a field may itself be a record with a schema of its own, or a
//! list of such records. A record, seen through its schema, is a list of field
//! values in schema order.
use vstd::prelude::*;
use crate::scalar::Double;

verus! {

/// The kind of a field's type, without what a nested schema or an enumeration
/// adds to it. Diagnostics name the expected type by its tag.
#[derive(Clone, Copy, Debug, PartialEq, Eq, Structural)]
pub enum TypeTag {
    Boolean,
    Unsigned,
    Float,
    Text,
    Binary,
    Enumeration,
    Record,
    Repeated,
}

/// The type of a field.
#[derive(Debug, PartialEq)]
pub enum FieldType {
    Boolean,
    /// An unsigned integer of 64 bits.
    Unsigned,
    Float,
    Text,
    Binary,
    /// An enumeration with the given number of variants, numbered from zero.
    Enumeration(u64),
    /// A nested record.
    Record(Schema),
    /// A list of nested records, all of one schema.
    Repeated(Schema),
}

/// A named, typed field.
#[derive(Debug, PartialEq)]
pub struct FieldDescriptor {
    pub name: String,
    pub ty: FieldType,
}

/// The ordered fields of a record kind.
#[derive(Debug, PartialEq)]
pub struct Schema {
    pub fields: Vec<FieldDescriptor>,
}

/// Mathematical counterpart of [`FieldType`].
pub enum FieldTypeView {
    Boolean,
    Unsigned,
    Float,
    Text,
    Binary,
    Enumeration(u64),
    Record(SchemaView),
    Repeated(SchemaView),
}

/// Mathematical counterpart of [`FieldDescriptor`].
pub struct FieldDescriptorView {
    pub name: Seq<char>,
    pub ty: FieldTypeView,
}

/// Mathematical counterpart of [`Schema`].
pub struct SchemaView {
    pub fields: Seq<FieldDescriptorView>,
}

impl FieldTypeView {
    pub open spec fn tag(self) -> TypeTag {
        match self {
            FieldTypeView::Boolean => TypeTag::Boolean,
            FieldTypeView::Unsigned => TypeTag::Unsigned,
            FieldTypeView::Float => TypeTag::Float,
            FieldTypeView::Text => TypeTag::Text,
            FieldTypeView::Binary => TypeTag::Binary,
            FieldTypeView::Enumeration(_) => TypeTag::Enumeration,
            FieldTypeView::Record(_) => TypeTag::Record,
            FieldTypeView::Repeated(_) => TypeTag::Repeated,
        }
    }
}

impl SchemaView {
    /// No two fields of the record share a name.
    pub open spec fn names_unique(self) -> bool {
        forall|i: int, j: int|
            0 <= i < j < self.fields.len() ==> self.fields[i].name != self.fields[j].name
    }

    /// Field names are unique in the record and in every record nested in it.
    pub open spec fn wf(self) -> bool
        decreases self,
    {
        &&& self.names_unique()
        &&& forall|i: int|
            0 <= i < self.fields.len() ==> match #[trigger] self.fields[i].ty {
                FieldTypeView::Record(inner) => inner.wf(),
                FieldTypeView::Repeated(inner) => inner.wf(),
                _ => true,
            }
    }

    /// Whether some field of the record has the given name.
    pub open spec fn has_name(self, name: Seq<char>) -> bool {
        exists|i: int| 0 <= i < self.fields.len() && #[trigger] self.fields[i].name == name
    }
}

impl View for FieldType {
    type V = FieldTypeView;

    open spec fn view(&self) -> FieldTypeView
        decreases self,
    {
        match self {
            FieldType::Boolean => FieldTypeView::Boolean,
            FieldType::Unsigned => FieldTypeView::Unsigned,
            FieldType::Float => FieldTypeView::Float,
            FieldType::Text => FieldTypeView::Text,
            FieldType::Binary => FieldTypeView::Binary,
            FieldType::Enumeration(n) => FieldTypeView::Enumeration(*n),
            FieldType::Record(inner) => FieldTypeView::Record(inner.view()),
            FieldType::Repeated(inner) => FieldTypeView::Repeated(inner.view()),
        }
    }
}

impl View for FieldDescriptor {
    type V = FieldDescriptorView;

    open spec fn view(&self) -> FieldDescriptorView
        decreases self,
    {
        FieldDescriptorView { name: self.name@, ty: self.ty.view() }
    }
}

impl View for Schema {
    type V = SchemaView;

    open spec fn view(&self) -> SchemaView
        decreases self,
    {
        SchemaView {
            fields: Seq::new(
                self.fields@.len(),
                |i: int|
                    if 0 <= i < self.fields@.len() {
                        self.fields@[i].view()
                    } else {
                        FieldDescriptorView { name: Seq::empty(), ty: FieldTypeView::Boolean }
                    },
            ),
        }
    }
}

impl FieldType {
    pub fn tag(&self) -> (r: TypeTag)
        ensures
            r == self@.tag(),
    {
        match self {
            FieldType::Boolean => TypeTag::Boolean,
            FieldType::Unsigned => TypeTag::Unsigned,
            FieldType::Float => TypeTag::Float,
            FieldType::Text => TypeTag::Text,
            FieldType::Binary => TypeTag::Binary,
            FieldType::Enumeration(_) => TypeTag::Enumeration,
            FieldType::Record(_) => TypeTag::Record,
            FieldType::Repeated(_) => TypeTag::Repeated,
        }
    }
}

/// The field with the given name and type.
pub open spec fn spec_field(name: Seq<char>, ty: FieldTypeView) -> FieldDescriptorView {
    FieldDescriptorView { name, ty }
}

impl FieldDescriptor {
    /// A field with the given name and type.
    pub fn new(name: &str, ty: FieldType) -> (r: FieldDescriptor)
        ensures
            r@ == spec_field(name@, ty@),
    {
        FieldDescriptor { name: name.to_owned(), ty }
    }
}

impl Schema {
    /// The schema with the given fields, in the given order.
    pub fn new(fields: Vec<FieldDescriptor>) -> (r: Schema)
        ensures
            r@.fields == descriptors_view(fields@),
    {
        Schema { fields }
    }
}

impl Schema {
    /// Whether no two fields of the record share a name.
    pub fn has_unique_names(&self) -> (r: bool)
        ensures
            r == self@.names_unique(),
    {
        let mut j: usize = 0;
        while j < self.fields.len()
            invariant
                j <= self.fields.len(),
                forall|a: int, b: int|
                    0 <= a < b < j ==> self@.fields[a].name != self@.fields[b].name,
            decreases self.fields.len() - j,
        {
            let mut i: usize = 0;
            while i < j
                invariant
                    i <= j < self.fields.len(),
                    forall|a: int|
                        0 <= a < i ==> self@.fields[a].name != self@.fields[j as int].name,
                decreases j - i,
            {
                if self.fields[i].name == self.fields[j].name {
                    assert(self@.fields[i as int].name == self@.fields[j as int].name);
                    return false;
                }
                i += 1;
            }
            j += 1;
        }
        true
    }

    /// Whether field names are unique in the record and in every record
    /// nested in it.
    pub fn is_well_formed(&self) -> (r: bool)
        ensures
            r == self@.wf(),
        decreases self,
    {
        if !self.has_unique_names() {
            return false;
        }
        let mut i: usize = 0;
        while i < self.fields.len()
            invariant
                i <= self.fields.len(),
                self@.names_unique(),
                forall|a: int|
                    0 <= a < i ==> match #[trigger] self@.fields[a].ty {
                        FieldTypeView::Record(inner) => inner.wf(),
                        FieldTypeView::Repeated(inner) => inner.wf(),
                        _ => true,
                    },
            decreases self.fields.len() - i,
        {
            let nested_ok = match &self.fields[i].ty {
                FieldType::Record(inner) => inner.is_well_formed(),
                FieldType::Repeated(inner) => inner.is_well_formed(),
                _ => true,
            };
            if !nested_ok {
                assert(!(match self@.fields[i as int].ty {
                    FieldTypeView::Record(inner) => inner.wf(),
                    FieldTypeView::Repeated(inner) => inner.wf(),
                    _ => true,
                }));
                return false;
            }
            i += 1;
        }
        true
    }
}

/// The views of a list of field descriptors, item by item.
pub open spec fn descriptors_view(fields: Seq<FieldDescriptor>) -> Seq<FieldDescriptorView> {
    Seq::new(fields.len(), |i: int| fields[i]@)
}

/// The value of one field of a record.
#[derive(Debug, PartialEq)]
pub enum FieldValue {
    Boolean(bool),
    Unsigned(u64),
    Float(Double),
    Text(String),
    Binary(Vec<u8>),
    /// The number of an enumeration's variant.
    Enumeration(u64),
    /// The field values of a nested record, in schema order.
    Record(Vec<FieldValue>),
    /// A list of nested records, each as its field values in schema order.
    Repeated(Vec<Vec<FieldValue>>),
}

/// Mathematical counterpart of [`FieldValue`].
pub enum FieldValueView {
    Boolean(bool),
    Unsigned(u64),
    Float(Double),
    Text(Seq<char>),
    Binary(Seq<u8>),
    Enumeration(u64),
    Record(Seq<FieldValueView>),
    Repeated(Seq<Seq<FieldValueView>>),
}

impl View for FieldValue {
    type V = FieldValueView;

    open spec fn view(&self) -> FieldValueView
        decreases self,
    {
        match self {
            FieldValue::Boolean(b) => FieldValueView::Boolean(*b),
            FieldValue::Unsigned(n) => FieldValueView::Unsigned(*n),
            FieldValue::Float(d) => FieldValueView::Float(*d),
            FieldValue::Text(s) => FieldValueView::Text(s@),
            FieldValue::Binary(b) => FieldValueView::Binary(b@),
            FieldValue::Enumeration(n) => FieldValueView::Enumeration(*n),
            FieldValue::Record(fields) => FieldValueView::Record(fields_view(fields@)),
            FieldValue::Repeated(records) => FieldValueView::Repeated(records_view(records@)),
        }
    }
}

/// The views of a list of records, record by record.
pub open spec fn records_view(records: Seq<Vec<FieldValue>>) -> Seq<Seq<FieldValueView>>
    decreases records,
{
    Seq::new(
        records.len(),
        |i: int|
            if 0 <= i < records.len() {
                fields_view(records[i]@)
            } else {
                Seq::empty()
            },
    )
}

/// The views of a list of field values, item by item.
pub open spec fn fields_view(fields: Seq<FieldValue>) -> Seq<FieldValueView>
    decreases fields,
{
    Seq::new(
        fields.len(),
        |i: int|
            if 0 <= i < fields.len() {
                fields[i].view()
            } else {
                FieldValueView::Boolean(false)
            },
    )
}

impl FieldValue {
    /// The boolean that the value holds.
    pub fn as_boolean(&self) -> (r: bool)
        requires
            self@ is Boolean,
        ensures
            self@ == FieldValueView::Boolean(r),
    {
        match self {
            FieldValue::Boolean(b) => *b,
            _ => vstd::pervasive::unreached(),
        }
    }

    /// The unsigned integer that the value holds.
    pub fn as_unsigned(&self) -> (r: u64)
        requires
            self@ is Unsigned,
        ensures
            self@ == FieldValueView::Unsigned(r),
    {
        match self {
            FieldValue::Unsigned(n) => *n,
            _ => vstd::pervasive::unreached(),
        }
    }

    /// The number that the value holds.
    pub fn as_float(&self) -> (r: Double)
        requires
            self@ is Float,
        ensures
            self@ == FieldValueView::Float(r),
    {
        match self {
            FieldValue::Float(d) => *d,
            _ => vstd::pervasive::unreached(),
        }
    }

    /// The text that the value holds.
    pub fn as_text(&self) -> (r: &String)
        requires
            self@ is Text,
        ensures
            self@ == FieldValueView::Text(r@),
    {
        match self {
            FieldValue::Text(s) => s,
            _ => vstd::pervasive::unreached(),
        }
    }

    /// The bytes that the value holds.
    pub fn as_binary(&self) -> (r: &Vec<u8>)
        requires
            self@ is Binary,
        ensures
            self@ == FieldValueView::Binary(r@),
    {
        match self {
            FieldValue::Binary(b) => b,
            _ => vstd::pervasive::unreached(),
        }
    }

    /// The number of the variant that the value holds.
    pub fn as_enumeration(&self) -> (r: u64)
        requires
            self@ is Enumeration,
        ensures
            self@ == FieldValueView::Enumeration(r),
    {
        match self {
            FieldValue::Enumeration(n) => *n,
            _ => vstd::pervasive::unreached(),
        }
    }

    /// The field values of the nested record that the value holds.
    pub fn as_record(&self) -> (r: &Vec<FieldValue>)
        requires
            self@ is Record,
        ensures
            self@ == FieldValueView::Record(fields_view(r@)),
    {
        match self {
            FieldValue::Record(fields) => fields,
            _ => vstd::pervasive::unreached(),
        }
    }

    /// The records of the list that the value holds.
    pub fn as_repeated(&self) -> (r: &Vec<Vec<FieldValue>>)
        requires
            self@ is Repeated,
        ensures
            self@ == FieldValueView::Repeated(records_view(r@)),
    {
        match self {
            FieldValue::Repeated(records) => records,
            _ => vstd::pervasive::unreached(),
        }
    }
}

/// Appending a record appends its view.
pub proof fn lemma_records_view_push(records: Seq<Vec<FieldValue>>, record: Vec<FieldValue>)
    ensures
        records_view(records.push(record)) == records_view(records).push(fields_view(record@)),
{
    assert(records_view(records.push(record)) =~= records_view(records).push(
        fields_view(record@),
    ));
}

/// Appending a field value appends its view.
pub proof fn lemma_fields_view_push(fields: Seq<FieldValue>, value: FieldValue)
    ensures
        fields_view(fields.push(value)) == fields_view(fields).push(value@),
{
    assert(fields_view(fields.push(value)) =~= fields_view(fields).push(value@));
}

impl FieldValueView {
    /// Whether the value is of the given type. A record conforms when it has
    /// one value per field of the schema and each value conforms to its field;
    /// a list of records, when each of them conforms.
    pub open spec fn conforms(self, ty: FieldTypeView) -> bool
        decreases ty,
    {
        match ty {
            FieldTypeView::Boolean => self is Boolean,
            FieldTypeView::Unsigned => self is Unsigned,
            FieldTypeView::Float => self is Float,
            FieldTypeView::Text => self is Text,
            FieldTypeView::Binary => self is Binary,
            FieldTypeView::Enumeration(count) => self matches FieldValueView::Enumeration(n) && n
                < count,
            FieldTypeView::Record(schema) => self matches FieldValueView::Record(fields)
                && record_conforms(fields, schema),
            FieldTypeView::Repeated(schema) => self matches FieldValueView::Repeated(records)
                && forall|k: int|
                0 <= k < records.len() ==> record_conforms(#[trigger] records[k], schema),
        }
    }
}

/// Whether a list of field values is a record of the given schema.
pub open spec fn record_conforms(fields: Seq<FieldValueView>, schema: SchemaView) -> bool
    decreases schema,
{
    &&& fields.len() == schema.fields.len()
    &&& forall|i: int|
        0 <= i < schema.fields.len() ==> (#[trigger] fields[i]).conforms(schema.fields[i].ty)
}

/// Whether every record of the list is a record of the schema.
fn are_records_of(records: &Vec<Vec<FieldValue>>, schema: &Schema) -> (r: bool)
    ensures
        r == forall|k: int|
            0 <= k < records@.len() ==> record_conforms(
                #[trigger] records_view(records@)[k],
                schema@,
            ),
    decreases schema, 2nat,
{
    let mut k: usize = 0;
    while k < records.len()
        invariant
            k <= records.len(),
            forall|j: int|
                0 <= j < k ==> record_conforms(#[trigger] records_view(records@)[j], schema@),
        decreases records.len() - k,
    {
        if !is_record_of(&records[k], schema) {
            assert(!record_conforms(records_view(records@)[k as int], schema@));
            return false;
        }
        k += 1;
    }
    true
}

impl FieldValue {
    /// Whether the value is of the given type.
    pub fn has_type(&self, ty: &FieldType) -> (r: bool)
        ensures
            r == self@.conforms(ty@),
        decreases ty, 0nat,
    {
        match ty {
            FieldType::Boolean => match self {
                FieldValue::Boolean(_) => true,
                _ => false,
            },
            FieldType::Unsigned => match self {
                FieldValue::Unsigned(_) => true,
                _ => false,
            },
            FieldType::Float => match self {
                FieldValue::Float(_) => true,
                _ => false,
            },
            FieldType::Text => match self {
                FieldValue::Text(_) => true,
                _ => false,
            },
            FieldType::Binary => match self {
                FieldValue::Binary(_) => true,
                _ => false,
            },
            FieldType::Enumeration(count) => match self {
                FieldValue::Enumeration(n) => *n < *count,
                _ => false,
            },
            FieldType::Record(schema) => match self {
                FieldValue::Record(fields) => is_record_of(fields, schema),
                _ => false,
            },
            FieldType::Repeated(schema) => match self {
                FieldValue::Repeated(records) => {
                    let r = are_records_of(records, schema);
                    proof {
                        let given = self@->Repeated_0;
                        assert(given == records_view(records@));
                        if r {
                            assert forall|k: int| 0 <= k < given.len() implies record_conforms(
                                #[trigger] given[k],
                                schema@,
                            ) by {
                                assert(record_conforms(records_view(records@)[k], schema@));
                            }
                        } else {
                            let k = choose|k: int|
                                0 <= k < records@.len() && !record_conforms(
                                    #[trigger] records_view(records@)[k],
                                    schema@,
                                );
                            assert(!record_conforms(given[k], schema@));
                        }
                    }
                    r
                },
                _ => false,
            },
        }
    }
}

/// Whether the field values are a record of the given schema: one value per
/// field, each of its field's type.
pub fn is_record_of(fields: &Vec<FieldValue>, schema: &Schema) -> (r: bool)
    ensures
        r == record_conforms(fields_view(fields@), schema@),
    decreases schema, 1nat,
{
    if fields.len() != schema.fields.len() {
        return false;
    }
    let mut i: usize = 0;
    while i < fields.len()
        invariant
            i <= fields.len(),
            fields.len() == schema.fields.len(),
            forall|j: int|
                0 <= j < i ==> (#[trigger] fields_view(fields@)[j]).conforms(schema@.fields[j].ty),
        decreases fields.len() - i,
    {
        assert(schema@.fields[i as int] == schema.fields@[i as int]@);
        if !fields[i].has_type(&schema.fields[i].ty) {
            assert(!fields_view(fields@)[i as int].conforms(schema@.fields[i as int].ty));
            return false;
        }
        i += 1;
    }
    true
}


} // verus!
