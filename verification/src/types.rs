//! Scalar and record types of the rows that flow through an aggregation.

use vstd::prelude::*;

verus! {

/// The scalar data types a column can have.
#[derive(Clone, Copy, Debug, PartialEq, Eq, Structural)]
pub enum DataType {
    Boolean,
    Int8,
    Int16,
    Int32,
    Int64,
    UInt8,
    UInt16,
    UInt32,
    UInt64,
    Float32,
    Float64,
    Utf8,
    /// A 128-bit decimal with the given precision and scale.
    Decimal128(u8, i8),
}

/// The serialization format attached to a record type.
#[derive(Clone, Copy, Debug, PartialEq, Eq, Structural)]
pub enum Format {
    Json,
    Avro,
    Parquet,
    RawString,
}

/// One named, typed field of a record.
#[derive(Debug, PartialEq, Eq)]
pub struct StructField {
    pub name: String,
    pub alias: Option<String>,
    pub data_type: TypeDef,
}

/// A record type: an ordered list of fields, optionally named.
#[derive(Debug, PartialEq, Eq)]
pub struct StructDef {
    pub name: Option<String>,
    pub fields: Vec<StructField>,
    pub format: Option<Format>,
}

/// The type of a value: a scalar or a record, each with a nullability flag.
#[derive(Debug, PartialEq, Eq)]
pub enum TypeDef {
    StructDef(StructDef, bool),
    DataType(DataType, bool),
}

/// Mathematical model of a [`StructField`].
pub ghost struct StructFieldView {
    pub name: Seq<char>,
    pub alias: Option<Seq<char>>,
    pub data_type: TypeDefView,
}

/// Mathematical model of a [`StructDef`].
pub ghost struct StructDefView {
    pub name: Option<Seq<char>>,
    pub fields: Seq<StructFieldView>,
    pub format: Option<Format>,
}

/// Mathematical model of a [`TypeDef`].
pub ghost enum TypeDefView {
    StructDef(StructDefView, bool),
    DataType(DataType, bool),
}

/// The characters of an optional string.
pub open spec fn opt_str_view(s: Option<String>) -> Option<Seq<char>> {
    match s {
        Some(s) => Some(s@),
        None => None,
    }
}

/// The models of a sequence of fields, in order.
pub open spec fn fields_view(fields: Seq<StructField>) -> Seq<StructFieldView> {
    Seq::new(fields.len(), |i: int| fields[i]@)
}

impl View for TypeDef {
    type V = TypeDefView;

    open spec fn view(&self) -> TypeDefView
        decreases self,
    {
        match self {
            TypeDef::StructDef(s, nullable) => TypeDefView::StructDef(s@, *nullable),
            TypeDef::DataType(d, nullable) => TypeDefView::DataType(*d, *nullable),
        }
    }
}

impl View for StructDef {
    type V = StructDefView;

    open spec fn view(&self) -> StructDefView
        decreases self,
    {
        StructDefView {
            name: opt_str_view(self.name),
            fields: Seq::new(
                self.fields.len() as nat,
                |i: int|
                    if 0 <= i < self.fields.len() {
                        self.fields[i]@
                    } else {
                        arbitrary()
                    },
            ),
            format: self.format,
        }
    }
}

impl View for StructField {
    type V = StructFieldView;

    open spec fn view(&self) -> StructFieldView
        decreases self,
    {
        StructFieldView {
            name: self.name@,
            alias: opt_str_view(self.alias),
            data_type: self.data_type@,
        }
    }
}

impl StructDefView {
    /// Whether no two fields share both name and alias.
    pub open spec fn has_unique_fields(self) -> bool {
        forall|i: int, j: int|
            0 <= i < j < self.fields.len() ==> !(self.fields[i].name == self.fields[j].name
                && self.fields[i].alias == self.fields[j].alias)
    }
}

impl TypeDefView {
    /// Whether a value of this type may be null.
    pub open spec fn is_optional(self) -> bool {
        match self {
            TypeDefView::StructDef(_, nullable) => nullable,
            TypeDefView::DataType(_, nullable) => nullable,
        }
    }

    /// This type with its nullability flag replaced.
    pub open spec fn with_nullity(self, nullable: bool) -> TypeDefView {
        match self {
            TypeDefView::StructDef(s, _) => TypeDefView::StructDef(s, nullable),
            TypeDefView::DataType(d, _) => TypeDefView::DataType(d, nullable),
        }
    }
}

/// A record's model lists the models of its fields, in order.
pub proof fn lemma_struct_def_view(def: StructDef)
    ensures
        def@.name == opt_str_view(def.name),
        def@.fields == fields_view(def.fields@),
        def@.format == def.format,
{
    reveal_with_fuel(<StructDef as View>::view, 2);
    assert(def@.fields =~= fields_view(def.fields@));
}

/// The name under which the window marker record is known.
pub open spec fn window_type_name() -> Seq<char> {
    "Window"@
}

/// The reserved record type that marks window metadata: a non-nullable,
/// field-less record named by [`window_type_name`].
pub open spec fn window_type_view() -> TypeDefView {
    TypeDefView::StructDef(
        StructDefView { name: Some(window_type_name()), fields: Seq::empty(), format: None },
        false,
    )
}

/// Copies an optional string.
pub fn clone_opt_string(s: &Option<String>) -> (r: Option<String>)
    ensures
        opt_str_view(r) == opt_str_view(*s),
{
    match s {
        Some(s) => Some(s.clone()),
        None => None,
    }
}

/// Compares two optional strings by their characters.
pub fn opt_string_eq(a: &Option<String>, b: &Option<String>) -> (r: bool)
    ensures
        r == (opt_str_view(*a) == opt_str_view(*b)),
{
    match (a, b) {
        (Some(a), Some(b)) => *a == *b,
        (None, None) => true,
        _ => false,
    }
}

impl StructField {
    pub fn new(name: String, alias: Option<String>, data_type: TypeDef) -> (field: Self)
        ensures
            field.name == name,
            field.alias == alias,
            field.data_type == data_type,
    {
        StructField { name, alias, data_type }
    }

    /// Whether two fields have the same name, alias and type.
    pub fn same_as(&self, other: &StructField) -> (r: bool)
        ensures
            r == (self@ == other@),
        decreases self,
    {
        self.name == other.name && opt_string_eq(&self.alias, &other.alias)
            && self.data_type.same_as(&other.data_type)
    }
}

impl StructDef {
    pub fn new(name: Option<String>, fields: Vec<StructField>, format: Option<Format>) -> (def:
        Self)
        ensures
            def.name == name,
            def.fields == fields,
            def.format == format,
    {
        StructDef { name, fields, format }
    }

    /// Whether no two fields share both name and alias, as a record type
    /// requires.
    pub fn has_unique_fields(&self) -> (r: bool)
        ensures
            r == self@.has_unique_fields(),
    {
        proof {
            lemma_struct_def_view(*self);
        }
        let mut j: usize = 0;
        while j < self.fields.len()
            invariant
                j <= self.fields.len(),
                self@.fields == fields_view(self.fields@),
                forall|a: int, b: int|
                    0 <= a < b < j ==> !(self@.fields[a].name == self@.fields[b].name
                        && self@.fields[a].alias == self@.fields[b].alias),
            decreases self.fields.len() - j,
        {
            let mut i: usize = 0;
            while i < j
                invariant
                    i <= j < self.fields.len(),
                    self@.fields == fields_view(self.fields@),
                    forall|a: int|
                        0 <= a < i ==> !(self@.fields[a].name == self@.fields[j as int].name
                            && self@.fields[a].alias == self@.fields[j as int].alias),
                decreases j - i,
            {
                if self.fields[i].name == self.fields[j].name && opt_string_eq(
                    &self.fields[i].alias,
                    &self.fields[j].alias,
                ) {
                    assert(self@.fields[i as int].name == self@.fields[j as int].name
                        && self@.fields[i as int].alias == self@.fields[j as int].alias);
                    return false;
                }
                i += 1;
            }
            j += 1;
        }
        true
    }

    /// An anonymous record type over `fields`, with no format attached.
    pub fn for_fields(fields: Vec<StructField>) -> (def: Self)
        ensures
            def.name is None,
            def.fields == fields,
            def.format is None,
    {
        StructDef { name: None, fields, format: None }
    }

    /// Whether two record types have the same name, fields and format.
    pub fn same_as(&self, other: &StructDef) -> (r: bool)
        ensures
            r == (self@ == other@),
        decreases self,
    {
        proof {
            lemma_struct_def_view(*self);
            lemma_struct_def_view(*other);
        }
        if !opt_string_eq(&self.name, &other.name) {
            return false;
        }
        if self.fields.len() != other.fields.len() {
            assert(self@.fields.len() != other@.fields.len());
            return false;
        }
        let same_format = match (self.format, other.format) {
            (Some(a), Some(b)) => a == b,
            (None, None) => true,
            _ => false,
        };
        if !same_format {
            return false;
        }
        let mut i: usize = 0;
        while i < self.fields.len()
            invariant
                i <= self.fields.len(),
                self.fields.len() == other.fields.len(),
                self@.fields == fields_view(self.fields@),
                other@.fields == fields_view(other.fields@),
                forall|j: int| 0 <= j < i ==> self.fields[j]@ == other.fields[j]@,
            decreases self.fields.len() - i,
        {
            if !self.fields[i].same_as(&other.fields[i]) {
                assert(self@.fields[i as int] != other@.fields[i as int]);
                return false;
            }
            i += 1;
        }
        assert(self@.fields =~= other@.fields);
        true
    }
}

impl TypeDef {
    /// Whether a value of this type may be null.
    pub fn is_optional(&self) -> (r: bool)
        ensures
            r == self@.is_optional(),
    {
        match self {
            TypeDef::StructDef(_, nullable) => *nullable,
            TypeDef::DataType(_, nullable) => *nullable,
        }
    }

    /// This type with its nullability flag replaced.
    pub fn with_nullity(self, nullable: bool) -> (r: Self)
        ensures
            r@ == self@.with_nullity(nullable),
    {
        match self {
            TypeDef::StructDef(s, _) => TypeDef::StructDef(s, nullable),
            TypeDef::DataType(d, _) => TypeDef::DataType(d, nullable),
        }
    }

    /// Whether two types are the same.
    pub fn same_as(&self, other: &TypeDef) -> (r: bool)
        ensures
            r == (self@ == other@),
        decreases self,
    {
        match (self, other) {
            (TypeDef::StructDef(a, an), TypeDef::StructDef(b, bn)) => *an == *bn && a.same_as(b),
            (TypeDef::DataType(a, an), TypeDef::DataType(b, bn)) => *an == *bn && *a == *b,
            _ => false,
        }
    }
}

impl Clone for StructField {
    fn clone(&self) -> (r: Self)
        ensures
            r@ == self@,
        decreases self,
    {
        StructField {
            name: self.name.clone(),
            alias: clone_opt_string(&self.alias),
            data_type: self.data_type.clone(),
        }
    }
}

impl Clone for StructDef {
    fn clone(&self) -> (r: Self)
        ensures
            r@ == self@,
        decreases self,
    {
        let mut fields: Vec<StructField> = Vec::new();
        let mut i: usize = 0;
        while i < self.fields.len()
            invariant
                i <= self.fields.len(),
                fields.len() == i,
                forall|j: int| 0 <= j < i ==> fields[j]@ == self.fields[j]@,
            decreases self.fields.len() - i,
        {
            fields.push(self.fields[i].clone());
            i += 1;
        }
        let r = StructDef { name: clone_opt_string(&self.name), fields, format: self.format };
        proof {
            lemma_struct_def_view(r);
            lemma_struct_def_view(*self);
            assert(r@.fields =~= self@.fields);
        }
        r
    }
}

impl Clone for TypeDef {
    fn clone(&self) -> (r: Self)
        ensures
            r@ == self@,
        decreases self,
    {
        match self {
            TypeDef::StructDef(s, nullable) => TypeDef::StructDef(s.clone(), *nullable),
            TypeDef::DataType(d, nullable) => TypeDef::DataType(*d, *nullable),
        }
    }
}

/// The reserved type of window metadata columns.
pub fn window_type_def() -> (r: TypeDef)
    ensures
        r@ == window_type_view(),
{
    let def = StructDef { name: Some("Window".to_string()), fields: Vec::new(), format: None };
    proof {
        lemma_struct_def_view(def);
        assert(def@.fields =~= Seq::empty());
    }
    TypeDef::StructDef(def, false)
}

} // verus!
