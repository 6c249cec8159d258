//! The schema node and its shapes.

use vstd::prelude::*;
use crate::model::{
    AnySchemaView, ArrayTypeView, IntegerTypeView, NumberTypeView, ObjectTypeView, SchemaDataView,
    StringTypeView,
};
use crate::properties::Properties;
pub use crate::property::XValue;
use crate::reference::ReferenceOr;
use crate::value::{Number, Value};
use crate::text::str_eq;
use crate::variant_or::{KnownVariant, VariantOrUnknownOrEmpty};

verus! {

/// A link to documentation kept elsewhere.
#[derive(Debug)]
pub struct ExternalDocumentation {
    pub description: Option<String>,
    pub url: String,
}

/// What a schema node says whatever its shape. Each field may be absent;
/// an absent flag is unspecified, not false.
#[derive(Debug)]
pub struct SchemaData {
    pub nullable: Option<bool>,
    pub read_only: Option<bool>,
    pub write_only: Option<bool>,
    pub deprecated: Option<bool>,
    pub external_docs: Option<ExternalDocumentation>,
    pub example: Option<Value>,
    pub title: Option<String>,
    pub description: Option<String>,
    /// The name of the property that tells apart the schemas inheriting
    /// from this one.
    pub discriminator: Option<String>,
    pub default: Option<Value>,
}

/// A node of the schema tree: what it says whatever its shape, and its
/// shape. In a document the two are written as one object.
#[derive(Debug)]
pub struct Schema {
    pub schema_data: SchemaData,
    pub schema_kind: SchemaKind,
}

/// The shape of a schema node.
#[derive(Debug)]
pub enum SchemaKind {
    Type(Type),
    OneOf { one_of: Vec<ReferenceOr<Schema>> },
    AllOf { all_of: Vec<ReferenceOr<Schema>> },
    AnyOf { any_of: Vec<ReferenceOr<Schema>> },
    Any(AnySchema),
}

/// A primitive shape, told by the `type` keyword.
#[derive(Debug)]
pub enum Type {
    String(StringType),
    Number(NumberType),
    Integer(IntegerType),
    Object(ObjectType),
    Array(ArrayType),
    Boolean {  },
}

/// Whether further properties are allowed: a plain yes or no, or the
/// schema they must match.
#[derive(Debug)]
pub enum AdditionalProperties {
    Any(bool),
    Schema(Box<ReferenceOr<Schema>>),
}

/// The shape of a node without a recognised `type` and without a
/// composition keyword: any of the constraint keywords, none required. Its
/// exclusive bounds are flags, not numbers.
#[derive(Debug)]
pub struct AnySchema {
    pub pattern: Option<String>,
    pub multiple_of: Option<Number>,
    pub exclusive_minimum: Option<bool>,
    pub exclusive_maximum: Option<bool>,
    pub minimum: Option<Number>,
    pub maximum: Option<Number>,
    pub properties: Properties,
    pub required: Vec<String>,
    pub additional_properties: Option<AdditionalProperties>,
    pub min_properties: Option<usize>,
    pub max_properties: Option<usize>,
    pub items: Option<ReferenceOr<Box<Schema>>>,
    pub min_items: Option<usize>,
    pub max_items: Option<usize>,
    pub unique_items: Option<bool>,
    pub format: Option<String>,
}

/// A string shape.
#[derive(Debug)]
pub struct StringType {
    pub format: VariantOrUnknownOrEmpty<StringFormat>,
    pub pattern: Option<String>,
    /// The allowed values; an absent value among them is a legal member.
    pub enumeration: Vec<Option<String>>,
    pub min_length: Option<usize>,
    pub max_length: Option<usize>,
}

/// A number shape. Its bounds are numbers, kept as the document wrote them.
#[derive(Debug)]
pub struct NumberType {
    pub format: VariantOrUnknownOrEmpty<NumberFormat>,
    pub multiple_of: Option<Number>,
    pub exclusive_minimum: Option<Number>,
    pub exclusive_maximum: Option<Number>,
    pub minimum: Option<Number>,
    pub maximum: Option<Number>,
    pub enumeration: Vec<Number>,
}

/// An integer shape. Its bounds are signed 64-bit integers.
#[derive(Debug)]
pub struct IntegerType {
    pub format: VariantOrUnknownOrEmpty<IntegerFormat>,
    pub multiple_of: Option<i64>,
    pub exclusive_minimum: Option<i64>,
    pub exclusive_maximum: Option<i64>,
    pub minimum: Option<i64>,
    pub maximum: Option<i64>,
    pub enumeration: Vec<i64>,
}

/// An object shape. Its properties keep the order in which they were
/// declared.
#[derive(Debug)]
pub struct ObjectType {
    pub properties: Properties,
    pub required: Vec<String>,
    pub additional_properties: Option<AdditionalProperties>,
    pub min_properties: Option<usize>,
    pub max_properties: Option<usize>,
}

/// An array shape. Its items are unique only where it says so.
#[derive(Debug)]
pub struct ArrayType {
    pub items: Option<ReferenceOr<Box<Schema>>>,
    pub min_items: Option<usize>,
    pub max_items: Option<usize>,
    pub unique_items: bool,
}

/// The known formats of a number.
#[derive(Clone, Copy, Debug, PartialEq, Eq, Structural)]
pub enum NumberFormat {
    Float,
    Double,
}

/// The known formats of an integer.
#[derive(Clone, Copy, Debug, PartialEq, Eq, Structural)]
pub enum IntegerFormat {
    UInt32,
    UInt64,
    Int32,
    Int64,
}

/// The known formats of a string.
#[derive(Clone, Copy, Debug, PartialEq, Eq, Structural)]
pub enum StringFormat {
    Date,
    DateTime,
    Password,
    Byte,
    Binary,
}

/// The data of a node that says nothing.
pub open spec fn empty_data() -> SchemaDataView {
    SchemaDataView {
        nullable: None,
        read_only: None,
        write_only: None,
        deprecated: None,
        external_docs: None,
        example: None,
        title: None,
        description: None,
        discriminator: None,
        default: None,
    }
}

/// The string shape without any constraint.
pub open spec fn empty_string() -> StringTypeView {
    StringTypeView {
        format: crate::variant_or::VariantOrUnknownOrEmptyView::Empty,
        pattern: None,
        enumeration: Seq::empty(),
        min_length: None,
        max_length: None,
    }
}

/// The number shape without any constraint.
pub open spec fn empty_number() -> NumberTypeView {
    NumberTypeView {
        format: crate::variant_or::VariantOrUnknownOrEmptyView::Empty,
        multiple_of: None,
        exclusive_minimum: None,
        exclusive_maximum: None,
        minimum: None,
        maximum: None,
        enumeration: Seq::empty(),
    }
}

/// The integer shape without any constraint.
pub open spec fn empty_integer() -> IntegerTypeView {
    IntegerTypeView {
        format: crate::variant_or::VariantOrUnknownOrEmptyView::Empty,
        multiple_of: None,
        exclusive_minimum: None,
        exclusive_maximum: None,
        minimum: None,
        maximum: None,
        enumeration: Seq::empty(),
    }
}

/// The object shape without any property or constraint.
pub open spec fn empty_object() -> ObjectTypeView {
    ObjectTypeView {
        properties: Seq::empty(),
        required: Seq::empty(),
        additional_properties: None,
        min_properties: None,
        max_properties: None,
    }
}

/// The array shape without any constraint.
pub open spec fn empty_array() -> ArrayTypeView {
    ArrayTypeView { items: None, min_items: None, max_items: None, unique_items: false }
}

/// The open shape without any constraint.
pub open spec fn empty_any() -> AnySchemaView {
    AnySchemaView {
        pattern: None,
        multiple_of: None,
        exclusive_minimum: None,
        exclusive_maximum: None,
        minimum: None,
        maximum: None,
        properties: Seq::empty(),
        required: Seq::empty(),
        additional_properties: None,
        min_properties: None,
        max_properties: None,
        items: None,
        min_items: None,
        max_items: None,
        unique_items: None,
        format: None,
    }
}

impl Default for SchemaData {
    fn default() -> (d: SchemaData)
        ensures
            d@ == empty_data(),
    {
        SchemaData {
            nullable: None,
            read_only: None,
            write_only: None,
            deprecated: None,
            external_docs: None,
            example: None,
            title: None,
            description: None,
            discriminator: None,
            default: None,
        }
    }
}

impl Default for StringType {
    fn default() -> (t: StringType)
        ensures
            t@ == empty_string(),
    {
        let t = StringType {
            format: VariantOrUnknownOrEmpty::Empty,
            pattern: None,
            enumeration: Vec::new(),
            min_length: None,
            max_length: None,
        };
        assert(t@.enumeration =~= Seq::empty());
        t
    }
}

impl Default for NumberType {
    fn default() -> (t: NumberType)
        ensures
            t@ == empty_number(),
    {
        NumberType {
            format: VariantOrUnknownOrEmpty::Empty,
            multiple_of: None,
            exclusive_minimum: None,
            exclusive_maximum: None,
            minimum: None,
            maximum: None,
            enumeration: Vec::new(),
        }
    }
}

impl Default for IntegerType {
    fn default() -> (t: IntegerType)
        ensures
            t@ == empty_integer(),
    {
        IntegerType {
            format: VariantOrUnknownOrEmpty::Empty,
            multiple_of: None,
            exclusive_minimum: None,
            exclusive_maximum: None,
            minimum: None,
            maximum: None,
            enumeration: Vec::new(),
        }
    }
}

impl Default for ObjectType {
    fn default() -> (t: ObjectType)
        ensures
            t@ == empty_object(),
    {
        let t = ObjectType {
            properties: Properties::new(),
            required: Vec::new(),
            additional_properties: None,
            min_properties: None,
            max_properties: None,
        };
        assert(t@.properties =~= Seq::empty());
        assert(t@.required =~= Seq::empty());
        t
    }
}

impl Default for ArrayType {
    fn default() -> (t: ArrayType)
        ensures
            t@ == empty_array(),
    {
        ArrayType { items: None, min_items: None, max_items: None, unique_items: false }
    }
}

impl Default for AnySchema {
    fn default() -> (t: AnySchema)
        ensures
            t@ == empty_any(),
    {
        let t = AnySchema {
            pattern: None,
            multiple_of: None,
            exclusive_minimum: None,
            exclusive_maximum: None,
            minimum: None,
            maximum: None,
            properties: Properties::new(),
            required: Vec::new(),
            additional_properties: None,
            min_properties: None,
            max_properties: None,
            items: None,
            min_items: None,
            max_items: None,
            unique_items: None,
            format: None,
        };
        assert(t@.properties =~= Seq::empty());
        assert(t@.required =~= Seq::empty());
        t
    }
}

impl KnownVariant for NumberFormat {
    open spec fn text(self) -> Seq<char> {
        match self {
            NumberFormat::Float => "float"@,
            NumberFormat::Double => "double"@,
        }
    }

    open spec fn of_text(s: Seq<char>) -> Option<Self> {
        if s == "float"@ {
            Some(NumberFormat::Float)
        } else if s == "double"@ {
            Some(NumberFormat::Double)
        } else {
            None
        }
    }

    proof fn lemma_text(v: Self, s: Seq<char>) {
        reveal_strlit("float");
        reveal_strlit("double");
        assert("float"@.len() == 5 && "double"@.len() == 6);
    }

    fn from_text(s: &str) -> (found: Option<Self>) {
        if str_eq(s, "float") {
            Some(NumberFormat::Float)
        } else if str_eq(s, "double") {
            Some(NumberFormat::Double)
        } else {
            None
        }
    }

    fn as_text(&self) -> (s: &'static str) {
        match self {
            NumberFormat::Float => "float",
            NumberFormat::Double => "double",
        }
    }
}

impl KnownVariant for IntegerFormat {
    open spec fn text(self) -> Seq<char> {
        match self {
            IntegerFormat::UInt32 => "uint32"@,
            IntegerFormat::UInt64 => "uint64"@,
            IntegerFormat::Int32 => "int32"@,
            IntegerFormat::Int64 => "int64"@,
        }
    }

    open spec fn of_text(s: Seq<char>) -> Option<Self> {
        if s == "uint32"@ {
            Some(IntegerFormat::UInt32)
        } else if s == "uint64"@ {
            Some(IntegerFormat::UInt64)
        } else if s == "int32"@ {
            Some(IntegerFormat::Int32)
        } else if s == "int64"@ {
            Some(IntegerFormat::Int64)
        } else {
            None
        }
    }

    proof fn lemma_text(v: Self, s: Seq<char>) {
        reveal_strlit("uint32");
        reveal_strlit("uint64");
        reveal_strlit("int32");
        reveal_strlit("int64");
        assert("uint32"@.len() == 6 && "uint64"@.len() == 6);
        assert("int32"@.len() == 5 && "int64"@.len() == 5);
        assert("uint32"@[4] == '3' && "uint64"@[4] == '6');
        assert("int32"@[3] == '3' && "int64"@[3] == '6');
    }

    fn from_text(s: &str) -> (found: Option<Self>) {
        if str_eq(s, "uint32") {
            Some(IntegerFormat::UInt32)
        } else if str_eq(s, "uint64") {
            Some(IntegerFormat::UInt64)
        } else if str_eq(s, "int32") {
            Some(IntegerFormat::Int32)
        } else if str_eq(s, "int64") {
            Some(IntegerFormat::Int64)
        } else {
            None
        }
    }

    fn as_text(&self) -> (s: &'static str) {
        match self {
            IntegerFormat::UInt32 => "uint32",
            IntegerFormat::UInt64 => "uint64",
            IntegerFormat::Int32 => "int32",
            IntegerFormat::Int64 => "int64",
        }
    }
}

impl KnownVariant for StringFormat {
    open spec fn text(self) -> Seq<char> {
        match self {
            StringFormat::Date => "date"@,
            StringFormat::DateTime => "date-time"@,
            StringFormat::Password => "password"@,
            StringFormat::Byte => "byte"@,
            StringFormat::Binary => "binary"@,
        }
    }

    open spec fn of_text(s: Seq<char>) -> Option<Self> {
        if s == "date"@ {
            Some(StringFormat::Date)
        } else if s == "date-time"@ {
            Some(StringFormat::DateTime)
        } else if s == "password"@ {
            Some(StringFormat::Password)
        } else if s == "byte"@ {
            Some(StringFormat::Byte)
        } else if s == "binary"@ {
            Some(StringFormat::Binary)
        } else {
            None
        }
    }

    proof fn lemma_text(v: Self, s: Seq<char>) {
        reveal_strlit("date");
        reveal_strlit("date-time");
        reveal_strlit("password");
        reveal_strlit("byte");
        reveal_strlit("binary");
        assert("date"@.len() == 4 && "byte"@.len() == 4);
        assert("date-time"@.len() == 9 && "password"@.len() == 8 && "binary"@.len() == 6);
        assert("date"@[0] == 'd' && "byte"@[0] == 'b');
    }

    fn from_text(s: &str) -> (found: Option<Self>) {
        if str_eq(s, "date") {
            Some(StringFormat::Date)
        } else if str_eq(s, "date-time") {
            Some(StringFormat::DateTime)
        } else if str_eq(s, "password") {
            Some(StringFormat::Password)
        } else if str_eq(s, "byte") {
            Some(StringFormat::Byte)
        } else if str_eq(s, "binary") {
            Some(StringFormat::Binary)
        } else {
            None
        }
    }

    fn as_text(&self) -> (s: &'static str) {
        match self {
            StringFormat::Date => "date",
            StringFormat::DateTime => "date-time",
            StringFormat::Password => "password",
            StringFormat::Byte => "byte",
            StringFormat::Binary => "binary",
        }
    }
}

} // verus!
