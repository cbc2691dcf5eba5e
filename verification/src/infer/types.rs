//! The Rust types that schema inference chooses for schema values.
use vstd::prelude::*;

verus! {

/// Why a schema could not be turned into Rust.
#[derive(Clone, Debug, PartialEq, Eq)]
pub enum InferError {
    /// The schema names no `openapi` version.
    UnspecifiedVersion,
    /// The schema's `openapi` version is not `3.0.0`.
    UnsupportedVersion(String),
    /// A value schema has no string `type`.
    MissingType,
    /// A parameter's `integer` or `number` schema has no string `format`.
    MissingFormat,
    /// An `integer` with a format other than `int32` or `int64`.
    InvalidIntegerFormat,
    /// A `number` with a format other than `float` or `double`.
    InvalidNumberFormat,
    /// A `boolean` with a format.
    UnexpectedBooleanFormat,
    /// A `type` that is none of the known ones.
    InvalidType(String),
    /// An `http` security scheme other than Basic.
    UnsupportedHttpScheme,
    /// A security scheme that is neither `http` nor `apiKey`.
    UnsupportedAuthType,
    /// A request body without a JSON schema.
    NonJsonBody,
}

/// The characters an error carries, with its kind.
pub enum InferErrorModel {
    UnspecifiedVersion,
    UnsupportedVersion(Seq<char>),
    MissingType,
    MissingFormat,
    InvalidIntegerFormat,
    InvalidNumberFormat,
    UnexpectedBooleanFormat,
    InvalidType(Seq<char>),
    UnsupportedHttpScheme,
    UnsupportedAuthType,
    NonJsonBody,
}

impl View for InferError {
    type V = InferErrorModel;

    open spec fn view(&self) -> InferErrorModel {
        match self {
            InferError::UnspecifiedVersion => InferErrorModel::UnspecifiedVersion,
            InferError::UnsupportedVersion(v) => InferErrorModel::UnsupportedVersion(v@),
            InferError::MissingType => InferErrorModel::MissingType,
            InferError::MissingFormat => InferErrorModel::MissingFormat,
            InferError::InvalidIntegerFormat => InferErrorModel::InvalidIntegerFormat,
            InferError::InvalidNumberFormat => InferErrorModel::InvalidNumberFormat,
            InferError::UnexpectedBooleanFormat => InferErrorModel::UnexpectedBooleanFormat,
            InferError::InvalidType(t) => InferErrorModel::InvalidType(t@),
            InferError::UnsupportedHttpScheme => InferErrorModel::UnsupportedHttpScheme,
            InferError::UnsupportedAuthType => InferErrorModel::UnsupportedAuthType,
            InferError::NonJsonBody => InferErrorModel::NonJsonBody,
        }
    }
}

/// A Rust type for a schema value.
#[derive(Debug)]
pub enum RustType {
    I32,
    I64,
    F32,
    F64,
    Bool,
    /// `&'a str`, borrowed from the response.
    StrRef,
    /// `String`.
    OwnedString,
    /// `&'a [u8]`, borrowed from the response.
    Bytes,
    /// Base64-encoded bytes.
    Base64,
    Date,
    DateTime,
    /// `()`, for a response without content.
    Unit,
    /// `Vec<T>`.
    Vec(Box<RustType>),
    /// A named schema of `#/components/schemas`, by its type name.
    SchemaRef(String),
    /// An inline object: the struct with that number among the supporting
    /// structs.
    Anonymous(usize),
}

/// The characters a Rust type carries, with its shape.
pub enum TypeModel {
    I32,
    I64,
    F32,
    F64,
    Bool,
    StrRef,
    OwnedString,
    Bytes,
    Base64,
    Date,
    DateTime,
    Unit,
    Vec(Box<TypeModel>),
    SchemaRef(Seq<char>),
    Anonymous(nat),
}

pub open spec fn spec_type_view(t: RustType) -> TypeModel
    decreases t,
{
    match t {
        RustType::I32 => TypeModel::I32,
        RustType::I64 => TypeModel::I64,
        RustType::F32 => TypeModel::F32,
        RustType::F64 => TypeModel::F64,
        RustType::Bool => TypeModel::Bool,
        RustType::StrRef => TypeModel::StrRef,
        RustType::OwnedString => TypeModel::OwnedString,
        RustType::Bytes => TypeModel::Bytes,
        RustType::Base64 => TypeModel::Base64,
        RustType::Date => TypeModel::Date,
        RustType::DateTime => TypeModel::DateTime,
        RustType::Unit => TypeModel::Unit,
        RustType::Vec(item) => TypeModel::Vec(Box::new(spec_type_view(*item))),
        RustType::SchemaRef(name) => TypeModel::SchemaRef(name@),
        RustType::Anonymous(k) => TypeModel::Anonymous(k as nat),
    }
}

impl View for RustType {
    type V = TypeModel;

    open spec fn view(&self) -> TypeModel {
        spec_type_view(*self)
    }
}

/// A field of an inline object.
#[derive(Debug)]
pub struct Field {
    /// The property's name in the schema, kept for serde's `rename`.
    pub name: String,
    /// The field's Rust name.
    pub ident: String,
    pub ty: RustType,
    /// A required field has the type itself; any other has `Option` of it.
    pub required: bool,
}

pub struct FieldModel {
    pub name: Seq<char>,
    pub ident: Seq<char>,
    pub ty: TypeModel,
    pub required: bool,
}

impl View for Field {
    type V = FieldModel;

    open spec fn view(&self) -> FieldModel {
        FieldModel { name: self.name@, ident: self.ident@, ty: self.ty@, required: self.required }
    }
}

/// A struct generated for an inline object.
#[derive(Debug)]
pub struct StructDef {
    pub fields: Vec<Field>,
    /// Some field borrows from the response.
    pub has_lifetime: bool,
}

pub struct StructModel {
    pub fields: Seq<FieldModel>,
    pub has_lifetime: bool,
}

pub open spec fn spec_fields_view(fields: Seq<Field>) -> Seq<FieldModel> {
    fields.map_values(|f: Field| f@)
}

impl View for StructDef {
    type V = StructModel;

    open spec fn view(&self) -> StructModel {
        StructModel { fields: spec_fields_view(self.fields@), has_lifetime: self.has_lifetime }
    }
}

pub open spec fn spec_structs_view(structs: Seq<StructDef>) -> Seq<StructModel> {
    structs.map_values(|s: StructDef| s@)
}

} // verus!
