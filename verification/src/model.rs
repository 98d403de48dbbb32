//! The structured model of a record declaration that parsing produces.

use vstd::prelude::*;

verus! {

/// The text of one documentation annotation.
#[derive(Debug, PartialEq, Eq)]
pub struct Attribute {
    pub attr: String,
}

/// Who may see a field. The parser only ever produces `Public`.
#[derive(Clone, Copy, Debug, PartialEq, Eq, Structural)]
pub enum Visibility {
    Public,
    Crate,
    Restricted,
    Private,
}

/// A reference to a type, as written in a field.
#[derive(Debug, PartialEq, Eq)]
pub struct Type {
    /// Whether the written type was `Option<..>`.
    pub is_option: bool,
    /// The written type as text; for `Option<..>`, what stands between its
    /// angle brackets.
    pub path: String,
}

/// One named, typed field of a record.
#[derive(Debug, PartialEq, Eq)]
pub struct Field {
    pub attributes: Vec<Attribute>,
    pub vis: Visibility,
    pub field_name: String,
    pub ty: Type,
}

/// A record declaration: its name and its fields in the order written.
#[derive(Debug, PartialEq, Eq)]
pub struct Struct {
    pub name: String,
    pub fields: Vec<Field>,
}

/// A declaration by kind. Only records are parsed; the other kinds are kept
/// as tags for declarations that are not supported yet.
#[derive(Debug, PartialEq, Eq)]
pub enum Data {
    Struct(Struct),
    Enum(()),
    Union(()),
}

/// What a [`Type`] stands for in specifications.
pub struct TypeView {
    pub is_option: bool,
    pub path: Seq<char>,
}

/// What a [`Field`] stands for in specifications.
pub struct FieldView {
    pub attributes: Seq<Seq<char>>,
    pub vis: Visibility,
    pub field_name: Seq<char>,
    pub ty: TypeView,
}

/// What a [`Struct`] stands for in specifications.
pub struct StructView {
    pub name: Seq<char>,
    pub fields: Seq<FieldView>,
}

/// What a [`Data`] stands for in specifications.
pub enum DataView {
    Struct(StructView),
    Enum,
    Union,
}

impl View for Attribute {
    type V = Seq<char>;

    open spec fn view(&self) -> Seq<char> {
        self.attr@
    }
}

impl View for Type {
    type V = TypeView;

    open spec fn view(&self) -> TypeView {
        TypeView { is_option: self.is_option, path: self.path@ }
    }
}

impl View for Field {
    type V = FieldView;

    open spec fn view(&self) -> FieldView {
        FieldView {
            attributes: self.attributes@.map_values(|a: Attribute| a@),
            vis: self.vis,
            field_name: self.field_name@,
            ty: self.ty@,
        }
    }
}

/// The views of a list of fields, in order.
pub open spec fn fields_view(fields: Seq<Field>) -> Seq<FieldView> {
    fields.map_values(|f: Field| f@)
}

impl View for Struct {
    type V = StructView;

    open spec fn view(&self) -> StructView {
        StructView { name: self.name@, fields: fields_view(self.fields@) }
    }
}

impl View for Data {
    type V = DataView;

    open spec fn view(&self) -> DataView {
        match self {
            Data::Struct(record) => DataView::Struct(record@),
            Data::Enum(_) => DataView::Enum,
            Data::Union(_) => DataView::Union,
        }
    }
}

} // verus!
