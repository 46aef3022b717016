//! What a module declares at its boundary, as plain values: the kinds of its
//! values, the signatures of its functions and the items it imports.

use vstd::prelude::*;

verus! {

/// The kind of a value that crosses the boundary of a module.
#[derive(Clone, Copy, Debug, PartialEq, Eq, Structural)]
pub enum ValueKind {
    I32,
    I64,
    F32,
    F64,
    V128,
    /// A reference of any type.
    Ref,
}

/// A function signature as a mathematical value.
pub struct SignatureView {
    pub params: Seq<ValueKind>,
    pub results: Seq<ValueKind>,
}

/// The kinds of a function's parameters and of its results, in order.
#[derive(Debug, PartialEq, Eq)]
pub struct Signature {
    pub params: Vec<ValueKind>,
    pub results: Vec<ValueKind>,
}

impl View for Signature {
    type V = SignatureView;

    open spec fn view(&self) -> SignatureView {
        SignatureView { params: self.params@, results: self.results@ }
    }
}

/// The shape of an importable or exportable item as a mathematical value.
pub enum ItemShapeView {
    Func(SignatureView),
    Global,
    Table,
    Memory,
    Tag,
}

/// The shape of an item that a module imports or exports. Of a function the
/// signature is kept; of the others only what they are.
#[derive(Debug, PartialEq, Eq)]
pub enum ItemShape {
    Func(Signature),
    Global,
    Table,
    Memory,
    Tag,
}

impl View for ItemShape {
    type V = ItemShapeView;

    open spec fn view(&self) -> ItemShapeView {
        match self {
            ItemShape::Func(s) => ItemShapeView::Func(s@),
            ItemShape::Global => ItemShapeView::Global,
            ItemShape::Table => ItemShapeView::Table,
            ItemShape::Memory => ItemShapeView::Memory,
            ItemShape::Tag => ItemShapeView::Tag,
        }
    }
}

/// An import declaration as a mathematical value.
pub struct ImportView {
    pub namespace: Seq<char>,
    pub name: Seq<char>,
    pub item: ItemShapeView,
}

/// One import that a module declares: where the item is expected to come
/// from, under which name, and its shape.
#[derive(Debug, PartialEq, Eq)]
pub struct ImportDecl {
    pub namespace: String,
    pub name: String,
    pub item: ItemShape,
}

impl View for ImportDecl {
    type V = ImportView;

    open spec fn view(&self) -> ImportView {
        ImportView { namespace: self.namespace@, name: self.name@, item: self.item@ }
    }
}

/// The declarations of a list, each as a mathematical value.
pub open spec fn import_views(imports: Seq<ImportDecl>) -> Seq<ImportView> {
    imports.map_values(|d: ImportDecl| d@)
}

} // verus!
