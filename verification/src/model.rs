//! The typed model of one module: every name decided, every type resolved.
//! It is built once and only read afterwards.

use vstd::prelude::*;
use crate::decl::{text_opt, Receiver};

verus! {

/// What kind of value crosses the boundary.
#[derive(Clone, Copy, Debug, PartialEq, Eq, Structural)]
pub enum Category {
    /// A plain value of the language, such as an integer.
    Primitive,
    /// A value type of Qt that the catalogue knows.
    Wrapped,
    /// Borrowed, never owned by the receiver.
    Reference,
    /// Owned by one side at a time.
    OwnedPointer,
}

/// How a value crosses the boundary.
#[derive(Clone, Copy, Debug, PartialEq, Eq, Structural)]
pub enum Marshal {
    Copy,
    Borrow,
    Transfer,
}

/// The one rule that belongs to a category.
pub open spec fn rule_of(category: Category) -> Marshal {
    match category {
        Category::Primitive => Marshal::Copy,
        Category::Wrapped => Marshal::Copy,
        Category::Reference => Marshal::Borrow,
        Category::OwnedPointer => Marshal::Transfer,
    }
}

/// The category that a catalogue entry with the given rule puts a type in.
pub open spec fn category_of(rule: Marshal) -> Category {
    match rule {
        Marshal::Copy => Category::Wrapped,
        Marshal::Borrow => Category::Reference,
        Marshal::Transfer => Category::OwnedPointer,
    }
}

/// The rule of a category.
pub fn marshal_rule(category: Category) -> (rule: Marshal)
    ensures
        rule == rule_of(category),
{
    match category {
        Category::Primitive => Marshal::Copy,
        Category::Wrapped => Marshal::Copy,
        Category::Reference => Marshal::Borrow,
        Category::OwnedPointer => Marshal::Transfer,
    }
}

/// A resolved type.
#[derive(Clone, Debug, PartialEq, Eq)]
pub struct TypeRef {
    pub category: Category,
    /// The type as Rust writes it.
    pub source: String,
    /// The type as C++ writes it.
    pub native: String,
    pub marshal: Marshal,
}

pub struct TypeRefView {
    pub category: Category,
    pub source: Seq<char>,
    pub native: Seq<char>,
    pub marshal: Marshal,
}

impl View for TypeRef {
    type V = TypeRefView;

    open spec fn view(&self) -> TypeRefView {
        TypeRefView {
            category: self.category,
            source: self.source@,
            native: self.native@,
            marshal: self.marshal,
        }
    }
}

impl TypeRefView {
    /// The rule is the one of the category.
    pub open spec fn wf(self) -> bool {
        self.marshal == rule_of(self.category)
    }
}

pub open spec fn type_ref_opt(t: Option<TypeRef>) -> Option<TypeRefView> {
    match t {
        Some(r) => Some(r@),
        None => None,
    }
}

/// A field of a signal or a parameter of an invokable, with its type resolved.
#[derive(Clone, Debug, PartialEq, Eq)]
pub struct Field {
    pub name: String,
    pub ty: TypeRef,
}

pub struct FieldView {
    pub name: Seq<char>,
    pub ty: TypeRefView,
}

impl View for Field {
    type V = FieldView;

    open spec fn view(&self) -> FieldView {
        FieldView { name: self.name@, ty: self.ty@ }
    }
}

pub open spec fn field_views(fields: Seq<Field>) -> Seq<FieldView> {
    fields.map_values(|f: Field| f@)
}

/// Whether the class declares the signal or its base class does.
#[derive(Clone, Copy, Debug, PartialEq, Eq, Structural)]
pub enum SignalKind {
    /// The class declares a new signal.
    Define,
    /// The base class has the signal; the class only calls it.
    Delegate,
}

#[derive(Clone, Debug, PartialEq, Eq)]
pub struct SignalVariant {
    pub name: String,
    /// The name of the signal in C++.
    pub native_name: String,
    /// The name of the method that emits it.
    pub emitter: String,
    pub fields: Vec<Field>,
    pub kind: SignalKind,
}

pub struct SignalVariantView {
    pub name: Seq<char>,
    pub native_name: Seq<char>,
    pub emitter: Seq<char>,
    pub fields: Seq<FieldView>,
    pub kind: SignalKind,
}

impl View for SignalVariant {
    type V = SignalVariantView;

    open spec fn view(&self) -> SignalVariantView {
        SignalVariantView {
            name: self.name@,
            native_name: self.native_name@,
            emitter: self.emitter@,
            fields: field_views(self.fields@),
            kind: self.kind,
        }
    }
}

#[derive(Clone, Debug, PartialEq, Eq)]
pub struct SignalsDecl {
    pub name: String,
    pub object: String,
    /// The namespace of the object, which the signals share.
    pub namespace: String,
    pub variants: Vec<SignalVariant>,
}

pub struct SignalsDeclView {
    pub name: Seq<char>,
    pub object: Seq<char>,
    pub namespace: Seq<char>,
    pub variants: Seq<SignalVariantView>,
}

impl View for SignalsDecl {
    type V = SignalsDeclView;

    open spec fn view(&self) -> SignalsDeclView {
        SignalsDeclView {
            name: self.name@,
            object: self.object@,
            namespace: self.namespace@,
            variants: variant_views(self.variants@),
        }
    }
}

#[derive(Clone, Debug, PartialEq, Eq)]
pub struct PropertyDecl {
    pub name: String,
    pub ty: TypeRef,
    pub getter: String,
    pub setter: String,
    pub notify: String,
}

pub struct PropertyDeclView {
    pub name: Seq<char>,
    pub ty: TypeRefView,
    pub getter: Seq<char>,
    pub setter: Seq<char>,
    pub notify: Seq<char>,
}

impl View for PropertyDecl {
    type V = PropertyDeclView;

    open spec fn view(&self) -> PropertyDeclView {
        PropertyDeclView {
            name: self.name@,
            ty: self.ty@,
            getter: self.getter@,
            setter: self.setter@,
            notify: self.notify@,
        }
    }
}

#[derive(Clone, Debug, PartialEq, Eq)]
pub struct InvokableDecl {
    pub name: String,
    pub receiver: Receiver,
    pub params: Vec<Field>,
    pub ret: Option<TypeRef>,
    /// Whether the method may change the object.
    pub mutates: bool,
    /// Whether the C++ method is `const`.
    pub is_const: bool,
}

pub struct InvokableDeclView {
    pub name: Seq<char>,
    pub receiver: Receiver,
    pub params: Seq<FieldView>,
    pub ret: Option<TypeRefView>,
    pub mutates: bool,
    pub is_const: bool,
}

impl View for InvokableDecl {
    type V = InvokableDeclView;

    open spec fn view(&self) -> InvokableDeclView {
        InvokableDeclView {
            name: self.name@,
            receiver: self.receiver,
            params: field_views(self.params@),
            ret: type_ref_opt(self.ret),
            mutates: self.mutates,
            is_const: self.is_const,
        }
    }
}

/// How an object comes into being on the Rust side.
#[derive(Clone, Copy, Debug, PartialEq, Eq, Structural)]
pub enum Construction {
    /// From `Default`.
    Default,
    /// By a constructor that the module provides.
    Provided,
}

#[derive(Clone, Debug, PartialEq, Eq)]
pub struct ObjectDecl {
    pub name: String,
    pub base: Option<String>,
    pub namespace: String,
    pub properties: Vec<PropertyDecl>,
    pub invokables: Vec<InvokableDecl>,
    pub construction: Construction,
}

pub struct ObjectDeclView {
    pub name: Seq<char>,
    pub base: Option<Seq<char>>,
    pub namespace: Seq<char>,
    pub properties: Seq<PropertyDeclView>,
    pub invokables: Seq<InvokableDeclView>,
    pub construction: Construction,
}

impl View for ObjectDecl {
    type V = ObjectDeclView;

    open spec fn view(&self) -> ObjectDeclView {
        ObjectDeclView {
            name: self.name@,
            base: text_opt(self.base),
            namespace: self.namespace@,
            properties: property_views(self.properties@),
            invokables: invokable_views(self.invokables@),
            construction: self.construction,
        }
    }
}

#[derive(Clone, Debug, PartialEq, Eq)]
pub struct BridgeModule {
    pub namespace: String,
    pub objects: Vec<ObjectDecl>,
    pub signals: Vec<SignalsDecl>,
}

pub struct BridgeModuleView {
    pub namespace: Seq<char>,
    pub objects: Seq<ObjectDeclView>,
    pub signals: Seq<SignalsDeclView>,
}

impl View for BridgeModule {
    type V = BridgeModuleView;

    open spec fn view(&self) -> BridgeModuleView {
        BridgeModuleView {
            namespace: self.namespace@,
            objects: object_views(self.objects@),
            signals: signals_views(self.signals@),
        }
    }
}

pub open spec fn variant_views(variants: Seq<SignalVariant>) -> Seq<SignalVariantView> {
    variants.map_values(|v: SignalVariant| v@)
}

pub open spec fn property_views(properties: Seq<PropertyDecl>) -> Seq<PropertyDeclView> {
    properties.map_values(|p: PropertyDecl| p@)
}

pub open spec fn invokable_views(invokables: Seq<InvokableDecl>) -> Seq<InvokableDeclView> {
    invokables.map_values(|m: InvokableDecl| m@)
}

pub open spec fn object_views(objects: Seq<ObjectDecl>) -> Seq<ObjectDeclView> {
    objects.map_values(|o: ObjectDecl| o@)
}

pub open spec fn signals_views(signals: Seq<SignalsDecl>) -> Seq<SignalsDeclView> {
    signals.map_values(|s: SignalsDecl| s@)
}

} // verus!
