//! The declarations of one module as they were written, before anything is
//! resolved. This is what the compiler takes in.

use vstd::prelude::*;
use crate::diag::Pos;

verus! {

/// How a type is written at a field, a parameter or a return.
#[derive(Clone, Copy, Debug, PartialEq, Eq, Structural)]
pub enum TypeShape {
    /// `T`
    Plain,
    /// `&'a T`
    Borrowed,
    /// `UniquePtr<T>`
    Owned,
}

/// How an invokable takes `self`.
#[derive(Clone, Copy, Debug, PartialEq, Eq, Structural)]
pub enum Receiver {
    /// `self`
    Value,
    /// `&self`
    Shared,
    /// `self: Pin<&mut Self>`
    Exclusive,
}

#[derive(Clone, Debug, PartialEq, Eq)]
pub struct TypeExpr {
    pub shape: TypeShape,
    /// The named type, without the reference or the pointer around it.
    pub name: String,
}

pub struct TypeExprView {
    pub shape: TypeShape,
    pub name: Seq<char>,
}

impl View for TypeExpr {
    type V = TypeExprView;

    open spec fn view(&self) -> TypeExprView {
        TypeExprView { shape: self.shape, name: self.name@ }
    }
}

pub open spec fn text_opt(t: Option<String>) -> Option<Seq<char>> {
    match t {
        Some(s) => Some(s@),
        None => None,
    }
}

pub open spec fn type_opt(t: Option<TypeExpr>) -> Option<TypeExprView> {
    match t {
        Some(e) => Some(e@),
        None => None,
    }
}

/// A field of a signal variant, or a parameter of an invokable.
#[derive(Clone, Debug, PartialEq, Eq)]
pub struct RawField {
    pub name: String,
    pub ty: TypeExpr,
    /// The C++ type given with `cxx_type`, if any.
    pub cxx_type: Option<String>,
    pub pos: Pos,
}

pub struct RawFieldView {
    pub name: Seq<char>,
    pub ty: TypeExprView,
    pub cxx_type: Option<Seq<char>>,
    pub pos: Pos,
}

impl View for RawField {
    type V = RawFieldView;

    open spec fn view(&self) -> RawFieldView {
        RawFieldView {
            name: self.name@,
            ty: self.ty@,
            cxx_type: text_opt(self.cxx_type),
            pos: self.pos,
        }
    }
}

pub open spec fn fields_view(fields: Seq<RawField>) -> Seq<RawFieldView> {
    fields.map_values(|f: RawField| f@)
}

/// One case of a signal enumeration.
#[derive(Clone, Debug, PartialEq, Eq)]
pub struct RawVariant {
    pub name: String,
    pub fields: Vec<RawField>,
    /// The C++ name given with `cxx_name`, if any.
    pub cxx_name: Option<String>,
    /// Whether the base class already declares the signal.
    pub inherit: bool,
    pub pos: Pos,
}

pub struct RawVariantView {
    pub name: Seq<char>,
    pub fields: Seq<RawFieldView>,
    pub cxx_name: Option<Seq<char>>,
    pub inherit: bool,
    pub pos: Pos,
}

impl View for RawVariant {
    type V = RawVariantView;

    open spec fn view(&self) -> RawVariantView {
        RawVariantView {
            name: self.name@,
            fields: fields_view(self.fields@),
            cxx_name: text_opt(self.cxx_name),
            inherit: self.inherit,
            pos: self.pos,
        }
    }
}

/// A signal enumeration and the object that it belongs to.
#[derive(Clone, Debug, PartialEq, Eq)]
pub struct RawSignals {
    pub name: String,
    pub object: String,
    pub variants: Vec<RawVariant>,
    pub pos: Pos,
}

pub struct RawSignalsView {
    pub name: Seq<char>,
    pub object: Seq<char>,
    pub variants: Seq<RawVariantView>,
    pub pos: Pos,
}

impl View for RawSignals {
    type V = RawSignalsView;

    open spec fn view(&self) -> RawSignalsView {
        RawSignalsView {
            name: self.name@,
            object: self.object@,
            variants: variants_view(self.variants@),
            pos: self.pos,
        }
    }
}

#[derive(Clone, Debug, PartialEq, Eq)]
pub struct RawProperty {
    pub name: String,
    /// `None` where the declaration gives no type.
    pub ty: Option<TypeExpr>,
    pub cxx_type: Option<String>,
    pub pos: Pos,
}

pub struct RawPropertyView {
    pub name: Seq<char>,
    pub ty: Option<TypeExprView>,
    pub cxx_type: Option<Seq<char>>,
    pub pos: Pos,
}

impl View for RawProperty {
    type V = RawPropertyView;

    open spec fn view(&self) -> RawPropertyView {
        RawPropertyView {
            name: self.name@,
            ty: type_opt(self.ty),
            cxx_type: text_opt(self.cxx_type),
            pos: self.pos,
        }
    }
}

#[derive(Clone, Debug, PartialEq, Eq)]
pub struct RawInvokable {
    pub name: String,
    /// `None` where `self` is taken in a form that is not accepted.
    pub receiver: Option<Receiver>,
    pub params: Vec<RawField>,
    pub ret: Option<TypeExpr>,
    pub pos: Pos,
}

pub struct RawInvokableView {
    pub name: Seq<char>,
    pub receiver: Option<Receiver>,
    pub params: Seq<RawFieldView>,
    pub ret: Option<TypeExprView>,
    pub pos: Pos,
}

impl View for RawInvokable {
    type V = RawInvokableView;

    open spec fn view(&self) -> RawInvokableView {
        RawInvokableView {
            name: self.name@,
            receiver: self.receiver,
            params: fields_view(self.params@),
            ret: type_opt(self.ret),
            pos: self.pos,
        }
    }
}

#[derive(Clone, Debug, PartialEq, Eq)]
pub struct RawObject {
    pub name: String,
    /// The base class, where the object names one; else it is `QObject`.
    pub base: Option<String>,
    /// A namespace of its own, in place of the module's.
    pub namespace: Option<String>,
    pub properties: Vec<RawProperty>,
    pub invokables: Vec<RawInvokable>,
    /// Whether the object is built from `Default`.
    pub default_constructed: bool,
    pub pos: Pos,
}

pub struct RawObjectView {
    pub name: Seq<char>,
    pub base: Option<Seq<char>>,
    pub namespace: Option<Seq<char>>,
    pub properties: Seq<RawPropertyView>,
    pub invokables: Seq<RawInvokableView>,
    pub default_constructed: bool,
    pub pos: Pos,
}

impl View for RawObject {
    type V = RawObjectView;

    open spec fn view(&self) -> RawObjectView {
        RawObjectView {
            name: self.name@,
            base: text_opt(self.base),
            namespace: text_opt(self.namespace),
            properties: properties_view(self.properties@),
            invokables: invokables_view(self.invokables@),
            default_constructed: self.default_constructed,
            pos: self.pos,
        }
    }
}

/// One module: the unit of compilation.
#[derive(Clone, Debug, PartialEq, Eq)]
pub struct RawModule {
    pub namespace: String,
    pub objects: Vec<RawObject>,
    pub signals: Vec<RawSignals>,
}

pub struct RawModuleView {
    pub namespace: Seq<char>,
    pub objects: Seq<RawObjectView>,
    pub signals: Seq<RawSignalsView>,
}

impl View for RawModule {
    type V = RawModuleView;

    open spec fn view(&self) -> RawModuleView {
        RawModuleView {
            namespace: self.namespace@,
            objects: objects_view(self.objects@),
            signals: signals_view(self.signals@),
        }
    }
}

pub open spec fn variants_view(variants: Seq<RawVariant>) -> Seq<RawVariantView> {
    variants.map_values(|v: RawVariant| v@)
}

pub open spec fn properties_view(properties: Seq<RawProperty>) -> Seq<RawPropertyView> {
    properties.map_values(|p: RawProperty| p@)
}

pub open spec fn invokables_view(invokables: Seq<RawInvokable>) -> Seq<RawInvokableView> {
    invokables.map_values(|m: RawInvokable| m@)
}

pub open spec fn objects_view(objects: Seq<RawObject>) -> Seq<RawObjectView> {
    objects.map_values(|o: RawObject| o@)
}

pub open spec fn signals_view(signals: Seq<RawSignals>) -> Seq<RawSignalsView> {
    signals.map_values(|s: RawSignals| s@)
}

} // verus!
