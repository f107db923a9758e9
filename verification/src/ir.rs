//! What is emitted, before it is printed: the methods of a C++ class with
//! their bodies as statements, and the glue declarations.

use vstd::prelude::*;
use crate::model::{
    field_views, property_views, type_ref_opt, Field, FieldView, Marshal, PropertyDecl,
    PropertyDeclView, TypeRef, TypeRefView,
};

verus! {

/// A value handed on in a call, and how it is handed on.
#[derive(Clone, Debug, PartialEq, Eq)]
pub struct Arg {
    pub name: String,
    pub rule: Marshal,
}

pub struct ArgView {
    pub name: Seq<char>,
    pub rule: Marshal,
}

impl View for Arg {
    type V = ArgView;

    open spec fn view(&self) -> ArgView {
        ArgView { name: self.name@, rule: self.rule }
    }
}

pub open spec fn arg_views(args: Seq<Arg>) -> Seq<ArgView> {
    args.map_values(|a: Arg| a@)
}

/// One statement of a generated method.
#[derive(Clone, Debug, PartialEq, Eq)]
pub enum Stmt {
    /// Returns the field that holds a property.
    Load { field: String },
    /// Stores the value in the field that holds a property.
    Store { field: String, value: Arg },
    /// Emits a signal of the class itself.
    Emit { signal: String, args: Vec<Arg> },
    /// Calls a method that the base class declares.
    CallBase { method: String, args: Vec<Arg> },
    /// Calls the Rust side through the glue, and hands its result back if
    /// `yields` is set.
    Forward { function: String, args: Vec<Arg>, yields: bool },
}

pub enum StmtView {
    Load { field: Seq<char> },
    Store { field: Seq<char>, value: ArgView },
    Emit { signal: Seq<char>, args: Seq<ArgView> },
    CallBase { method: Seq<char>, args: Seq<ArgView> },
    Forward { function: Seq<char>, args: Seq<ArgView>, yields: bool },
}

impl View for Stmt {
    type V = StmtView;

    open spec fn view(&self) -> StmtView {
        match *self {
            Stmt::Load { field } => StmtView::Load { field: field@ },
            Stmt::Store { field, value } => StmtView::Store { field: field@, value: value@ },
            Stmt::Emit { signal, args } => StmtView::Emit {
                signal: signal@,
                args: arg_views(args@),
            },
            Stmt::CallBase { method, args } => StmtView::CallBase {
                method: method@,
                args: arg_views(args@),
            },
            Stmt::Forward { function, args, yields } => StmtView::Forward {
                function: function@,
                args: arg_views(args@),
                yields,
            },
        }
    }
}

pub open spec fn stmt_views(body: Seq<Stmt>) -> Seq<StmtView> {
    body.map_values(|s: Stmt| s@)
}

pub open spec fn body_view(body: Option<Vec<Stmt>>) -> Option<Seq<StmtView>> {
    match body {
        Some(b) => Some(stmt_views(b@)),
        None => None,
    }
}

/// What Qt's meta-object compiler is told of a method.
#[derive(Clone, Copy, Debug, PartialEq, Eq, Structural)]
pub enum Role {
    Plain,
    Slot,
    Signal,
    Invokable,
}

/// A method of a generated class. A signal has no body: Qt writes it.
#[derive(Clone, Debug, PartialEq, Eq)]
pub struct Method {
    pub role: Role,
    pub name: String,
    pub params: Vec<Field>,
    /// `None` for `void`.
    pub ret: Option<TypeRef>,
    pub is_const: bool,
    pub body: Option<Vec<Stmt>>,
}

pub struct MethodView {
    pub role: Role,
    pub name: Seq<char>,
    pub params: Seq<FieldView>,
    pub ret: Option<TypeRefView>,
    pub is_const: bool,
    pub body: Option<Seq<StmtView>>,
}

impl View for Method {
    type V = MethodView;

    open spec fn view(&self) -> MethodView {
        MethodView {
            role: self.role,
            name: self.name@,
            params: field_views(self.params@),
            ret: type_ref_opt(self.ret),
            is_const: self.is_const,
            body: body_view(self.body),
        }
    }
}

pub open spec fn method_views(methods: Seq<Method>) -> Seq<MethodView> {
    methods.map_values(|m: Method| m@)
}

/// A generated class.
#[derive(Clone, Debug, PartialEq, Eq)]
pub struct Class {
    pub name: String,
    pub base: String,
    pub namespace: String,
    pub properties: Vec<PropertyDecl>,
    pub methods: Vec<Method>,
}

pub struct ClassView {
    pub name: Seq<char>,
    pub base: Seq<char>,
    pub namespace: Seq<char>,
    pub properties: Seq<PropertyDeclView>,
    pub methods: Seq<MethodView>,
}

impl View for Class {
    type V = ClassView;

    open spec fn view(&self) -> ClassView {
        ClassView {
            name: self.name@,
            base: self.base@,
            namespace: self.namespace@,
            properties: property_views(self.properties@),
            methods: method_views(self.methods@),
        }
    }
}

pub open spec fn class_views(classes: Seq<Class>) -> Seq<ClassView> {
    classes.map_values(|c: Class| c@)
}

/// One function that both sides of the boundary compile against.
#[derive(Clone, Debug, PartialEq, Eq)]
pub struct GlueDecl {
    /// The object that the function belongs to.
    pub owner: String,
    pub name: String,
    pub params: Vec<Field>,
    pub ret: Option<TypeRef>,
}

pub struct GlueDeclView {
    pub owner: Seq<char>,
    pub name: Seq<char>,
    pub params: Seq<FieldView>,
    pub ret: Option<TypeRefView>,
}

impl View for GlueDecl {
    type V = GlueDeclView;

    open spec fn view(&self) -> GlueDeclView {
        GlueDeclView {
            owner: self.owner@,
            name: self.name@,
            params: field_views(self.params@),
            ret: type_ref_opt(self.ret),
        }
    }
}

pub open spec fn glue_views(decls: Seq<GlueDecl>) -> Seq<GlueDeclView> {
    decls.map_values(|g: GlueDecl| g@)
}

} // verus!
