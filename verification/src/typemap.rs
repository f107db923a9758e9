//! The type mapping: from a type as it is declared to its category, its two
//! spellings and the rule by which its values cross the boundary.
//!
//! The C++ spelling is the override where the declaration gives one. Without
//! one it is built from the C++ name of the named type: the catalogue's, else
//! the primitive's. The shape of the declaration decides the category; for a
//! plainly named type of the catalogue, the catalogue's rule does.

use vstd::prelude::*;
use vstd::string::*;
use crate::catalogue::{lookup, primitive, primitive_native, Catalogue, EntryView};
use crate::decl::{text_opt, TypeExpr, TypeExprView, TypeShape};
use crate::diag::DiagKind;
use crate::model::{category_of, marshal_rule, rule_of, Category, Marshal, TypeRef, TypeRefView};

verus! {

pub open spec fn const_ref(t: Seq<char>) -> Seq<char> {
    "const "@ + t + "&"@
}

pub open spec fn unique_ptr(t: Seq<char>) -> Seq<char> {
    "::std::unique_ptr<"@ + t + ">"@
}

/// The C++ name of a named type: the catalogue's, else the primitive's, else
/// the name itself, which then stands for a type that only C++ knows.
pub open spec fn inner_native(cat: Seq<EntryView>, name: Seq<char>) -> Seq<char> {
    match lookup(cat, name) {
        Some(e) => e.native,
        None => match primitive_native(name) {
            Some(p) => p,
            None => name,
        },
    }
}

/// The type as Rust writes it.
pub open spec fn source_text(ty: TypeExprView) -> Seq<char> {
    match ty.shape {
        TypeShape::Plain => ty.name,
        TypeShape::Borrowed => "&"@ + ty.name,
        TypeShape::Owned => "UniquePtr<"@ + ty.name + ">"@,
    }
}

/// The C++ spelling for a category, around the C++ name of the named type.
pub open spec fn wrapped_native(category: Category, inner: Seq<char>) -> Seq<char> {
    match category {
        Category::Primitive => inner,
        Category::Wrapped => inner,
        Category::Reference => const_ref(inner),
        Category::OwnedPointer => unique_ptr(inner),
    }
}

/// The error that the declaration meets, if any.
pub open spec fn type_error(cat: Seq<EntryView>, ty: TypeExprView, over: Option<Seq<char>>)
    -> Option<DiagKind> {
    let known = lookup(cat, ty.name);
    match ty.shape {
        TypeShape::Borrowed => if known.is_some() && known.unwrap().rule == Marshal::Transfer {
            Some(DiagKind::BorrowOfOwned)
        } else {
            None
        },
        TypeShape::Owned => if known.is_some() && known.unwrap().rule == Marshal::Borrow {
            Some(DiagKind::OwnedOfBorrowed)
        } else {
            None
        },
        TypeShape::Plain => if over.is_none() && known.is_none() && primitive_native(
            ty.name,
        ).is_none() {
            Some(DiagKind::UnsupportedType)
        } else {
            None
        },
    }
}

/// The category of a declaration that meets no error.
pub open spec fn category_for(cat: Seq<EntryView>, ty: TypeExprView) -> Category {
    match ty.shape {
        TypeShape::Borrowed => Category::Reference,
        TypeShape::Owned => Category::OwnedPointer,
        TypeShape::Plain => match lookup(cat, ty.name) {
            Some(e) => category_of(e.rule),
            None => if primitive_native(ty.name).is_some() {
                Category::Primitive
            } else {
                Category::Wrapped
            },
        },
    }
}

/// The resolved type of a declaration that meets no error.
pub open spec fn type_of(cat: Seq<EntryView>, ty: TypeExprView, over: Option<Seq<char>>)
    -> TypeRefView {
    let category = category_for(cat, ty);
    TypeRefView {
        category,
        source: source_text(ty),
        native: match over {
            Some(o) => o,
            None => wrapped_native(category, inner_native(cat, ty.name)),
        },
        marshal: rule_of(category),
    }
}

/// What a declared type resolves to: its resolved type, or the error it meets.
pub open spec fn resolved(cat: Seq<EntryView>, ty: TypeExprView, over: Option<Seq<char>>)
    -> Result<TypeRefView, DiagKind> {
    match type_error(cat, ty, over) {
        Some(kind) => Err(kind),
        None => Ok(type_of(cat, ty, over)),
    }
}

fn source_of(ty: &TypeExpr) -> (out: String)
    ensures
        out@ == source_text(ty@),
{
    match ty.shape {
        TypeShape::Plain => ty.name.clone(),
        TypeShape::Borrowed => {
            let mut out = String::from_str("&");
            out.append(ty.name.as_str());
            out
        },
        TypeShape::Owned => {
            let mut out = String::from_str("UniquePtr<");
            out.append(ty.name.as_str());
            out.append(">");
            out
        },
    }
}

fn native_of(category: Category, inner: &str) -> (out: String)
    ensures
        out@ == wrapped_native(category, inner@),
{
    match category {
        Category::Primitive => String::from_str(inner),
        Category::Wrapped => String::from_str(inner),
        Category::Reference => {
            let mut out = String::from_str("const ");
            out.append(inner);
            out.append("&");
            out
        },
        Category::OwnedPointer => {
            let mut out = String::from_str("::std::unique_ptr<");
            out.append(inner);
            out.append(">");
            out
        },
    }
}

/// Resolves a declared type against the catalogue.
///
/// A reference to a type that the catalogue hands over, and an owning pointer
/// to one that it lends, are errors; so is a plainly named type that is
/// neither in the catalogue nor a primitive and has no override.
pub fn resolve(cat: &Catalogue, ty: &TypeExpr, over: &Option<String>) -> (res: Result<
    TypeRef,
    DiagKind,
>)
    ensures
        match res {
            Ok(t) => resolved(cat@, ty@, text_opt(*over)) == Ok::<TypeRefView, DiagKind>(t@),
            Err(k) => resolved(cat@, ty@, text_opt(*over)) == Err::<TypeRefView, DiagKind>(k),
        },
{
    let known = cat.find(ty.name.as_str());
    let prim = primitive(ty.name.as_str());
    let category = match ty.shape {
        TypeShape::Borrowed => {
            if let Some(e) = known {
                if let Marshal::Transfer = e.rule {
                    return Err(DiagKind::BorrowOfOwned);
                }
            }
            Category::Reference
        },
        TypeShape::Owned => {
            if let Some(e) = known {
                if let Marshal::Borrow = e.rule {
                    return Err(DiagKind::OwnedOfBorrowed);
                }
            }
            Category::OwnedPointer
        },
        TypeShape::Plain => match known {
            Some(e) => match e.rule {
                Marshal::Copy => Category::Wrapped,
                Marshal::Borrow => Category::Reference,
                Marshal::Transfer => Category::OwnedPointer,
            },
            None => if prim.is_some() {
                Category::Primitive
            } else if over.is_some() {
                Category::Wrapped
            } else {
                return Err(DiagKind::UnsupportedType);
            },
        },
    };
    let native = match over {
        Some(o) => o.clone(),
        None => match known {
            Some(e) => native_of(category, e.native.as_str()),
            None => match prim {
                Some(p) => native_of(category, p.as_str()),
                None => native_of(category, ty.name.as_str()),
            },
        },
    };
    Ok(TypeRef { category, source: source_of(ty), native, marshal: marshal_rule(category) })
}

} // verus!
