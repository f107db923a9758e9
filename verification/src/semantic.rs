//! The semantic rules of a module, stated as functions: which object a set of
//! signals belongs to, which names each member claims, which errors the
//! module holds, and the typed model that a module without errors stands for.

use vstd::prelude::*;
use crate::catalogue::EntryView;
use crate::decl::{
    RawFieldView, RawInvokableView, RawModuleView, RawObjectView, RawPropertyView,
    RawSignalsView, RawVariantView, Receiver, TypeExprView,
};
use crate::diag::{diag, only_if, DiagKind, Diagnostic, Pos};
use crate::model::{
    BridgeModuleView, Construction, FieldView, InvokableDeclView, ObjectDeclView,
    PropertyDeclView, SignalKind, SignalVariantView, SignalsDeclView, TypeRefView,
};
use crate::names::{emitter_name, getter_name, native_signal_name, notify_name, setter_name};
use crate::text::is_ident;
use crate::typemap::{type_error, type_of};
use crate::validate::structure_faults;

verus! {

/// The index of the first object at or after `from` with the given name.
pub open spec fn object_position(objects: Seq<RawObjectView>, name: Seq<char>, from: int)
    -> Option<int>
    decreases objects.len() - from,
{
    if from < 0 || from >= objects.len() {
        None
    } else if objects[from].name == name {
        Some(from)
    } else {
        object_position(objects, name, from + 1)
    }
}

/// The index of the first set of signals at or after `from` that names the
/// given object.
pub open spec fn signals_position(signals: Seq<RawSignalsView>, object: Seq<char>, from: int)
    -> Option<int>
    decreases signals.len() - from,
{
    if from < 0 || from >= signals.len() {
        None
    } else if signals[from].object == object {
        Some(from)
    } else {
        signals_position(signals, object, from + 1)
    }
}

/// The names of the first `n` invokables.
pub open spec fn invokable_names(invokables: Seq<RawInvokableView>, n: int) -> Seq<Seq<char>>
    decreases n,
{
    if n <= 0 {
        Seq::empty()
    } else {
        invokable_names(invokables, n - 1).push(invokables[n - 1].name)
    }
}

/// A signal claims its own name and that of its emitter.
pub open spec fn variant_claims(v: RawVariantView) -> Seq<Seq<char>> {
    seq![native_signal_name(v), emitter_name(native_signal_name(v))]
}

pub open spec fn variants_claims(variants: Seq<RawVariantView>, n: int) -> Seq<Seq<char>>
    decreases n,
{
    if n <= 0 {
        Seq::empty()
    } else {
        variants_claims(variants, n - 1) + variant_claims(variants[n - 1])
    }
}

/// A property claims its own name and those of its getter, its setter and its
/// change signal.
pub open spec fn property_claims(p: RawPropertyView) -> Seq<Seq<char>> {
    seq![p.name, getter_name(p.name), setter_name(p.name), notify_name(p.name)]
}

pub open spec fn properties_claims(properties: Seq<RawPropertyView>, n: int) -> Seq<Seq<char>>
    decreases n,
{
    if n <= 0 {
        Seq::empty()
    } else {
        properties_claims(properties, n - 1) + property_claims(properties[n - 1])
    }
}

pub open spec fn variant_collides(taken: Seq<Seq<char>>, v: RawVariantView) -> bool {
    taken.contains(native_signal_name(v)) || taken.contains(emitter_name(native_signal_name(v)))
}

pub open spec fn property_collides(taken: Seq<Seq<char>>, p: RawPropertyView) -> bool {
    taken.contains(p.name) || taken.contains(getter_name(p.name)) || taken.contains(
        setter_name(p.name),
    ) || taken.contains(notify_name(p.name))
}

/// Whether variant `j` has a rename that an earlier variant has too.
pub open spec fn rename_repeated(variants: Seq<RawVariantView>, j: int) -> bool {
    variants[j].cxx_name.is_some() && exists|i: int|
        0 <= i < j && (#[trigger] variants[i]).cxx_name == variants[j].cxx_name
}

/// The names that the signals of an object claim: those of the first set of
/// signals that names it.
pub open spec fn signal_claims_of(signals: Seq<RawSignalsView>, object: Seq<char>) -> Seq<
    Seq<char>,
> {
    match signals_position(signals, object, 0) {
        Some(k) => variants_claims(signals[k].variants, signals[k].variants.len() as int),
        None => Seq::empty(),
    }
}

/// What is claimed in an object before its properties are looked at.
pub open spec fn taken_before_properties(m: RawModuleView, o: RawObjectView) -> Seq<Seq<char>> {
    invokable_names(o.invokables, o.invokables.len() as int) + signal_claims_of(
        m.signals,
        o.name,
    )
}

pub open spec fn type_errors(
    cat: Seq<EntryView>,
    ty: TypeExprView,
    over: Option<Seq<char>>,
    pos: Pos,
) -> Seq<Diagnostic> {
    match type_error(cat, ty, over) {
        Some(kind) => seq![diag(kind, pos)],
        None => Seq::empty(),
    }
}

pub open spec fn field_errors(cat: Seq<EntryView>, f: RawFieldView) -> Seq<Diagnostic> {
    type_errors(cat, f.ty, f.cxx_type, f.pos)
}

pub open spec fn fields_errors(cat: Seq<EntryView>, fields: Seq<RawFieldView>, n: int) -> Seq<
    Diagnostic,
>
    decreases n,
{
    if n <= 0 {
        Seq::empty()
    } else {
        fields_errors(cat, fields, n - 1) + field_errors(cat, fields[n - 1])
    }
}

pub open spec fn return_errors(cat: Seq<EntryView>, ret: Option<TypeExprView>, pos: Pos) -> Seq<
    Diagnostic,
> {
    match ret {
        Some(t) => type_errors(cat, t, None, pos),
        None => Seq::empty(),
    }
}

/// The errors of an invokable: those of the types of its parameters, then
/// that of its return type.
pub open spec fn invokable_errors(cat: Seq<EntryView>, m: RawInvokableView) -> Seq<Diagnostic> {
    fields_errors(cat, m.params, m.params.len() as int) + return_errors(cat, m.ret, m.pos)
}

pub open spec fn invokables_errors(
    cat: Seq<EntryView>,
    invokables: Seq<RawInvokableView>,
    n: int,
) -> Seq<Diagnostic>
    decreases n,
{
    if n <= 0 {
        Seq::empty()
    } else {
        invokables_errors(cat, invokables, n - 1) + invokable_errors(cat, invokables[n - 1])
    }
}

/// The error of the type of a property. A property without a type has none
/// here: that it lacks a type is a fault of the structure.
pub open spec fn property_type_errors(cat: Seq<EntryView>, p: RawPropertyView) -> Seq<
    Diagnostic,
> {
    match p.ty {
        Some(t) => type_errors(cat, t, p.cxx_type, p.pos),
        None => Seq::empty(),
    }
}

/// The errors of property `j`, where `taken` is what the object's invokables
/// and signals claim.
pub open spec fn property_errors(
    cat: Seq<EntryView>,
    taken: Seq<Seq<char>>,
    properties: Seq<RawPropertyView>,
    j: int,
) -> Seq<Diagnostic> {
    property_type_errors(cat, properties[j]) + only_if(
        property_collides(taken + properties_claims(properties, j), properties[j]),
        DiagKind::PropertyNameCollision,
        properties[j].pos,
    )
}

pub open spec fn properties_errors(
    cat: Seq<EntryView>,
    taken: Seq<Seq<char>>,
    properties: Seq<RawPropertyView>,
    n: int,
) -> Seq<Diagnostic>
    decreases n,
{
    if n <= 0 {
        Seq::empty()
    } else {
        properties_errors(cat, taken, properties, n - 1) + property_errors(
            cat,
            taken,
            properties,
            n - 1,
        )
    }
}

/// The errors of the object at index `i`: its name where an earlier object has
/// it, then those of its invokables, then those of its properties.
pub open spec fn object_errors(cat: Seq<EntryView>, m: RawModuleView, i: int) -> Seq<Diagnostic> {
    let o = m.objects[i];
    only_if(
        object_position(m.objects, o.name, 0) != Some(i),
        DiagKind::DuplicateObject,
        o.pos,
    ) + invokables_errors(cat, o.invokables, o.invokables.len() as int) + properties_errors(
        cat,
        taken_before_properties(m, o),
        o.properties,
        o.properties.len() as int,
    )
}

pub open spec fn objects_errors(cat: Seq<EntryView>, m: RawModuleView, n: int) -> Seq<
    Diagnostic,
>
    decreases n,
{
    if n <= 0 {
        Seq::empty()
    } else {
        objects_errors(cat, m, n - 1) + object_errors(cat, m, n - 1)
    }
}

/// The name error of variant `j`: a repeated rename, else a name that is
/// taken.
pub open spec fn variant_name_errors(
    taken: Seq<Seq<char>>,
    variants: Seq<RawVariantView>,
    j: int,
) -> Seq<Diagnostic> {
    if rename_repeated(variants, j) {
        seq![diag(DiagKind::DuplicateRename, variants[j].pos)]
    } else {
        only_if(
            variant_collides(taken + variants_claims(variants, j), variants[j]),
            DiagKind::SignalNameCollision,
            variants[j].pos,
        )
    }
}

/// The errors of variant `j` of the signals of an object, where `taken` is
/// what the object's invokables claim.
pub open spec fn variant_errors(
    cat: Seq<EntryView>,
    has_base: bool,
    taken: Seq<Seq<char>>,
    variants: Seq<RawVariantView>,
    j: int,
) -> Seq<Diagnostic> {
    only_if(variants[j].inherit && !has_base, DiagKind::InheritWithoutBase, variants[j].pos)
        + variant_name_errors(taken, variants, j) + fields_errors(
        cat,
        variants[j].fields,
        variants[j].fields.len() as int,
    )
}

pub open spec fn variants_errors(
    cat: Seq<EntryView>,
    has_base: bool,
    taken: Seq<Seq<char>>,
    variants: Seq<RawVariantView>,
    n: int,
) -> Seq<Diagnostic>
    decreases n,
{
    if n <= 0 {
        Seq::empty()
    } else {
        variants_errors(cat, has_base, taken, variants, n - 1) + variant_errors(
            cat,
            has_base,
            taken,
            variants,
            n - 1,
        )
    }
}

/// The base class of an object: the one that it names, else `QObject`.
pub open spec fn base_name(o: RawObjectView) -> Seq<char> {
    match o.base {
        Some(b) => b,
        None => "QObject"@,
    }
}

/// Whether the base class of an object resolves. An object that names none
/// has `QObject`, which always does; a name that is written resolves if it is
/// an identifier.
pub open spec fn base_resolves(o: RawObjectView) -> bool {
    match o.base {
        Some(b) => is_ident(b),
        None => true,
    }
}

/// The errors of the set of signals at index `k`.
pub open spec fn signals_errors(cat: Seq<EntryView>, m: RawModuleView, k: int) -> Seq<
    Diagnostic,
> {
    let s = m.signals[k];
    match object_position(m.objects, s.object, 0) {
        None => seq![diag(DiagKind::UnknownObject, s.pos)],
        Some(i) => if signals_position(m.signals, s.object, 0) != Some(k) {
            seq![diag(DiagKind::DuplicateSignals, s.pos)]
        } else {
            variants_errors(
                cat,
                base_resolves(m.objects[i]),
                invokable_names(m.objects[i].invokables, m.objects[i].invokables.len() as int),
                s.variants,
                s.variants.len() as int,
            )
        },
    }
}

pub open spec fn all_signals_errors(cat: Seq<EntryView>, m: RawModuleView, n: int) -> Seq<
    Diagnostic,
>
    decreases n,
{
    if n <= 0 {
        Seq::empty()
    } else {
        all_signals_errors(cat, m, n - 1) + signals_errors(cat, m, n - 1)
    }
}

/// Whether each of the first `n` invokables has a receiver.
pub open spec fn invokables_complete(invokables: Seq<RawInvokableView>, n: int) -> bool {
    forall|j: int| 0 <= j < n ==> (#[trigger] invokables[j]).receiver.is_some()
}

/// Whether each of the first `n` properties has a type.
pub open spec fn properties_complete(properties: Seq<RawPropertyView>, n: int) -> bool {
    forall|j: int| 0 <= j < n ==> (#[trigger] properties[j]).ty.is_some()
}

pub open spec fn object_complete(o: RawObjectView) -> bool {
    invokables_complete(o.invokables, o.invokables.len() as int) && properties_complete(
        o.properties,
        o.properties.len() as int,
    )
}

/// Whether the module holds all that a model is built from: a type for each
/// property and a receiver for each invokable.
pub open spec fn module_complete(m: RawModuleView) -> bool {
    forall|i: int| 0 <= i < m.objects.len() ==> object_complete(#[trigger] m.objects[i])
}

/// Every semantic and type error of the module: those of its objects, then
/// those of its signals.
pub open spec fn semantic_errors(cat: Seq<EntryView>, m: RawModuleView) -> Seq<Diagnostic> {
    objects_errors(cat, m, m.objects.len() as int) + all_signals_errors(
        cat,
        m,
        m.signals.len() as int,
    )
}

/// Every diagnostic of the module: the faults of its structure, then its
/// semantic and type errors.
pub open spec fn diagnostics(cat: Seq<EntryView>, m: RawModuleView) -> Seq<Diagnostic> {
    structure_faults(m) + semantic_errors(cat, m)
}

pub open spec fn field_model(cat: Seq<EntryView>, f: RawFieldView) -> FieldView {
    FieldView { name: f.name, ty: type_of(cat, f.ty, f.cxx_type) }
}

pub open spec fn fields_model(cat: Seq<EntryView>, fields: Seq<RawFieldView>) -> Seq<FieldView> {
    Seq::new(fields.len(), |i: int| field_model(cat, fields[i]))
}

pub open spec fn kind_of(inherit: bool) -> SignalKind {
    if inherit {
        SignalKind::Delegate
    } else {
        SignalKind::Define
    }
}

pub open spec fn variant_model(cat: Seq<EntryView>, v: RawVariantView) -> SignalVariantView {
    SignalVariantView {
        name: v.name,
        native_name: native_signal_name(v),
        emitter: emitter_name(native_signal_name(v)),
        fields: fields_model(cat, v.fields),
        kind: kind_of(v.inherit),
    }
}

pub open spec fn variants_model(cat: Seq<EntryView>, variants: Seq<RawVariantView>) -> Seq<
    SignalVariantView,
> {
    Seq::new(variants.len(), |j: int| variant_model(cat, variants[j]))
}

/// The namespace of an object: its own where it has one, else the module's.
pub open spec fn object_namespace(m: RawModuleView, o: RawObjectView) -> Seq<char> {
    match o.namespace {
        Some(n) => n,
        None => m.namespace,
    }
}

pub open spec fn signals_model(cat: Seq<EntryView>, m: RawModuleView, s: RawSignalsView)
    -> SignalsDeclView {
    SignalsDeclView {
        name: s.name,
        object: s.object,
        namespace: match object_position(m.objects, s.object, 0) {
            Some(i) => object_namespace(m, m.objects[i]),
            None => m.namespace,
        },
        variants: variants_model(cat, s.variants),
    }
}

pub open spec fn property_model(cat: Seq<EntryView>, p: RawPropertyView) -> PropertyDeclView {
    PropertyDeclView {
        name: p.name,
        ty: type_of(cat, p.ty.unwrap(), p.cxx_type),
        getter: getter_name(p.name),
        setter: setter_name(p.name),
        notify: notify_name(p.name),
    }
}

pub open spec fn properties_model(cat: Seq<EntryView>, properties: Seq<RawPropertyView>) -> Seq<
    PropertyDeclView,
> {
    Seq::new(properties.len(), |j: int| property_model(cat, properties[j]))
}

pub open spec fn return_model(cat: Seq<EntryView>, ret: Option<TypeExprView>) -> Option<
    TypeRefView,
> {
    match ret {
        Some(t) => Some(type_of(cat, t, None)),
        None => None,
    }
}

pub open spec fn invokable_model(cat: Seq<EntryView>, m: RawInvokableView) -> InvokableDeclView {
    InvokableDeclView {
        name: m.name,
        receiver: m.receiver.unwrap(),
        params: fields_model(cat, m.params),
        ret: return_model(cat, m.ret),
        mutates: m.receiver.unwrap() == Receiver::Exclusive,
        is_const: m.receiver.unwrap() == Receiver::Shared,
    }
}

pub open spec fn invokables_model(cat: Seq<EntryView>, invokables: Seq<RawInvokableView>) -> Seq<
    InvokableDeclView,
> {
    Seq::new(invokables.len(), |j: int| invokable_model(cat, invokables[j]))
}

pub open spec fn construction_of(default_constructed: bool) -> Construction {
    if default_constructed {
        Construction::Default
    } else {
        Construction::Provided
    }
}

pub open spec fn object_model(cat: Seq<EntryView>, m: RawModuleView, o: RawObjectView)
    -> ObjectDeclView {
    ObjectDeclView {
        name: o.name,
        base: o.base,
        namespace: object_namespace(m, o),
        properties: properties_model(cat, o.properties),
        invokables: invokables_model(cat, o.invokables),
        construction: construction_of(o.default_constructed),
    }
}

pub open spec fn objects_model(cat: Seq<EntryView>, m: RawModuleView) -> Seq<ObjectDeclView> {
    Seq::new(m.objects.len(), |i: int| object_model(cat, m, m.objects[i]))
}

pub open spec fn all_signals_model(cat: Seq<EntryView>, m: RawModuleView) -> Seq<
    SignalsDeclView,
> {
    Seq::new(m.signals.len(), |k: int| signals_model(cat, m, m.signals[k]))
}

/// The typed model that a module without errors stands for.
pub open spec fn module_model(cat: Seq<EntryView>, m: RawModuleView) -> BridgeModuleView {
    BridgeModuleView {
        namespace: m.namespace,
        objects: objects_model(cat, m),
        signals: all_signals_model(cat, m),
    }
}

} // verus!
