//! What holds of every module, every declaration and every type: the laws
//! that the rest of the library is built to keep.

use vstd::prelude::*;
use crate::catalogue::{lookup, primitive_native, Catalogue, EntryView};
use crate::compile::{compiled, ArtifactsView};
use crate::decl::{
    RawFieldView, RawInvokableView, RawModule, RawModuleView, RawObjectView, RawPropertyView,
    RawSignalsView, RawVariantView, TypeExprView, TypeShape,
};
use crate::diag::{only_if, DiagKind, Diagnostic};
use crate::ir::{Role, StmtView};
use crate::lower::{
    arg_of, args_of, class_of, emitter_method, emitter_stmt, getter_method, invokable_glue,
    invokable_method, notify_method, object_glue, property_methods, setter_body, setter_method,
    signal_method, signals_glue, variant_glue, variant_methods,
};
use crate::meaning::{run, run_all, Event, State};
use crate::model::{
    Category, FieldView, InvokableDeclView, Marshal, ObjectDeclView, PropertyDeclView, SignalKind,
    SignalVariantView, SignalsDeclView,
};
use crate::names::{emitter_name, getter_name, native_signal_name, notify_name, setter_name};
use crate::render::arg_text;
use crate::semantic::{
    base_name, base_resolves, field_model, fields_errors, fields_model, invokable_model,
    module_complete, module_model, object_complete, object_model, properties_claims,
    properties_errors, property_claims, property_collides, property_errors, property_model,
    rename_repeated, semantic_errors, variant_claims, variant_collides, variant_errors,
    variant_model, variant_name_errors, variants_claims, variants_errors,
};
use crate::text::{camel, is_ident};
use crate::typemap::{const_ref, inner_native, type_error, type_of, unique_ptr};
use crate::validate::{
    all_signals_faults, field_faults, fields_faults, invokable_faults, invokables_faults,
    name_repeated, object_faults, objects_faults, properties_faults, property_faults,
    signals_faults, structure_faults, variant_faults, variants_faults,
};
use crate::wf::{invokable_wf, model_wf, object_wf, property_wf, signals_wf, variant_wf};

verus! {

/// The names of a property's getter, setter and change signal depend on the
/// property's name alone: two properties of one name get the same three
/// names, whatever their types, overrides and catalogues.
pub proof fn accessor_names_follow_from_name(
    cat1: Seq<EntryView>,
    cat2: Seq<EntryView>,
    p: RawPropertyView,
    q: RawPropertyView,
)
    requires
        p.name == q.name,
    ensures
        property_model(cat1, p).getter == property_model(cat2, q).getter,
        property_model(cat1, p).setter == property_model(cat2, q).setter,
        property_model(cat1, p).notify == property_model(cat2, q).notify,
        property_model(cat1, p).getter == getter_name(p.name),
        property_model(cat1, p).setter == setter_name(p.name),
        property_model(cat1, p).notify == notify_name(p.name),
{
}

/// A property gives exactly one getter, one setter and one change signal, and
/// only the setter and the getter have a body.
pub proof fn property_has_one_of_each(p: PropertyDeclView)
    ensures
        property_methods(p).len() == 3,
        property_methods(p)[0] == getter_method(p),
        property_methods(p)[1] == setter_method(p),
        property_methods(p)[2] == notify_method(p),
        property_methods(p)[0].name == p.getter,
        property_methods(p)[1].name == p.setter,
        property_methods(p)[2].name == p.notify,
        property_methods(p)[2].role == Role::Signal,
        property_methods(p)[2].body.is_none(),
{
}

/// One call of a setter stores the value in the property's field, leaves
/// every other field as it was, and emits the property's change signal
/// exactly once and nothing else.
pub proof fn setter_stores_and_notifies_once<V>(p: PropertyDeclView, before: State<V>, value: V)
    ensures
        run_all(before, setter_body(p), value).fields == before.fields.insert(p.name, value),
        run_all(before, setter_body(p), value).events == before.events.push(
            Event::Emitted { signal: p.notify, args: Seq::empty() },
        ),
{
    reveal_with_fuel(run, 3);
}

/// The arguments of a call are the fields, each once and in declared order.
pub proof fn arguments_follow_fields(fields: Seq<FieldView>)
    ensures
        args_of(fields).len() == fields.len(),
        forall|i: int|
            0 <= i < fields.len() ==> (#[trigger] args_of(fields)[i]).name == fields[i].name
                && args_of(fields)[i].rule == fields[i].ty.marshal,
{
}

/// An inherited signal is called, not declared. Its class gets the emitter
/// alone, and the emitter does one thing: it calls the base class's method,
/// named by the rename where there is one and by the variant's name with its
/// first letter lowered where there is none, with the fields as arguments in
/// declared order.
pub proof fn inherited_signal_calls_through<V>(
    cat: Seq<EntryView>,
    v: RawVariantView,
    before: State<V>,
    value: V,
)
    requires
        v.inherit,
    ensures
        variant_model(cat, v).kind == SignalKind::Delegate,
        v.cxx_name.is_some() ==> variant_model(cat, v).native_name == v.cxx_name.unwrap(),
        v.cxx_name.is_none() ==> variant_model(cat, v).native_name == camel(v.name),
        variant_methods(variant_model(cat, v)) == seq![emitter_method(variant_model(cat, v))],
        emitter_method(variant_model(cat, v)).body == Some(
            seq![
                StmtView::CallBase {
                    method: variant_model(cat, v).native_name,
                    args: args_of(fields_model(cat, v.fields)),
                },
            ],
        ),
        args_of(fields_model(cat, v.fields)).len() == v.fields.len(),
        forall|i: int|
            0 <= i < v.fields.len() ==> (#[trigger] args_of(fields_model(cat, v.fields))[i]).name
                == v.fields[i].name,
        run_all(before, emitter_method(variant_model(cat, v)).body.unwrap(), value).events
            == before.events.push(
            Event::Called {
                method: variant_model(cat, v).native_name,
                args: args_of(fields_model(cat, v.fields)),
            },
        ),
        run_all(before, emitter_method(variant_model(cat, v)).body.unwrap(), value).fields
            == before.fields,
{
    reveal_with_fuel(run, 2);
}

/// A signal that is not inherited is declared under its name, and its emitter
/// emits it, with the fields as arguments in declared order.
pub proof fn new_signal_is_declared_and_emitted(cat: Seq<EntryView>, v: RawVariantView)
    requires
        !v.inherit,
    ensures
        variant_model(cat, v).kind == SignalKind::Define,
        variant_methods(variant_model(cat, v)) == seq![
            signal_method(variant_model(cat, v)),
            emitter_method(variant_model(cat, v)),
        ],
        signal_method(variant_model(cat, v)).role == Role::Signal,
        signal_method(variant_model(cat, v)).params == fields_model(cat, v.fields),
        emitter_stmt(variant_model(cat, v)) == (StmtView::Emit {
            signal: variant_model(cat, v).native_name,
            args: args_of(fields_model(cat, v.fields)),
        }),
{
}

/// Every resolved type has the one rule of its category.
pub proof fn rule_follows_category(cat: Seq<EntryView>, ty: TypeExprView, over: Option<Seq<char>>)
    ensures
        type_of(cat, ty, over).wf(),
        type_of(cat, ty, over).category == Category::Reference ==> type_of(cat, ty, over).marshal
            == Marshal::Borrow,
        type_of(cat, ty, over).category == Category::OwnedPointer ==> type_of(
            cat,
            ty,
            over,
        ).marshal == Marshal::Transfer,
{
}

/// A type written as a reference with a lifetime is borrowed: it is never
/// handed over and never copied, it is spelled as a reference to a constant
/// unless an override says otherwise, and as an argument it is named, not
/// moved.
pub proof fn reference_is_borrowed(
    cat: Seq<EntryView>,
    f: RawFieldView,
)
    requires
        f.ty.shape == TypeShape::Borrowed,
    ensures
        type_of(cat, f.ty, f.cxx_type).category == Category::Reference,
        type_of(cat, f.ty, f.cxx_type).marshal == Marshal::Borrow,
        f.cxx_type.is_none() ==> type_of(cat, f.ty, f.cxx_type).native == const_ref(
            inner_native(cat, f.ty.name),
        ),
        arg_text(arg_of(field_model(cat, f))) == f.name,
{
}

/// A type written as an owning pointer is handed over: its rule is transfer,
/// it is spelled as a unique pointer unless an override says otherwise, and
/// as an argument it is moved.
pub proof fn owned_pointer_is_handed_over(cat: Seq<EntryView>, f: RawFieldView)
    requires
        f.ty.shape == TypeShape::Owned,
    ensures
        type_of(cat, f.ty, f.cxx_type).category == Category::OwnedPointer,
        type_of(cat, f.ty, f.cxx_type).marshal == Marshal::Transfer,
        f.cxx_type.is_none() ==> type_of(cat, f.ty, f.cxx_type).native == unique_ptr(
            inner_native(cat, f.ty.name),
        ),
        arg_text(arg_of(field_model(cat, f))) == "::std::move("@ + f.name + ")"@,
{
}

/// The glue declaration of an invokable has the parameters and the return
/// type of the C++ method, the same resolved types in the same order.
pub proof fn invokable_glue_agrees_with_native(owner: Seq<char>, m: InvokableDeclView)
    ensures
        invokable_glue(owner, m).params == invokable_method(m).params,
        invokable_glue(owner, m).ret == invokable_method(m).ret,
{
}

/// The glue declaration of a signal has the parameters of the emitter, and of
/// the signal's declaration where the class has one.
pub proof fn signal_glue_agrees_with_native(owner: Seq<char>, v: SignalVariantView)
    ensures
        variant_glue(owner, v).params == emitter_method(v).params,
        variant_glue(owner, v).params == signal_method(v).params,
        variant_glue(owner, v).name == emitter_method(v).name,
{
}

/// The glue declarations of an object stand in the order of its invokables.
pub proof fn glue_follows_invokables(o: ObjectDeclView, n: int)
    requires
        0 <= n <= o.invokables.len(),
    ensures
        object_glue(o, n).len() == n,
        forall|i: int|
            0 <= i < n ==> (#[trigger] object_glue(o, n)[i]) == invokable_glue(
                o.name,
                o.invokables[i],
            ),
    decreases n,
{
    if n > 0 {
        glue_follows_invokables(o, n - 1);
    }
}

/// The glue declarations of a set of signals stand in the order of its
/// variants.
pub proof fn glue_follows_variants(s: SignalsDeclView, n: int)
    requires
        0 <= n <= s.variants.len(),
    ensures
        signals_glue(s, n).len() == n,
        forall|i: int|
            0 <= i < n ==> (#[trigger] signals_glue(s, n)[i]) == variant_glue(
                s.object,
                s.variants[i],
            ),
    decreases n,
{
    if n > 0 {
        glue_follows_variants(s, n - 1);
    }
}

/// Compiling is a function of what the module and the catalogue hold: equal
/// inputs give the same texts, character for character, or the same
/// diagnostics.
pub proof fn compiling_twice_gives_the_same(
    cat1: Catalogue,
    m1: RawModule,
    cat2: Catalogue,
    m2: RawModule,
)
    requires
        cat1@ == cat2@,
        m1@ == m2@,
    ensures
        compiled(cat1@, m1@) == compiled(cat2@, m2@),
{
}

/// An override, where one is given, is the C++ spelling, whatever the
/// catalogue holds.
pub proof fn override_wins(
    cat: Seq<EntryView>,
    ty: TypeExprView,
    spelling: Seq<char>,
)
    ensures
        type_of(cat, ty, Some(spelling)).native == spelling,
{
}

/// A plainly named type that is neither in the catalogue nor a primitive and
/// has no override is an error, and nothing else about a plain type is.
pub proof fn unknown_type_is_an_error(cat: Seq<EntryView>, ty: TypeExprView)
    requires
        ty.shape == TypeShape::Plain,
    ensures
        type_error(cat, ty, None) == if lookup(cat, ty.name).is_none()
            && primitive_native(ty.name).is_none() {
            Some(DiagKind::UnsupportedType)
        } else {
            None
        },
{
}

proof fn lemma_property_claims_kept(properties: Seq<RawPropertyView>, i: int, n: int)
    requires
        0 <= i < n <= properties.len(),
    ensures
        forall|k: int|
            0 <= k < 4 ==> properties_claims(properties, n).contains(
                #[trigger] property_claims(properties[i])[k],
            ),
    decreases n,
{
    let all = properties_claims(properties, n);
    let earlier = properties_claims(properties, n - 1);
    let last = property_claims(properties[n - 1]);
    assert(all == earlier + last);
    if i == n - 1 {
        assert forall|k: int| 0 <= k < 4 implies all.contains(
            #[trigger] property_claims(properties[i])[k],
        ) by {
            assert(all[earlier.len() + k] == last[k]);
        }
    } else {
        lemma_property_claims_kept(properties, i, n - 1);
        assert forall|k: int| 0 <= k < 4 implies all.contains(
            #[trigger] property_claims(properties[i])[k],
        ) by {
            let x = property_claims(properties[i])[k];
            assert(earlier.contains(x));
            let w = choose|w: int| 0 <= w < earlier.len() && earlier[w] == x;
            assert(all[w] == x);
        }
    }
}

proof fn lemma_property_errors_empty(
    cat: Seq<EntryView>,
    taken: Seq<Seq<char>>,
    properties: Seq<RawPropertyView>,
    j: int,
    n: int,
)
    requires
        0 <= j < n <= properties.len(),
        properties_errors(cat, taken, properties, n).len() == 0,
    ensures
        property_errors(cat, taken, properties, j).len() == 0,
    decreases n,
{
    if j < n - 1 {
        lemma_property_errors_empty(cat, taken, properties, j, n - 1);
    }
}

/// In an object without errors no two properties collide: a later property's
/// name, getter, setter and change signal differ from each of those four of
/// an earlier one, and from every name that the invokables and signals of
/// the object claim.
pub proof fn properties_never_collide(
    cat: Seq<EntryView>,
    taken: Seq<Seq<char>>,
    properties: Seq<RawPropertyView>,
    i: int,
    j: int,
)
    requires
        0 <= i < j < properties.len(),
        properties_errors(cat, taken, properties, properties.len() as int).len() == 0,
    ensures
        forall|a: int, b: int|
            0 <= a < 4 && 0 <= b < 4 ==> #[trigger] property_claims(properties[i])[a]
                != #[trigger] property_claims(properties[j])[b],
        forall|b: int| 0 <= b < 4 ==> !taken.contains(#[trigger] property_claims(properties[j])[b]),
{
    lemma_property_errors_empty(cat, taken, properties, j, properties.len() as int);
    lemma_property_claims_kept(properties, i, j);
    let before = taken + properties_claims(properties, j);
    assert(!property_collides(before, properties[j]));
    assert forall|b: int| 0 <= b < 4 implies !before.contains(
        #[trigger] property_claims(properties[j])[b],
    ) by {}
    assert forall|a: int, b: int| 0 <= a < 4 && 0 <= b < 4 implies #[trigger] property_claims(
        properties[i],
    )[a] != #[trigger] property_claims(properties[j])[b] by {
        let x = property_claims(properties[i])[a];
        assert(properties_claims(properties, j).contains(x));
        let w = choose|w: int|
            0 <= w < properties_claims(properties, j).len() && properties_claims(properties, j)[w]
                == x;
        assert(before[taken.len() + w] == x);
        assert(before.contains(x));
    }
    assert forall|b: int| 0 <= b < 4 implies !taken.contains(
        #[trigger] property_claims(properties[j])[b],
    ) by {
        let y = property_claims(properties[j])[b];
        if taken.contains(y) {
            let w = choose|w: int| 0 <= w < taken.len() && taken[w] == y;
            assert(before[w] == y);
            assert(before.contains(y));
        }
    }
}

proof fn lemma_variant_claims_kept(variants: Seq<RawVariantView>, i: int, n: int)
    requires
        0 <= i < n <= variants.len(),
    ensures
        variants_claims(variants, n).contains(native_signal_name(variants[i])),
        variants_claims(variants, n).contains(emitter_name(native_signal_name(variants[i]))),
    decreases n,
{
    let all = variants_claims(variants, n);
    let earlier = variants_claims(variants, n - 1);
    let last = variant_claims(variants[n - 1]);
    assert(all == earlier + last);
    if i == n - 1 {
        assert(all[earlier.len() as int] == last[0]);
        assert(all[earlier.len() as int + 1] == last[1]);
    } else {
        lemma_variant_claims_kept(variants, i, n - 1);
        let x = native_signal_name(variants[i]);
        let w = choose|w: int| 0 <= w < earlier.len() && earlier[w] == x;
        assert(all[w] == x);
        let y = emitter_name(x);
        let u = choose|u: int| 0 <= u < earlier.len() && earlier[u] == y;
        assert(all[u] == y);
    }
}

proof fn lemma_variant_errors_empty(
    cat: Seq<EntryView>,
    has_base: bool,
    taken: Seq<Seq<char>>,
    variants: Seq<RawVariantView>,
    j: int,
    n: int,
)
    requires
        0 <= j < n <= variants.len(),
        variants_errors(cat, has_base, taken, variants, n).len() == 0,
    ensures
        variant_errors(cat, has_base, taken, variants, j).len() == 0,
    decreases n,
{
    if j < n - 1 {
        lemma_variant_errors_empty(cat, has_base, taken, variants, j, n - 1);
    }
}

/// In a set of signals without errors no two variants resolve to the same
/// C++ name or to the same emitter, and an inherited variant has a base class
/// to inherit from.
pub proof fn signals_never_collide(
    cat: Seq<EntryView>,
    has_base: bool,
    taken: Seq<Seq<char>>,
    variants: Seq<RawVariantView>,
    i: int,
    j: int,
)
    requires
        0 <= i < j < variants.len(),
        variants_errors(cat, has_base, taken, variants, variants.len() as int).len() == 0,
    ensures
        native_signal_name(variants[i]) != native_signal_name(variants[j]),
        emitter_name(native_signal_name(variants[i])) != emitter_name(
            native_signal_name(variants[j]),
        ),
        variants[j].inherit ==> has_base,
{
    lemma_variant_errors_empty(cat, has_base, taken, variants, j, variants.len() as int);
    lemma_variant_claims_kept(variants, i, j);
    let claims = variants_claims(variants, j);
    let before = taken + claims;
    assert(!rename_repeated(variants, j));
    assert(!variant_collides(before, variants[j]));
    let x = native_signal_name(variants[i]);
    let w = choose|w: int| 0 <= w < claims.len() && claims[w] == x;
    assert(before[taken.len() + w] == x);
    assert(before.contains(x));
    let y = emitter_name(x);
    let u = choose|u: int| 0 <= u < claims.len() && claims[u] == y;
    assert(before[taken.len() + u] == y);
    assert(before.contains(y));
}

proof fn lemma_properties_faults_grow(properties: Seq<RawPropertyView>, j: int, n: int)
    requires
        0 <= j < n <= properties.len(),
    ensures
        properties_faults(properties, n).len() >= property_faults(properties[j]).len(),
    decreases n,
{
    if j < n - 1 {
        lemma_properties_faults_grow(properties, j, n - 1);
    }
}

proof fn lemma_objects_faults_grow(objects: Seq<RawObjectView>, i: int, n: int)
    requires
        0 <= i < n <= objects.len(),
    ensures
        objects_faults(objects, n).len() >= object_faults(objects[i]).len(),
    decreases n,
{
    if i < n - 1 {
        lemma_objects_faults_grow(objects, i, n - 1);
    }
}

/// A module in which a property has no type is rejected: it has structural
/// faults, and compiling it gives diagnostics and no text.
pub proof fn property_without_type_is_rejected(
    cat: Seq<EntryView>,
    m: RawModuleView,
    i: int,
    j: int,
)
    requires
        0 <= i < m.objects.len(),
        0 <= j < m.objects[i].properties.len(),
        m.objects[i].properties[j].ty.is_none(),
    ensures
        structure_faults(m).len() > 0,
        compiled(cat, m).is_err(),
{
    let o = m.objects[i];
    lemma_properties_faults_grow(o.properties, j, o.properties.len() as int);
    lemma_objects_faults_grow(m.objects, i, m.objects.len() as int);
}

proof fn lemma_invokables_faults_grow(invokables: Seq<RawInvokableView>, j: int, n: int)
    requires
        0 <= j < n <= invokables.len(),
    ensures
        invokables_faults(invokables, n).len() >= invokable_faults(invokables[j]).len(),
    decreases n,
{
    if j < n - 1 {
        lemma_invokables_faults_grow(invokables, j, n - 1);
    }
}

/// A module in which an invokable takes `self` in no accepted form is
/// rejected.
pub proof fn unresolved_receiver_is_rejected(
    cat: Seq<EntryView>,
    m: RawModuleView,
    i: int,
    j: int,
)
    requires
        0 <= i < m.objects.len(),
        0 <= j < m.objects[i].invokables.len(),
        m.objects[i].invokables[j].receiver.is_none(),
    ensures
        structure_faults(m).len() > 0,
        compiled(cat, m).is_err(),
{
    let o = m.objects[i];
    lemma_invokables_faults_grow(o.invokables, j, o.invokables.len() as int);
    lemma_objects_faults_grow(m.objects, i, m.objects.len() as int);
}

proof fn lemma_fields_faults_grow(fields: Seq<RawFieldView>, j: int, n: int)
    requires
        0 <= j < n <= fields.len(),
    ensures
        fields_faults(fields, n).len() >= field_faults(fields, j).len(),
    decreases n,
{
    if j < n - 1 {
        lemma_fields_faults_grow(fields, j, n - 1);
    }
}

proof fn lemma_variants_faults_grow(variants: Seq<RawVariantView>, j: int, n: int)
    requires
        0 <= j < n <= variants.len(),
    ensures
        variants_faults(variants, n).len() >= variant_faults(variants[j]).len(),
    decreases n,
{
    if j < n - 1 {
        lemma_variants_faults_grow(variants, j, n - 1);
    }
}

proof fn lemma_signals_faults_grow(signals: Seq<RawSignalsView>, k: int, n: int)
    requires
        0 <= k < n <= signals.len(),
    ensures
        all_signals_faults(signals, n).len() >= signals_faults(signals[k]).len(),
    decreases n,
{
    if k < n - 1 {
        lemma_signals_faults_grow(signals, k, n - 1);
    }
}

/// A module in which two fields of one signal variant share a name is
/// rejected.
pub proof fn duplicate_field_is_rejected(
    cat: Seq<EntryView>,
    m: RawModuleView,
    k: int,
    v: int,
    a: int,
    b: int,
)
    requires
        0 <= k < m.signals.len(),
        0 <= v < m.signals[k].variants.len(),
        0 <= a < b < m.signals[k].variants[v].fields.len(),
        m.signals[k].variants[v].fields[a].name == m.signals[k].variants[v].fields[b].name,
    ensures
        structure_faults(m).len() > 0,
        compiled(cat, m).is_err(),
{
    let s = m.signals[k];
    let variant = s.variants[v];
    assert(name_repeated(variant.fields, b));
    lemma_fields_faults_grow(variant.fields, b, variant.fields.len() as int);
    lemma_variants_faults_grow(s.variants, v, s.variants.len() as int);
    lemma_signals_faults_grow(m.signals, k, m.signals.len() as int);
}

proof fn lemma_field_faults_empty(fields: Seq<RawFieldView>, j: int, n: int)
    requires
        0 <= j < n <= fields.len(),
        fields_faults(fields, n).len() == 0,
    ensures
        field_faults(fields, j).len() == 0,
    decreases n,
{
    if j < n - 1 {
        lemma_field_faults_empty(fields, j, n - 1);
    }
}

/// In a list of fields without faults no value is passed twice: the
/// arguments of a call name each field once, so a value that is handed over
/// is handed over once.
pub proof fn no_value_is_passed_twice(
    cat: Seq<EntryView>,
    fields: Seq<RawFieldView>,
    i: int,
    j: int,
)
    requires
        0 <= i < j < fields.len(),
        fields_faults(fields, fields.len() as int).len() == 0,
    ensures
        args_of(fields_model(cat, fields))[i].name != args_of(fields_model(cat, fields))[j].name,
{
    lemma_field_faults_empty(fields, j, fields.len() as int);
    assert(!name_repeated(fields, j));
    assert(fields[i].name != fields[j].name);
}

proof fn lemma_properties_faults_empty(properties: Seq<RawPropertyView>, j: int, n: int)
    requires
        0 <= j < n <= properties.len(),
        properties_faults(properties, n).len() == 0,
    ensures
        property_faults(properties[j]).len() == 0,
    decreases n,
{
    if j < n - 1 {
        lemma_properties_faults_empty(properties, j, n - 1);
    }
}

proof fn lemma_invokables_faults_empty(invokables: Seq<RawInvokableView>, j: int, n: int)
    requires
        0 <= j < n <= invokables.len(),
        invokables_faults(invokables, n).len() == 0,
    ensures
        invokable_faults(invokables[j]).len() == 0,
    decreases n,
{
    if j < n - 1 {
        lemma_invokables_faults_empty(invokables, j, n - 1);
    }
}

proof fn lemma_objects_faults_empty(objects: Seq<RawObjectView>, i: int, n: int)
    requires
        0 <= i < n <= objects.len(),
        objects_faults(objects, n).len() == 0,
    ensures
        object_faults(objects[i]).len() == 0,
    decreases n,
{
    if i < n - 1 {
        lemma_objects_faults_empty(objects, i, n - 1);
    }
}

/// In a module without structural faults every property has a type and a
/// name that is an identifier, and every invokable has a receiver.
pub proof fn validated_object_is_complete(m: RawModuleView, i: int)
    requires
        0 <= i < m.objects.len(),
        structure_faults(m).len() == 0,
    ensures
        is_ident(m.objects[i].name),
        forall|j: int|
            0 <= j < m.objects[i].properties.len() ==> (#[trigger] m.objects[i].properties[
                j
            ]).ty.is_some() && is_ident(m.objects[i].properties[j].name),
        forall|j: int|
            0 <= j < m.objects[i].invokables.len()
                ==> (#[trigger] m.objects[i].invokables[j]).receiver.is_some(),
{
    let o = m.objects[i];
    lemma_objects_faults_empty(m.objects, i, m.objects.len() as int);
    assert forall|j: int| 0 <= j < o.properties.len() implies (#[trigger] o.properties[
        j
    ]).ty.is_some() && is_ident(o.properties[j].name) by {
        lemma_properties_faults_empty(o.properties, j, o.properties.len() as int);
    }
    assert forall|j: int| 0 <= j < o.invokables.len() implies (#[trigger] o.invokables[
        j
    ]).receiver.is_some() by {
        lemma_invokables_faults_empty(o.invokables, j, o.invokables.len() as int);
    }
}

/// Every type in the fields of a built signal has the rule of its category.
pub proof fn built_fields_are_well_formed(cat: Seq<EntryView>, fields: Seq<RawFieldView>, i: int)
    requires
        0 <= i < fields.len(),
    ensures
        fields_model(cat, fields)[i].ty.wf(),
        fields_model(cat, fields)[i].name == fields[i].name,
{
}

/// The model of every module is valid: its types have the rules of their
/// categories and its names are the derived ones.
pub proof fn built_model_is_valid(cat: Seq<EntryView>, m: RawModuleView)
    ensures
        model_wf(module_model(cat, m)),
{
    let model = module_model(cat, m);
    assert forall|i: int| 0 <= i < model.objects.len() implies object_wf(
        #[trigger] model.objects[i],
    ) by {
        let o = model.objects[i];
        let raw = m.objects[i];
        assert forall|j: int| 0 <= j < o.properties.len() implies property_wf(
            #[trigger] o.properties[j],
        ) by {
            assert(o.properties[j] == property_model(cat, raw.properties[j]));
        }
        assert forall|j: int| 0 <= j < o.invokables.len() implies invokable_wf(
            #[trigger] o.invokables[j],
        ) by {
            assert(o.invokables[j] == invokable_model(cat, raw.invokables[j]));
        }
    }
    assert forall|k: int| 0 <= k < model.signals.len() implies signals_wf(
        #[trigger] model.signals[k],
    ) by {
        let s = model.signals[k];
        let raw = m.signals[k];
        assert forall|j: int| 0 <= j < s.variants.len() implies variant_wf(
            #[trigger] s.variants[j],
        ) by {
            assert(s.variants[j] == variant_model(cat, raw.variants[j]));
        }
    }
}

/// A module without structural faults holds all that a model is built from.
pub proof fn validated_module_is_complete(m: RawModuleView)
    requires
        structure_faults(m).len() == 0,
    ensures
        module_complete(m),
{
    assert forall|i: int| 0 <= i < m.objects.len() implies object_complete(
        #[trigger] m.objects[i],
    ) by {
        validated_object_is_complete(m, i);
    }
}

/// An object that names no base class has `QObject` for one, so a signal
/// that it inherits is no error: the variant reports only what its name and
/// its fields give rise to.
pub proof fn inherited_signal_needs_no_named_base(
    cat: Seq<EntryView>,
    o: RawObjectView,
    taken: Seq<Seq<char>>,
    variants: Seq<RawVariantView>,
    j: int,
)
    requires
        o.base.is_none(),
        0 <= j < variants.len(),
    ensures
        base_resolves(o),
        base_name(o) == "QObject"@,
        variant_errors(cat, base_resolves(o), taken, variants, j) == variant_name_errors(
            taken,
            variants,
            j,
        ) + fields_errors(cat, variants[j].fields, variants[j].fields.len() as int),
{
    assert(only_if(false, DiagKind::InheritWithoutBase, variants[j].pos) =~= Seq::<
        Diagnostic,
    >::empty());
    assert(Seq::<Diagnostic>::empty() + variant_name_errors(taken, variants, j)
        =~= variant_name_errors(taken, variants, j));
}

/// Every diagnostic is collected: a module is rejected exactly when it has a
/// structural fault or a semantic or type error, and then with all of both.
pub proof fn every_diagnostic_is_collected(cat: Seq<EntryView>, m: RawModuleView)
    ensures
        compiled(cat, m).is_err() <==> structure_faults(m).len() > 0 || semantic_errors(
            cat,
            m,
        ).len() > 0,
        compiled(cat, m).is_err() ==> compiled(cat, m) == Err::<ArtifactsView, Seq<Diagnostic>>(
            structure_faults(m) + semantic_errors(cat, m),
        ),
{
}

/// The class of an object derives from the base class that the object
/// resolves to: the one it names, else `QObject`.
pub proof fn class_derives_from_the_resolved_base(
    cat: Seq<EntryView>,
    m: RawModuleView,
    o: RawObjectView,
)
    ensures
        class_of(module_model(cat, m), object_model(cat, m, o)).base == base_name(o),
        o.base.is_none() ==> class_of(module_model(cat, m), object_model(cat, m, o)).base
            == "QObject"@,
{
}

} // verus!
