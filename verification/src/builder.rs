//! The builder of the typed model. It looks at every declaration, reports
//! every fault and every error and, where there is none, returns the model.

use vstd::prelude::*;
use crate::catalogue::Catalogue;
use crate::decl::{
    fields_view, invokables_view, objects_view, properties_view, signals_view, text_opt,
    variants_view, RawField, RawInvokable, RawModule, RawObject, RawProperty, RawSignals,
    RawVariant, Receiver, TypeExpr,
};
use crate::diag::{report, DiagKind, Diagnostic, Pos};
use crate::laws::{built_model_is_valid, validated_module_is_complete};
use crate::model::{
    field_views, invokable_views, object_views, property_views, signals_views, variant_views,
    BridgeModule, Construction, Field, InvokableDecl, ObjectDecl, PropertyDecl, SignalKind,
    SignalVariant, SignalsDecl, TypeRef,
};
use crate::names::{emitter_for, getter_for, notify_for, setter_for, signal_name_for, Registry};
use crate::semantic::{
    all_signals_errors, all_signals_model, base_resolves, diagnostics, field_model, fields_errors,
    fields_model, invokable_errors, invokable_model, invokable_names, invokables_complete,
    invokables_errors, invokables_model, module_complete, module_model, object_complete,
    object_errors, object_model, object_position, objects_errors, objects_model,
    properties_claims, properties_complete, properties_errors, properties_model, property_claims,
    property_collides, property_model, property_type_errors, rename_repeated, return_errors,
    semantic_errors, signal_claims_of, signals_errors, signals_model, signals_position,
    taken_before_properties, type_errors, variant_claims, variant_model, variants_claims,
    variants_errors, variants_model,
};
use crate::text::{is_identifier, same_text};
use crate::typemap::{resolve, type_error, type_of};
use crate::validate::validate;
use crate::wf::model_wf;

verus! {

fn copy_opt(t: &Option<String>) -> (out: Option<String>)
    ensures
        text_opt(out) == text_opt(*t),
{
    match t {
        Some(s) => Some(s.clone()),
        None => None,
    }
}

/// The first object with the given name.
pub fn find_object(objects: &Vec<RawObject>, name: &str) -> (found: Option<usize>)
    ensures
        match found {
            Some(i) => object_position(objects_view(objects@), name@, 0) == Some(
                i as int,
            ) && i < objects@.len(),
            None => object_position(objects_view(objects@), name@, 0).is_none(),
        },
{
    let ghost views = objects_view(objects@);
    let n: usize = objects.len();
    let mut i: usize = 0;
    while i < n
        invariant
            n == objects@.len(),
            i <= n,
            views == objects_view(objects@),
            object_position(views, name@, 0) == object_position(views, name@, i as int),
        decreases n - i,
    {
        if same_text(objects[i].name.as_str(), name) {
            return Some(i);
        }
        i = i + 1;
    }
    None
}

/// The first set of signals that names the given object.
pub fn find_signals(signals: &Vec<RawSignals>, object: &str) -> (found: Option<usize>)
    ensures
        match found {
            Some(k) => signals_position(signals_view(signals@), object@, 0) == Some(
                k as int,
            ) && k < signals@.len(),
            None => signals_position(signals_view(signals@), object@, 0).is_none(),
        },
{
    let ghost views = signals_view(signals@);
    let n: usize = signals.len();
    let mut i: usize = 0;
    while i < n
        invariant
            n == signals@.len(),
            i <= n,
            views == signals_view(signals@),
            signals_position(views, object@, 0) == signals_position(views, object@, i as int),
        decreases n - i,
    {
        if same_text(signals[i].object.as_str(), object) {
            return Some(i);
        }
        i = i + 1;
    }
    None
}

fn resolve_at(
    cat: &Catalogue,
    ty: &TypeExpr,
    over: &Option<String>,
    pos: Pos,
    errs: &mut Vec<Diagnostic>,
) -> (res: Option<TypeRef>)
    ensures
        final(errs)@ == old(errs)@ + type_errors(cat@, ty@, text_opt(*over), pos),
        match res {
            Some(t) => type_error(cat@, ty@, text_opt(*over)).is_none() && t@ == type_of(
                cat@,
                ty@,
                text_opt(*over),
            ),
            None => type_error(cat@, ty@, text_opt(*over)).is_some(),
        },
{
    match resolve(cat, ty, over) {
        Ok(t) => {
            assert(errs@ =~= old(errs)@ + type_errors(cat@, ty@, text_opt(*over), pos));
            Some(t)
        },
        Err(kind) => {
            errs.push(Diagnostic { kind, pos });
            assert(errs@ =~= old(errs)@ + type_errors(cat@, ty@, text_opt(*over), pos));
            None
        },
    }
}

fn resolve_fields(cat: &Catalogue, fields: &Vec<RawField>, errs: &mut Vec<Diagnostic>) -> (out:
    Vec<Field>)
    ensures
        final(errs)@ == old(errs)@ + fields_errors(
            cat@,
            fields_view(fields@),
            fields@.len() as int,
        ),
        fields_errors(cat@, fields_view(fields@), fields@.len() as int).len() == 0
            ==> field_views(out@) == fields_model(cat@, fields_view(fields@)),
{
    let ghost views = fields_view(fields@);
    let mut out: Vec<Field> = Vec::new();
    let n: usize = fields.len();
    let mut i: usize = 0;
    assert(errs@ =~= old(errs)@ + fields_errors(cat@, views, 0));
    while i < n
        invariant
            n == fields@.len(),
            i <= n,
            views == fields_view(fields@),
            errs@ == old(errs)@ + fields_errors(cat@, views, i as int),
            fields_errors(cat@, views, i as int).len() == 0 ==> out@.len() == i && forall|
                j: int,
            |
                0 <= j < i ==> (#[trigger] out@[j])@ == field_model(cat@, views[j]),
        decreases n - i,
    {
        let f = &fields[i];
        match resolve_at(cat, &f.ty, &f.cxx_type, f.pos, errs) {
            Some(t) => {
                out.push(Field { name: f.name.clone(), ty: t });
            },
            None => {},
        }
        assert(errs@ =~= old(errs)@ + fields_errors(cat@, views, i as int + 1));
        i = i + 1;
    }
    assert(fields_errors(cat@, views, n as int).len() == 0 ==> field_views(out@) =~= fields_model(
        cat@,
        views,
    ));
    out
}

fn resolve_invokable(cat: &Catalogue, m: &RawInvokable, errs: &mut Vec<Diagnostic>) -> (out:
    Option<InvokableDecl>)
    ensures
        final(errs)@ == old(errs)@ + invokable_errors(cat@, m@),
        m@.receiver.is_some() && invokable_errors(cat@, m@).len() == 0 ==> out.is_some()
            && out.unwrap()@ == invokable_model(cat@, m@),
{
    let params = resolve_fields(cat, &m.params, errs);
    let ret: Option<TypeRef> = match &m.ret {
        Some(t) => resolve_at(cat, t, &None, m.pos, errs),
        None => {
            assert(errs@ =~= errs@ + return_errors(cat@, m@.ret, m.pos));
            None
        },
    };
    assert(errs@ =~= old(errs)@ + invokable_errors(cat@, m@));
    match m.receiver {
        Some(receiver) => {
            let mutates = match receiver {
                Receiver::Exclusive => true,
                _ => false,
            };
            let is_const = match receiver {
                Receiver::Shared => true,
                _ => false,
            };
            Some(
                InvokableDecl { name: m.name.clone(), receiver, params, ret, mutates, is_const },
            )
        },
        None => None,
    }
}

fn resolve_invokables(cat: &Catalogue, invokables: &Vec<RawInvokable>, errs: &mut Vec<Diagnostic>)
    -> (out: Vec<InvokableDecl>)
    ensures
        final(errs)@ == old(errs)@ + invokables_errors(
            cat@,
            invokables_view(invokables@),
            invokables@.len() as int,
        ),
        invokables_complete(invokables_view(invokables@), invokables@.len() as int)
            && invokables_errors(
            cat@,
            invokables_view(invokables@),
            invokables@.len() as int,
        ).len() == 0 ==> invokable_views(out@) == invokables_model(
            cat@,
            invokables_view(invokables@),
        ),
{
    let ghost views = invokables_view(invokables@);
    let mut out: Vec<InvokableDecl> = Vec::new();
    let n: usize = invokables.len();
    let mut i: usize = 0;
    assert(errs@ =~= old(errs)@ + invokables_errors(cat@, views, 0));
    while i < n
        invariant
            n == invokables@.len(),
            i <= n,
            views == invokables_view(invokables@),
            errs@ == old(errs)@ + invokables_errors(cat@, views, i as int),
            invokables_complete(views, i as int) && invokables_errors(cat@, views, i as int).len()
                == 0 ==> out@.len() == i && forall|j: int|
                0 <= j < i ==> (#[trigger] out@[j])@ == invokable_model(cat@, views[j]),
        decreases n - i,
    {
        match resolve_invokable(cat, &invokables[i], errs) {
            Some(decl) => {
                out.push(decl);
            },
            None => {},
        }
        assert(errs@ =~= old(errs)@ + invokables_errors(cat@, views, i as int + 1));
        assert(invokables_complete(views, i as int + 1) ==> invokables_complete(views, i as int)
            && views[i as int].receiver.is_some());
        i = i + 1;
    }
    assert(invokables_complete(views, n as int) && invokables_errors(cat@, views, n as int).len()
        == 0 ==> invokable_views(out@) =~= invokables_model(cat@, views));
    out
}

/// Claims the names of the invokables of an object.
fn claim_invokables(reg: &mut Registry, invokables: &Vec<RawInvokable>)
    ensures
        final(reg)@ == old(reg)@ + invokable_names(
            invokables_view(invokables@),
            invokables@.len() as int,
        ),
{
    let ghost views = invokables_view(invokables@);
    let n: usize = invokables.len();
    let mut i: usize = 0;
    assert(reg@ =~= old(reg)@ + invokable_names(views, 0));
    while i < n
        invariant
            n == invokables@.len(),
            i <= n,
            views == invokables_view(invokables@),
            reg@ == old(reg)@ + invokable_names(views, i as int),
        decreases n - i,
    {
        reg.claim(invokables[i].name.clone());
        assert(reg@ =~= old(reg)@ + invokable_names(views, i as int + 1));
        i = i + 1;
    }
}

fn claim_variant(reg: &mut Registry, v: &RawVariant)
    ensures
        final(reg)@ == old(reg)@ + variant_claims(v@),
{
    let native = signal_name_for(v.name.as_str(), &v.cxx_name);
    let emitter = emitter_for(native.as_str());
    reg.claim(native);
    reg.claim(emitter);
    assert(reg@ =~= old(reg)@ + variant_claims(v@));
}

/// Claims the names of the signals of an object.
fn claim_signals(reg: &mut Registry, signals: &Vec<RawSignals>, object: &str)
    ensures
        final(reg)@ == old(reg)@ + signal_claims_of(
            signals_view(signals@),
            object@,
        ),
{
    match find_signals(signals, object) {
        Some(k) => {
            let s = &signals[k];
            let ghost views = s@.variants;
            let n: usize = s.variants.len();
            let mut j: usize = 0;
            assert(reg@ =~= old(reg)@ + variants_claims(views, 0));
            while j < n
                invariant
                    n == s.variants@.len(),
                    j <= n,
                    views == s@.variants,
                    reg@ == old(reg)@ + variants_claims(views, j as int),
                decreases n - j,
            {
                claim_variant(reg, &s.variants[j]);
                assert(reg@ =~= old(reg)@ + variants_claims(views, j as int + 1));
                j = j + 1;
            }
        },
        None => {
            assert(reg@ =~= old(reg)@ + Seq::<Seq<char>>::empty());
        },
    }
}

fn property_taken(reg: &Registry, p: &RawProperty) -> (taken: bool)
    ensures
        taken == property_collides(reg@, p@),
{
    let getter = getter_for(p.name.as_str());
    let setter = setter_for(p.name.as_str());
    let notify = notify_for(p.name.as_str());
    reg.claims(p.name.as_str()) || reg.claims(getter.as_str()) || reg.claims(setter.as_str())
        || reg.claims(notify.as_str())
}

fn claim_property(reg: &mut Registry, p: &RawProperty)
    ensures
        final(reg)@ == old(reg)@ + property_claims(p@),
{
    reg.claim(p.name.clone());
    reg.claim(getter_for(p.name.as_str()));
    reg.claim(setter_for(p.name.as_str()));
    reg.claim(notify_for(p.name.as_str()));
    assert(reg@ =~= old(reg)@ + property_claims(p@));
}

fn resolve_property_type(cat: &Catalogue, p: &RawProperty, errs: &mut Vec<Diagnostic>) -> (out:
    Option<PropertyDecl>)
    ensures
        final(errs)@ == old(errs)@ + property_type_errors(cat@, p@),
        p@.ty.is_some() && property_type_errors(cat@, p@).len() == 0 ==> out.is_some()
            && out.unwrap()@ == property_model(cat@, p@),
{
    match &p.ty {
        Some(t) => {
            match resolve_at(cat, t, &p.cxx_type, p.pos, errs) {
                Some(ty) => Some(
                    PropertyDecl {
                        name: p.name.clone(),
                        ty,
                        getter: getter_for(p.name.as_str()),
                        setter: setter_for(p.name.as_str()),
                        notify: notify_for(p.name.as_str()),
                    },
                ),
                None => None,
            }
        },
        None => {
            assert(errs@ =~= old(errs)@ + property_type_errors(cat@, p@));
            None
        },
    }
}

fn resolve_properties(
    cat: &Catalogue,
    reg: &mut Registry,
    properties: &Vec<RawProperty>,
    errs: &mut Vec<Diagnostic>,
) -> (out: Vec<PropertyDecl>)
    ensures
        final(errs)@ == old(errs)@ + properties_errors(
            cat@,
            old(reg)@,
            properties_view(properties@),
            properties@.len() as int,
        ),
        properties_complete(properties_view(properties@), properties@.len() as int)
            && properties_errors(
            cat@,
            old(reg)@,
            properties_view(properties@),
            properties@.len() as int,
        ).len() == 0 ==> property_views(out@) == properties_model(
            cat@,
            properties_view(properties@),
        ),
{
    let ghost views = properties_view(properties@);
    let ghost taken = reg@;
    let mut out: Vec<PropertyDecl> = Vec::new();
    let n: usize = properties.len();
    let mut j: usize = 0;
    assert(errs@ =~= old(errs)@ + properties_errors(cat@, taken, views, 0));
    assert(reg@ =~= taken + properties_claims(views, 0));
    while j < n
        invariant
            n == properties@.len(),
            j <= n,
            views == properties_view(properties@),
            reg@ == taken + properties_claims(views, j as int),
            errs@ == old(errs)@ + properties_errors(cat@, taken, views, j as int),
            properties_complete(views, j as int) && properties_errors(
                cat@,
                taken,
                views,
                j as int,
            ).len() == 0 ==> out@.len() == j && forall|i: int|
                0 <= i < j ==> (#[trigger] out@[i])@ == property_model(cat@, views[i]),
        decreases n - j,
    {
        let p = &properties[j];
        let decl = resolve_property_type(cat, p, errs);
        let taken_now = property_taken(reg, p);
        report(errs, taken_now, DiagKind::PropertyNameCollision, p.pos);
        claim_property(reg, p);
        match decl {
            Some(d) => {
                out.push(d);
            },
            None => {},
        }
        assert(errs@ =~= old(errs)@ + properties_errors(cat@, taken, views, j as int + 1));
        assert(reg@ =~= taken + properties_claims(views, j as int + 1));
        assert(properties_complete(views, j as int + 1) ==> properties_complete(views, j as int)
            && views[j as int].ty.is_some());
        j = j + 1;
    }
    assert(properties_complete(views, n as int) && properties_errors(
        cat@,
        taken,
        views,
        n as int,
    ).len() == 0 ==> property_views(out@) =~= properties_model(cat@, views));
    out
}

fn resolve_object(cat: &Catalogue, m: &RawModule, i: usize, errs: &mut Vec<Diagnostic>) -> (out:
    ObjectDecl)
    requires
        i < m.objects@.len(),
    ensures
        final(errs)@ == old(errs)@ + object_errors(cat@, m@, i as int),
        object_complete(m@.objects[i as int]) && object_errors(cat@, m@, i as int).len() == 0
            ==> out@ == object_model(cat@, m@, m@.objects[i as int]),
{
    let o = &m.objects[i];
    let is_first = match find_object(&m.objects, o.name.as_str()) {
        Some(f) => f == i,
        None => false,
    };
    report(errs, !is_first, DiagKind::DuplicateObject, o.pos);
    let invokables = resolve_invokables(cat, &o.invokables, errs);
    let mut reg = Registry::new();
    claim_invokables(&mut reg, &o.invokables);
    claim_signals(&mut reg, &m.signals, o.name.as_str());
    assert(reg@ =~= taken_before_properties(m@, o@));
    let properties = resolve_properties(cat, &mut reg, &o.properties, errs);
    assert(errs@ =~= old(errs)@ + object_errors(cat@, m@, i as int));
    let namespace = match &o.namespace {
        Some(n) => n.clone(),
        None => m.namespace.clone(),
    };
    let construction = if o.default_constructed {
        Construction::Default
    } else {
        Construction::Provided
    };
    ObjectDecl {
        name: o.name.clone(),
        base: copy_opt(&o.base),
        namespace,
        properties,
        invokables,
        construction,
    }
}

fn rename_seen(variants: &Vec<RawVariant>, j: usize) -> (seen: bool)
    requires
        j < variants@.len(),
    ensures
        seen == rename_repeated(variants_view(variants@), j as int),
{
    let ghost views = variants_view(variants@);
    match &variants[j].cxx_name {
        None => false,
        Some(r) => {
            let mut i: usize = 0;
            while i < j
                invariant
                    j < variants@.len(),
                    i <= j,
                    views == variants_view(variants@),
                    views[j as int].cxx_name == Some(r@),
                    forall|k: int|
                        0 <= k < i ==> (#[trigger] views[k]).cxx_name != views[j as int].cxx_name,
                decreases j - i,
            {
                match &variants[i].cxx_name {
                    Some(e) => {
                        if same_text(e.as_str(), r.as_str()) {
                            assert(views[i as int].cxx_name == views[j as int].cxx_name);
                            return true;
                        }
                    },
                    None => {},
                }
                i = i + 1;
            }
            false
        },
    }
}

fn resolve_variants(
    cat: &Catalogue,
    o: &RawObject,
    variants: &Vec<RawVariant>,
    errs: &mut Vec<Diagnostic>,
) -> (out: Vec<SignalVariant>)
    ensures
        final(errs)@ == old(errs)@ + variants_errors(
            cat@,
            base_resolves(o@),
            invokable_names(o@.invokables, o@.invokables.len() as int),
            variants_view(variants@),
            variants@.len() as int,
        ),
        variants_errors(
            cat@,
            base_resolves(o@),
            invokable_names(o@.invokables, o@.invokables.len() as int),
            variants_view(variants@),
            variants@.len() as int,
        ).len() == 0 ==> variant_views(out@) == variants_model(
            cat@,
            variants_view(variants@),
        ),
{
    let ghost views = variants_view(variants@);
    let ghost taken = invokable_names(o@.invokables, o@.invokables.len() as int);
    let ghost has_base = base_resolves(o@);
    let resolves = match &o.base {
        Some(b) => is_identifier(b.as_str()),
        None => true,
    };
    let mut reg = Registry::new();
    claim_invokables(&mut reg, &o.invokables);
    let mut out: Vec<SignalVariant> = Vec::new();
    let n: usize = variants.len();
    let mut j: usize = 0;
    assert(errs@ =~= old(errs)@ + variants_errors(cat@, has_base, taken, views, 0));
    assert(reg@ =~= taken + variants_claims(views, 0));
    while j < n
        invariant
            n == variants@.len(),
            j <= n,
            views == variants_view(variants@),
            taken == invokable_names(o@.invokables, o@.invokables.len() as int),
            has_base == base_resolves(o@),
            resolves == has_base,
            reg@ == taken + variants_claims(views, j as int),
            errs@ == old(errs)@ + variants_errors(cat@, has_base, taken, views, j as int),
            variants_errors(cat@, has_base, taken, views, j as int).len() == 0 ==> out@.len() == j
                && forall|i: int|
                0 <= i < j ==> (#[trigger] out@[i])@ == variant_model(cat@, views[i]),
        decreases n - j,
    {
        let v = &variants[j];
        report(errs, v.inherit && !resolves, DiagKind::InheritWithoutBase, v.pos);
        let native = signal_name_for(v.name.as_str(), &v.cxx_name);
        let emitter = emitter_for(native.as_str());
        if rename_seen(variants, j) {
            report(errs, true, DiagKind::DuplicateRename, v.pos);
        } else {
            let hit = reg.claims(native.as_str()) || reg.claims(emitter.as_str());
            report(errs, hit, DiagKind::SignalNameCollision, v.pos);
        }
        claim_variant(&mut reg, v);
        let fields = resolve_fields(cat, &v.fields, errs);
        let kind = if v.inherit {
            SignalKind::Delegate
        } else {
            SignalKind::Define
        };
        out.push(
            SignalVariant { name: v.name.clone(), native_name: native, emitter, fields, kind },
        );
        assert(errs@ =~= old(errs)@ + variants_errors(cat@, has_base, taken, views, j as int + 1));
        assert(reg@ =~= taken + variants_claims(views, j as int + 1));
        j = j + 1;
    }
    assert(variants_errors(cat@, has_base, taken, views, n as int).len() == 0
        ==> variant_views(out@) =~= variants_model(cat@, views));
    out
}

fn resolve_signals(cat: &Catalogue, m: &RawModule, k: usize, errs: &mut Vec<Diagnostic>) -> (out:
    Option<SignalsDecl>)
    requires
        k < m.signals@.len(),
    ensures
        final(errs)@ == old(errs)@ + signals_errors(cat@, m@, k as int),
        signals_errors(cat@, m@, k as int).len() == 0 ==> out.is_some() && out.unwrap()@
            == signals_model(cat@, m@, m@.signals[k as int]),
{
    let s = &m.signals[k];
    match find_object(&m.objects, s.object.as_str()) {
        None => {
            report(errs, true, DiagKind::UnknownObject, s.pos);
            None
        },
        Some(i) => {
            let first = find_signals(&m.signals, s.object.as_str());
            let is_first = match first {
                Some(f) => f == k,
                None => false,
            };
            if !is_first {
                report(errs, true, DiagKind::DuplicateSignals, s.pos);
                None
            } else {
                let o = &m.objects[i];
                let variants = resolve_variants(cat, o, &s.variants, errs);
                let namespace = match &o.namespace {
                    Some(n) => n.clone(),
                    None => m.namespace.clone(),
                };
                Some(
                    SignalsDecl {
                        name: s.name.clone(),
                        object: s.object.clone(),
                        namespace,
                        variants,
                    },
                )
            }
        },
    }
}

/// The semantic pass over a module: every semantic and type error, and what
/// was built, which is the model where the module is complete and has none.
fn assemble(cat: &Catalogue, m: &RawModule) -> (out: (BridgeModule, Vec<Diagnostic>))
    ensures
        out.1@ == semantic_errors(cat@, m@),
        module_complete(m@) && semantic_errors(cat@, m@).len() == 0 ==> out.0@ == module_model(
            cat@,
            m@,
        ),
{
    let mut errs: Vec<Diagnostic> = Vec::new();
    let mut objects: Vec<ObjectDecl> = Vec::new();
    let no: usize = m.objects.len();
    let mut i: usize = 0;
    assert(errs@ =~= objects_errors(cat@, m@, 0));
    while i < no
        invariant
            no == m.objects@.len(),
            i <= no,
            errs@ == objects_errors(cat@, m@, i as int),
            module_complete(m@) && errs@.len() == 0 ==> objects@.len() == i && forall|j: int|
                0 <= j < i ==> (#[trigger] objects@[j])@ == object_model(cat@, m@, m@.objects[j]),
        decreases no - i,
    {
        let o = resolve_object(cat, m, i, &mut errs);
        objects.push(o);
        assert(module_complete(m@) ==> object_complete(m@.objects[i as int]));
        i = i + 1;
    }
    let ghost first = errs@;
    let mut signals: Vec<SignalsDecl> = Vec::new();
    let ns: usize = m.signals.len();
    let mut k: usize = 0;
    assert(errs@ =~= first + all_signals_errors(cat@, m@, 0));
    while k < ns
        invariant
            ns == m.signals@.len(),
            k <= ns,
            errs@ == first + all_signals_errors(cat@, m@, k as int),
            errs@.len() == 0 ==> signals@.len() == k && forall|j: int|
                0 <= j < k ==> (#[trigger] signals@[j])@ == signals_model(
                    cat@,
                    m@,
                    m@.signals[j],
                ),
        decreases ns - k,
    {
        match resolve_signals(cat, m, k, &mut errs) {
            Some(s) => {
                signals.push(s);
            },
            None => {},
        }
        assert(errs@ =~= first + all_signals_errors(cat@, m@, k as int + 1));
        k = k + 1;
    }
    let model = BridgeModule { namespace: m.namespace.clone(), objects, signals };
    assert(module_complete(m@) && errs@.len() == 0 ==> object_views(model.objects@)
        =~= objects_model(cat@, m@));
    assert(errs@.len() == 0 ==> signals_views(model.signals@) =~= all_signals_model(cat@, m@));
    (model, errs)
}

/// The semantic and type errors of a module, in the order of its
/// declarations: those of its objects, then those of its signals.
pub fn check(cat: &Catalogue, m: &RawModule) -> (errs: Vec<Diagnostic>)
    ensures
        errs@ == semantic_errors(cat@, m@),
{
    assemble(cat, m).1
}

/// Builds the typed model of a module.
///
/// The structure of the module is checked, every declaration is resolved
/// against the catalogue, and every member's names are checked against those
/// claimed before it in its object. Where anything is found, all of it is
/// returned, the faults of the structure first and the semantic and type
/// errors behind them, and no model.
pub fn build(cat: &Catalogue, m: &RawModule) -> (res: Result<BridgeModule, Vec<Diagnostic>>)
    ensures
        match res {
            Ok(model) => diagnostics(cat@, m@).len() == 0 && model@ == module_model(cat@, m@)
                && model_wf(model@),
            Err(all) => all@.len() > 0 && all@ == diagnostics(cat@, m@),
        },
{
    let mut all = validate(m);
    let (model, mut errs) = assemble(cat, m);
    if all.len() == 0 && errs.len() == 0 {
        proof {
            validated_module_is_complete(m@);
            built_model_is_valid(cat@, m@);
        }
        Ok(model)
    } else {
        all.append(&mut errs);
        Err(all)
    }
}

} // verus!
