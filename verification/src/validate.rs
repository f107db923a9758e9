//! The structural checks on a module as written: every declaration is looked
//! at, and every fault is reported, in the order of the declarations.

use vstd::prelude::*;
use crate::decl::{
    fields_view, text_opt, RawField, RawFieldView, RawInvokable, RawInvokableView, RawModule,
    RawModuleView, RawObject, RawObjectView, RawProperty, RawPropertyView, RawSignals,
    RawSignalsView, RawVariant, RawVariantView,
};
use crate::diag::{only_if, report, DiagKind, Diagnostic, Pos};
use crate::text::{is_ident, is_identifier, same_text};

verus! {

pub open spec fn name_faults(name: Seq<char>, pos: Pos) -> Seq<Diagnostic> {
    only_if(!is_ident(name), DiagKind::MalformedName, pos)
}

pub open spec fn opt_name_faults(name: Option<Seq<char>>, pos: Pos) -> Seq<Diagnostic> {
    match name {
        Some(n) => name_faults(n, pos),
        None => Seq::empty(),
    }
}

/// Whether an earlier field has the name of field `j`.
pub open spec fn name_repeated(fields: Seq<RawFieldView>, j: int) -> bool {
    exists|i: int| 0 <= i < j && (#[trigger] fields[i]).name == fields[j].name
}

pub open spec fn field_faults(fields: Seq<RawFieldView>, j: int) -> Seq<Diagnostic> {
    name_faults(fields[j].name, fields[j].pos) + only_if(
        name_repeated(fields, j),
        DiagKind::DuplicateField,
        fields[j].pos,
    )
}

/// The faults of the first `n` fields.
pub open spec fn fields_faults(fields: Seq<RawFieldView>, n: int) -> Seq<Diagnostic>
    decreases n,
{
    if n <= 0 {
        Seq::empty()
    } else {
        fields_faults(fields, n - 1) + field_faults(fields, n - 1)
    }
}

pub open spec fn variant_faults(v: RawVariantView) -> Seq<Diagnostic> {
    name_faults(v.name, v.pos) + opt_name_faults(v.cxx_name, v.pos) + fields_faults(
        v.fields,
        v.fields.len() as int,
    )
}

pub open spec fn variants_faults(variants: Seq<RawVariantView>, n: int) -> Seq<Diagnostic>
    decreases n,
{
    if n <= 0 {
        Seq::empty()
    } else {
        variants_faults(variants, n - 1) + variant_faults(variants[n - 1])
    }
}

pub open spec fn signals_faults(s: RawSignalsView) -> Seq<Diagnostic> {
    name_faults(s.name, s.pos) + variants_faults(s.variants, s.variants.len() as int)
}

pub open spec fn property_faults(p: RawPropertyView) -> Seq<Diagnostic> {
    name_faults(p.name, p.pos) + only_if(p.ty.is_none(), DiagKind::PropertyWithoutType, p.pos)
}

pub open spec fn properties_faults(properties: Seq<RawPropertyView>, n: int) -> Seq<Diagnostic>
    decreases n,
{
    if n <= 0 {
        Seq::empty()
    } else {
        properties_faults(properties, n - 1) + property_faults(properties[n - 1])
    }
}

pub open spec fn invokable_faults(m: RawInvokableView) -> Seq<Diagnostic> {
    name_faults(m.name, m.pos) + only_if(
        m.receiver.is_none(),
        DiagKind::UnresolvedReceiver,
        m.pos,
    ) + fields_faults(m.params, m.params.len() as int)
}

pub open spec fn invokables_faults(invokables: Seq<RawInvokableView>, n: int) -> Seq<Diagnostic>
    decreases n,
{
    if n <= 0 {
        Seq::empty()
    } else {
        invokables_faults(invokables, n - 1) + invokable_faults(invokables[n - 1])
    }
}

pub open spec fn object_faults(o: RawObjectView) -> Seq<Diagnostic> {
    name_faults(o.name, o.pos) + opt_name_faults(o.base, o.pos) + properties_faults(
        o.properties,
        o.properties.len() as int,
    ) + invokables_faults(o.invokables, o.invokables.len() as int)
}

pub open spec fn objects_faults(objects: Seq<RawObjectView>, n: int) -> Seq<Diagnostic>
    decreases n,
{
    if n <= 0 {
        Seq::empty()
    } else {
        objects_faults(objects, n - 1) + object_faults(objects[n - 1])
    }
}

pub open spec fn all_signals_faults(signals: Seq<RawSignalsView>, n: int) -> Seq<Diagnostic>
    decreases n,
{
    if n <= 0 {
        Seq::empty()
    } else {
        all_signals_faults(signals, n - 1) + signals_faults(signals[n - 1])
    }
}

/// Every structural fault of the module: those of its objects, then those of
/// its signals.
pub open spec fn structure_faults(m: RawModuleView) -> Seq<Diagnostic> {
    objects_faults(m.objects, m.objects.len() as int) + all_signals_faults(
        m.signals,
        m.signals.len() as int,
    )
}

fn check_name(out: &mut Vec<Diagnostic>, name: &str, pos: Pos)
    ensures
        final(out)@ == old(out)@ + name_faults(name@, pos),
{
    let ok = is_identifier(name);
    report(out, !ok, DiagKind::MalformedName, pos);
}

fn check_opt_name(out: &mut Vec<Diagnostic>, name: &Option<String>, pos: Pos)
    ensures
        final(out)@ == old(out)@ + opt_name_faults(text_opt(*name), pos),
{
    match name {
        Some(n) => check_name(out, n.as_str(), pos),
        None => {
            assert(out@ =~= old(out)@ + Seq::<Diagnostic>::empty());
        },
    }
}

fn repeats(fields: &Vec<RawField>, j: usize) -> (found: bool)
    requires
        j < fields@.len(),
    ensures
        found == name_repeated(fields_view(fields@), j as int),
{
    let ghost views = fields_view(fields@);
    let mut i: usize = 0;
    while i < j
        invariant
            j < fields@.len(),
            i <= j,
            views == fields_view(fields@),
            forall|k: int| 0 <= k < i ==> (#[trigger] views[k]).name != views[j as int].name,
        decreases j - i,
    {
        if same_text(fields[i].name.as_str(), fields[j].name.as_str()) {
            assert(views[i as int].name == views[j as int].name);
            return true;
        }
        i = i + 1;
    }
    false
}

fn check_fields(out: &mut Vec<Diagnostic>, fields: &Vec<RawField>)
    ensures
        final(out)@ == old(out)@ + fields_faults(
            fields_view(fields@),
            fields@.len() as int,
        ),
{
    let ghost views = fields_view(fields@);
    let n: usize = fields.len();
    let mut j: usize = 0;
    assert(out@ =~= old(out)@ + fields_faults(views, 0));
    while j < n
        invariant
            n == fields@.len(),
            j <= n,
            views == fields_view(fields@),
            out@ == old(out)@ + fields_faults(views, j as int),
        decreases n - j,
    {
        check_name(out, fields[j].name.as_str(), fields[j].pos);
        let dup = repeats(fields, j);
        report(out, dup, DiagKind::DuplicateField, fields[j].pos);
        assert(out@ =~= old(out)@ + fields_faults(views, j as int + 1));
        j = j + 1;
    }
}

fn check_variant(out: &mut Vec<Diagnostic>, v: &RawVariant)
    ensures
        final(out)@ == old(out)@ + variant_faults(v@),
{
    check_name(out, v.name.as_str(), v.pos);
    check_opt_name(out, &v.cxx_name, v.pos);
    check_fields(out, &v.fields);
    assert(out@ =~= old(out)@ + variant_faults(v@));
}

fn check_signals(out: &mut Vec<Diagnostic>, s: &RawSignals)
    ensures
        final(out)@ == old(out)@ + signals_faults(s@),
{
    check_name(out, s.name.as_str(), s.pos);
    let n: usize = s.variants.len();
    let mut i: usize = 0;
    let ghost start = out@;
    assert(out@ =~= start + variants_faults(s@.variants, 0));
    while i < n
        invariant
            n == s.variants@.len(),
            i <= n,
            out@ == start + variants_faults(s@.variants, i as int),
        decreases n - i,
    {
        check_variant(out, &s.variants[i]);
        assert(out@ =~= start + variants_faults(s@.variants, i as int + 1));
        i = i + 1;
    }
    assert(out@ =~= old(out)@ + signals_faults(s@));
}

fn check_property(out: &mut Vec<Diagnostic>, p: &RawProperty)
    ensures
        final(out)@ == old(out)@ + property_faults(p@),
{
    check_name(out, p.name.as_str(), p.pos);
    report(out, p.ty.is_none(), DiagKind::PropertyWithoutType, p.pos);
    assert(out@ =~= old(out)@ + property_faults(p@));
}

fn check_invokable(out: &mut Vec<Diagnostic>, m: &RawInvokable)
    ensures
        final(out)@ == old(out)@ + invokable_faults(m@),
{
    check_name(out, m.name.as_str(), m.pos);
    report(out, m.receiver.is_none(), DiagKind::UnresolvedReceiver, m.pos);
    check_fields(out, &m.params);
    assert(out@ =~= old(out)@ + invokable_faults(m@));
}

fn check_object(out: &mut Vec<Diagnostic>, o: &RawObject)
    ensures
        final(out)@ == old(out)@ + object_faults(o@),
{
    check_name(out, o.name.as_str(), o.pos);
    check_opt_name(out, &o.base, o.pos);
    let ghost start = out@;
    let np: usize = o.properties.len();
    let mut i: usize = 0;
    assert(out@ =~= start + properties_faults(o@.properties, 0));
    while i < np
        invariant
            np == o.properties@.len(),
            i <= np,
            out@ == start + properties_faults(o@.properties, i as int),
        decreases np - i,
    {
        check_property(out, &o.properties[i]);
        assert(out@ =~= start + properties_faults(o@.properties, i as int + 1));
        i = i + 1;
    }
    let ghost middle = out@;
    let ni: usize = o.invokables.len();
    let mut k: usize = 0;
    assert(out@ =~= middle + invokables_faults(o@.invokables, 0));
    while k < ni
        invariant
            ni == o.invokables@.len(),
            k <= ni,
            out@ == middle + invokables_faults(o@.invokables, k as int),
        decreases ni - k,
    {
        check_invokable(out, &o.invokables[k]);
        assert(out@ =~= middle + invokables_faults(o@.invokables, k as int + 1));
        k = k + 1;
    }
    assert(out@ =~= old(out)@ + object_faults(o@));
}

/// Checks the structure of a module and returns every fault found: a name
/// that is no identifier, a property without a type, an invokable whose
/// receiver is in no accepted form, a field whose name an earlier field of
/// the same variant or parameter list has.
pub fn validate(m: &RawModule) -> (faults: Vec<Diagnostic>)
    ensures
        faults@ == structure_faults(m@),
{
    let mut out: Vec<Diagnostic> = Vec::new();
    let no: usize = m.objects.len();
    let mut i: usize = 0;
    assert(out@ =~= objects_faults(m@.objects, 0));
    while i < no
        invariant
            no == m.objects@.len(),
            i <= no,
            out@ == objects_faults(m@.objects, i as int),
        decreases no - i,
    {
        check_object(&mut out, &m.objects[i]);
        i = i + 1;
    }
    let ghost middle = out@;
    let ns: usize = m.signals.len();
    let mut k: usize = 0;
    assert(out@ =~= middle + all_signals_faults(m@.signals, 0));
    while k < ns
        invariant
            ns == m.signals@.len(),
            k <= ns,
            out@ == middle + all_signals_faults(m@.signals, k as int),
        decreases ns - k,
    {
        check_signals(&mut out, &m.signals[k]);
        assert(out@ =~= middle + all_signals_faults(m@.signals, k as int + 1));
        k = k + 1;
    }
    out
}

} // verus!
