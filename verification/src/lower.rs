//! From the typed model to what is emitted: the methods of each class, and
//! the glue declarations, in the order of the model's entries.

use vstd::prelude::*;
use vstd::string::*;
use crate::ir::{
    arg_views, class_views, glue_views, method_views, Arg, ArgView, Class, ClassView, GlueDecl,
    GlueDeclView, Method, MethodView, Role, Stmt, StmtView,
};
use crate::model::{
    field_views, property_views, signals_views, type_ref_opt, BridgeModule, BridgeModuleView, Field,
    FieldView, InvokableDecl, InvokableDeclView, Marshal, ObjectDecl, ObjectDeclView, PropertyDecl,
    PropertyDeclView, SignalKind, SignalVariant, SignalVariantView, SignalsDecl, SignalsDeclView,
    TypeRef, TypeRefView,
};
use crate::text::same_text;

verus! {

pub open spec fn arg_of(f: FieldView) -> ArgView {
    ArgView { name: f.name, rule: f.ty.marshal }
}

/// The fields as arguments, in their order.
pub open spec fn args_of(fields: Seq<FieldView>) -> Seq<ArgView> {
    Seq::new(fields.len(), |i: int| arg_of(fields[i]))
}

/// The object itself, handed to the Rust side.
pub open spec fn this_arg() -> ArgView {
    ArgView { name: "*this"@, rule: Marshal::Borrow }
}

/// The object itself, then the parameters in their order.
pub open spec fn forward_args(params: Seq<FieldView>) -> Seq<ArgView> {
    Seq::new(
        params.len() + 1,
        |i: int|
            if i == 0 {
                this_arg()
            } else {
                arg_of(params[i - 1])
            },
    )
}

/// The glue function behind the invokable `name`.
pub open spec fn wrapper_name(name: Seq<char>) -> Seq<char> {
    name + "Wrapper"@
}

/// The parameter of a setter.
pub open spec fn value_param(ty: TypeRefView) -> FieldView {
    FieldView { name: "value"@, ty }
}

pub open spec fn getter_method(p: PropertyDeclView) -> MethodView {
    MethodView {
        role: Role::Plain,
        name: p.getter,
        params: Seq::empty(),
        ret: Some(p.ty),
        is_const: true,
        body: Some(seq![StmtView::Load { field: p.name }]),
    }
}

/// The setter stores the value, then announces the change, once.
pub open spec fn setter_body(p: PropertyDeclView) -> Seq<StmtView> {
    seq![
        StmtView::Store { field: p.name, value: arg_of(value_param(p.ty)) },
        StmtView::Emit { signal: p.notify, args: Seq::empty() },
    ]
}

pub open spec fn setter_method(p: PropertyDeclView) -> MethodView {
    MethodView {
        role: Role::Slot,
        name: p.setter,
        params: seq![value_param(p.ty)],
        ret: None,
        is_const: false,
        body: Some(setter_body(p)),
    }
}

pub open spec fn notify_method(p: PropertyDeclView) -> MethodView {
    MethodView {
        role: Role::Signal,
        name: p.notify,
        params: Seq::empty(),
        ret: None,
        is_const: false,
        body: None,
    }
}

/// A property gives a getter, a setter and a change signal.
pub open spec fn property_methods(p: PropertyDeclView) -> Seq<MethodView> {
    seq![getter_method(p), setter_method(p), notify_method(p)]
}

pub open spec fn properties_methods(properties: Seq<PropertyDeclView>, n: int) -> Seq<MethodView>
    decreases n,
{
    if n <= 0 {
        Seq::empty()
    } else {
        properties_methods(properties, n - 1) + property_methods(properties[n - 1])
    }
}

/// An invokable gives a method that forwards to the Rust side.
pub open spec fn invokable_method(m: InvokableDeclView) -> MethodView {
    MethodView {
        role: Role::Invokable,
        name: m.name,
        params: m.params,
        ret: m.ret,
        is_const: m.is_const,
        body: Some(
            seq![
                StmtView::Forward {
                    function: wrapper_name(m.name),
                    args: forward_args(m.params),
                    yields: m.ret.is_some(),
                },
            ],
        ),
    }
}

pub open spec fn invokables_methods(invokables: Seq<InvokableDeclView>, n: int) -> Seq<MethodView>
    decreases n,
{
    if n <= 0 {
        Seq::empty()
    } else {
        invokables_methods(invokables, n - 1).push(invokable_method(invokables[n - 1]))
    }
}

/// The declaration of a signal that the class defines.
pub open spec fn signal_method(v: SignalVariantView) -> MethodView {
    MethodView {
        role: Role::Signal,
        name: v.native_name,
        params: v.fields,
        ret: None,
        is_const: false,
        body: None,
    }
}

/// What the emitter of a signal does: it emits the signal where the class
/// defines it, and calls the base class's method where it is inherited. Either
/// way the fields are passed on in their order.
pub open spec fn emitter_stmt(v: SignalVariantView) -> StmtView {
    match v.kind {
        SignalKind::Define => StmtView::Emit { signal: v.native_name, args: args_of(v.fields) },
        SignalKind::Delegate => StmtView::CallBase {
            method: v.native_name,
            args: args_of(v.fields),
        },
    }
}

pub open spec fn emitter_method(v: SignalVariantView) -> MethodView {
    MethodView {
        role: Role::Plain,
        name: v.emitter,
        params: v.fields,
        ret: None,
        is_const: false,
        body: Some(seq![emitter_stmt(v)]),
    }
}

/// A signal that the class defines gives its declaration and its emitter; an
/// inherited one gives the emitter alone.
pub open spec fn variant_methods(v: SignalVariantView) -> Seq<MethodView> {
    match v.kind {
        SignalKind::Define => seq![signal_method(v), emitter_method(v)],
        SignalKind::Delegate => seq![emitter_method(v)],
    }
}

pub open spec fn variants_methods(variants: Seq<SignalVariantView>, n: int) -> Seq<MethodView>
    decreases n,
{
    if n <= 0 {
        Seq::empty()
    } else {
        variants_methods(variants, n - 1) + variant_methods(variants[n - 1])
    }
}

/// The index of the first set of signals at or after `from` that belongs to
/// the object.
pub open spec fn signals_index(signals: Seq<SignalsDeclView>, object: Seq<char>, from: int)
    -> Option<int>
    decreases signals.len() - from,
{
    if from < 0 || from >= signals.len() {
        None
    } else if signals[from].object == object {
        Some(from)
    } else {
        signals_index(signals, object, from + 1)
    }
}

pub open spec fn signals_methods(signals: Seq<SignalsDeclView>, object: Seq<char>) -> Seq<
    MethodView,
> {
    match signals_index(signals, object, 0) {
        Some(k) => variants_methods(signals[k].variants, signals[k].variants.len() as int),
        None => Seq::empty(),
    }
}

/// The methods of a class: those of its properties, then its invokables, then
/// those of its signals.
pub open spec fn class_methods(m: BridgeModuleView, o: ObjectDeclView) -> Seq<MethodView> {
    properties_methods(o.properties, o.properties.len() as int) + invokables_methods(
        o.invokables,
        o.invokables.len() as int,
    ) + signals_methods(m.signals, o.name)
}

pub open spec fn base_of(o: ObjectDeclView) -> Seq<char> {
    match o.base {
        Some(b) => b,
        None => "QObject"@,
    }
}

pub open spec fn class_of(m: BridgeModuleView, o: ObjectDeclView) -> ClassView {
    ClassView {
        name: o.name,
        base: base_of(o),
        namespace: o.namespace,
        properties: o.properties,
        methods: class_methods(m, o),
    }
}

/// One class for each object, in the order of the objects.
pub open spec fn classes_of(m: BridgeModuleView) -> Seq<ClassView> {
    Seq::new(m.objects.len(), |i: int| class_of(m, m.objects[i]))
}

pub open spec fn invokable_glue(owner: Seq<char>, m: InvokableDeclView) -> GlueDeclView {
    GlueDeclView { owner, name: wrapper_name(m.name), params: m.params, ret: m.ret }
}

pub open spec fn variant_glue(owner: Seq<char>, v: SignalVariantView) -> GlueDeclView {
    GlueDeclView { owner, name: v.emitter, params: v.fields, ret: None }
}

pub open spec fn object_glue(o: ObjectDeclView, n: int) -> Seq<GlueDeclView>
    decreases n,
{
    if n <= 0 {
        Seq::empty()
    } else {
        object_glue(o, n - 1).push(invokable_glue(o.name, o.invokables[n - 1]))
    }
}

pub open spec fn objects_glue(objects: Seq<ObjectDeclView>, n: int) -> Seq<GlueDeclView>
    decreases n,
{
    if n <= 0 {
        Seq::empty()
    } else {
        objects_glue(objects, n - 1) + object_glue(
            objects[n - 1],
            objects[n - 1].invokables.len() as int,
        )
    }
}

pub open spec fn signals_glue(s: SignalsDeclView, n: int) -> Seq<GlueDeclView>
    decreases n,
{
    if n <= 0 {
        Seq::empty()
    } else {
        signals_glue(s, n - 1).push(variant_glue(s.object, s.variants[n - 1]))
    }
}

pub open spec fn all_signals_glue(signals: Seq<SignalsDeclView>, n: int) -> Seq<GlueDeclView>
    decreases n,
{
    if n <= 0 {
        Seq::empty()
    } else {
        all_signals_glue(signals, n - 1) + signals_glue(
            signals[n - 1],
            signals[n - 1].variants.len() as int,
        )
    }
}

/// One glue declaration for each invokable and each signal, in the order of
/// the model: the invokables object by object, then the signals set by set.
pub open spec fn glue_of(m: BridgeModuleView) -> Seq<GlueDeclView> {
    objects_glue(m.objects, m.objects.len() as int) + all_signals_glue(
        m.signals,
        m.signals.len() as int,
    )
}

fn copy_type(t: &TypeRef) -> (out: TypeRef)
    ensures
        out@ == t@,
{
    TypeRef {
        category: t.category,
        source: t.source.clone(),
        native: t.native.clone(),
        marshal: t.marshal,
    }
}

fn copy_type_opt(t: &Option<TypeRef>) -> (out: Option<TypeRef>)
    ensures
        type_ref_opt(out) == type_ref_opt(*t),
{
    match t {
        Some(r) => Some(copy_type(r)),
        None => None,
    }
}

fn copy_fields(fields: &Vec<Field>) -> (out: Vec<Field>)
    ensures
        field_views(out@) == field_views(fields@),
{
    let mut out: Vec<Field> = Vec::new();
    let n: usize = fields.len();
    let mut i: usize = 0;
    while i < n
        invariant
            n == fields@.len(),
            i <= n,
            out@.len() == i,
            forall|j: int| 0 <= j < i ==> (#[trigger] out@[j])@ == fields@[j]@,
        decreases n - i,
    {
        out.push(Field { name: fields[i].name.clone(), ty: copy_type(&fields[i].ty) });
        i = i + 1;
    }
    assert(field_views(out@) =~= field_views(fields@));
    out
}

fn copy_property(p: &PropertyDecl) -> (out: PropertyDecl)
    ensures
        out@ == p@,
{
    PropertyDecl {
        name: p.name.clone(),
        ty: copy_type(&p.ty),
        getter: p.getter.clone(),
        setter: p.setter.clone(),
        notify: p.notify.clone(),
    }
}

fn copy_properties(properties: &Vec<PropertyDecl>) -> (out: Vec<PropertyDecl>)
    ensures
        property_views(out@) == property_views(properties@),
{
    let mut out: Vec<PropertyDecl> = Vec::new();
    let n: usize = properties.len();
    let mut i: usize = 0;
    while i < n
        invariant
            n == properties@.len(),
            i <= n,
            out@.len() == i,
            forall|j: int| 0 <= j < i ==> (#[trigger] out@[j])@ == properties@[j]@,
        decreases n - i,
    {
        out.push(copy_property(&properties[i]));
        i = i + 1;
    }
    assert(property_views(out@) =~= property_views(properties@));
    out
}

fn args_for(fields: &Vec<Field>) -> (out: Vec<Arg>)
    ensures
        arg_views(out@) == args_of(field_views(fields@)),
{
    let mut out: Vec<Arg> = Vec::new();
    let n: usize = fields.len();
    let mut i: usize = 0;
    while i < n
        invariant
            n == fields@.len(),
            i <= n,
            out@.len() == i,
            forall|j: int| 0 <= j < i ==> (#[trigger] out@[j])@ == arg_of(fields@[j]@),
        decreases n - i,
    {
        out.push(Arg { name: fields[i].name.clone(), rule: fields[i].ty.marshal });
        i = i + 1;
    }
    assert(arg_views(out@) =~= args_of(field_views(fields@)));
    out
}

fn forward_args_for(params: &Vec<Field>) -> (out: Vec<Arg>)
    ensures
        arg_views(out@) == forward_args(field_views(params@)),
{
    let mut out: Vec<Arg> = Vec::new();
    out.push(Arg { name: String::from_str("*this"), rule: Marshal::Borrow });
    let n: usize = params.len();
    let mut i: usize = 0;
    while i < n
        invariant
            n == params@.len(),
            i <= n,
            out@.len() == i + 1,
            out@[0]@ == this_arg(),
            forall|j: int| 1 <= j <= i ==> (#[trigger] out@[j])@ == arg_of(params@[j - 1]@),
        decreases n - i,
    {
        out.push(Arg { name: params[i].name.clone(), rule: params[i].ty.marshal });
        i = i + 1;
    }
    assert(arg_views(out@) =~= forward_args(field_views(params@)));
    out
}

fn lower_getter(p: &PropertyDecl) -> (out: Method)
    ensures
        out@ == getter_method(p@),
{
    let mut body: Vec<Stmt> = Vec::new();
    body.push(Stmt::Load { field: p.name.clone() });
    let params: Vec<Field> = Vec::new();
    let out = Method {
        role: Role::Plain,
        name: p.getter.clone(),
        params,
        ret: Some(copy_type(&p.ty)),
        is_const: true,
        body: Some(body),
    };
    assert(out@.params =~= getter_method(p@).params);
    assert(out@.body.unwrap() =~= getter_method(p@).body.unwrap());
    out
}

fn lower_setter(p: &PropertyDecl) -> (out: Method)
    ensures
        out@ == setter_method(p@),
{
    let mut body: Vec<Stmt> = Vec::new();
    body.push(
        Stmt::Store {
            field: p.name.clone(),
            value: Arg { name: String::from_str("value"), rule: p.ty.marshal },
        },
    );
    let none: Vec<Arg> = Vec::new();
    assert(arg_views(none@) =~= Seq::<ArgView>::empty());
    body.push(Stmt::Emit { signal: p.notify.clone(), args: none });
    let mut params: Vec<Field> = Vec::new();
    params.push(Field { name: String::from_str("value"), ty: copy_type(&p.ty) });
    let out = Method {
        role: Role::Slot,
        name: p.setter.clone(),
        params,
        ret: None,
        is_const: false,
        body: Some(body),
    };
    assert(out@.params =~= setter_method(p@).params);
    assert(out@.body.unwrap() =~= setter_body(p@));
    out
}

fn lower_notify(p: &PropertyDecl) -> (out: Method)
    ensures
        out@ == notify_method(p@),
{
    let params: Vec<Field> = Vec::new();
    let out = Method {
        role: Role::Signal,
        name: p.notify.clone(),
        params,
        ret: None,
        is_const: false,
        body: None,
    };
    assert(out@.params =~= notify_method(p@).params);
    out
}

fn lower_invokable(m: &InvokableDecl) -> (out: Method)
    ensures
        out@ == invokable_method(m@),
{
    let mut function = m.name.clone();
    function.append("Wrapper");
    let mut body: Vec<Stmt> = Vec::new();
    body.push(
        Stmt::Forward { function, args: forward_args_for(&m.params), yields: m.ret.is_some() },
    );
    let out = Method {
        role: Role::Invokable,
        name: m.name.clone(),
        params: copy_fields(&m.params),
        ret: copy_type_opt(&m.ret),
        is_const: m.is_const,
        body: Some(body),
    };
    assert(out@.body.unwrap() =~= invokable_method(m@).body.unwrap());
    out
}

fn lower_signal(v: &SignalVariant) -> (out: Method)
    ensures
        out@ == signal_method(v@),
{
    Method {
        role: Role::Signal,
        name: v.native_name.clone(),
        params: copy_fields(&v.fields),
        ret: None,
        is_const: false,
        body: None,
    }
}

fn lower_emitter(v: &SignalVariant) -> (out: Method)
    ensures
        out@ == emitter_method(v@),
{
    let stmt = match v.kind {
        SignalKind::Define => Stmt::Emit {
            signal: v.native_name.clone(),
            args: args_for(&v.fields),
        },
        SignalKind::Delegate => Stmt::CallBase {
            method: v.native_name.clone(),
            args: args_for(&v.fields),
        },
    };
    let mut body: Vec<Stmt> = Vec::new();
    body.push(stmt);
    let out = Method {
        role: Role::Plain,
        name: v.emitter.clone(),
        params: copy_fields(&v.fields),
        ret: None,
        is_const: false,
        body: Some(body),
    };
    assert(out@.body.unwrap() =~= emitter_method(v@).body.unwrap());
    out
}

fn add_method(out: &mut Vec<Method>, m: Method)
    ensures
        method_views(final(out)@) == method_views(old(out)@).push(m@),
{
    out.push(m);
    assert(method_views(out@) =~= method_views(old(out)@).push(m@));
}

fn lower_property(out: &mut Vec<Method>, p: &PropertyDecl)
    ensures
        method_views(final(out)@) == method_views(old(out)@) + property_methods(p@),
{
    add_method(out, lower_getter(p));
    add_method(out, lower_setter(p));
    add_method(out, lower_notify(p));
    assert(method_views(out@) =~= method_views(old(out)@) + property_methods(p@));
}

fn lower_variant(out: &mut Vec<Method>, v: &SignalVariant)
    ensures
        method_views(final(out)@) == method_views(old(out)@) + variant_methods(v@),
{
    match v.kind {
        SignalKind::Define => {
            add_method(out, lower_signal(v));
        },
        SignalKind::Delegate => {},
    }
    add_method(out, lower_emitter(v));
    assert(method_views(out@) =~= method_views(old(out)@) + variant_methods(v@));
}

/// The first set of signals of the model that belongs to the object.
pub fn signals_for(signals: &Vec<SignalsDecl>, object: &str) -> (found: Option<usize>)
    ensures
        match found {
            Some(k) => signals_index(signals_views(signals@), object@, 0) == Some(k as int) && k
                < signals@.len(),
            None => signals_index(signals_views(signals@), object@, 0).is_none(),
        },
{
    let ghost views = signals_views(signals@);
    let n: usize = signals.len();
    let mut i: usize = 0;
    while i < n
        invariant
            n == signals@.len(),
            i <= n,
            views == signals_views(signals@),
            signals_index(views, object@, 0) == signals_index(views, object@, i as int),
        decreases n - i,
    {
        if same_text(signals[i].object.as_str(), object) {
            return Some(i);
        }
        i = i + 1;
    }
    None
}

/// The class that an object of the model gives.
pub fn lower_class(m: &BridgeModule, o: &ObjectDecl) -> (out: Class)
    ensures
        out@ == class_of(m@, o@),
{
    let mut methods: Vec<Method> = Vec::new();
    assert(method_views(methods@) =~= Seq::<MethodView>::empty());
    let np: usize = o.properties.len();
    let mut i: usize = 0;
    assert(method_views(methods@) =~= properties_methods(o@.properties, 0));
    while i < np
        invariant
            np == o.properties@.len(),
            i <= np,
            method_views(methods@) == properties_methods(o@.properties, i as int),
        decreases np - i,
    {
        lower_property(&mut methods, &o.properties[i]);
        i = i + 1;
    }
    let ghost first = method_views(methods@);
    let ni: usize = o.invokables.len();
    let mut j: usize = 0;
    assert(method_views(methods@) =~= first + invokables_methods(o@.invokables, 0));
    while j < ni
        invariant
            ni == o.invokables@.len(),
            j <= ni,
            method_views(methods@) == first + invokables_methods(o@.invokables, j as int),
        decreases ni - j,
    {
        add_method(&mut methods, lower_invokable(&o.invokables[j]));
        assert(method_views(methods@) =~= first + invokables_methods(o@.invokables, j as int + 1));
        j = j + 1;
    }
    let ghost second = method_views(methods@);
    match signals_for(&m.signals, o.name.as_str()) {
        Some(k) => {
            let s = &m.signals[k];
            let nv: usize = s.variants.len();
            let mut v: usize = 0;
            assert(method_views(methods@) =~= second + variants_methods(s@.variants, 0));
            while v < nv
                invariant
                    nv == s.variants@.len(),
                    v <= nv,
                    method_views(methods@) == second + variants_methods(s@.variants, v as int),
                decreases nv - v,
            {
                lower_variant(&mut methods, &s.variants[v]);
                assert(method_views(methods@) =~= second + variants_methods(
                    s@.variants,
                    v as int + 1,
                ));
                v = v + 1;
            }
        },
        None => {
            assert(method_views(methods@) =~= second + Seq::<MethodView>::empty());
        },
    }
    let base = match &o.base {
        Some(b) => b.clone(),
        None => String::from_str("QObject"),
    };
    Class {
        name: o.name.clone(),
        base,
        namespace: o.namespace.clone(),
        properties: copy_properties(&o.properties),
        methods,
    }
}

/// The classes of a model, one for each object.
pub fn lower_classes(m: &BridgeModule) -> (out: Vec<Class>)
    ensures
        class_views(out@) == classes_of(m@),
{
    let mut out: Vec<Class> = Vec::new();
    let n: usize = m.objects.len();
    let mut i: usize = 0;
    while i < n
        invariant
            n == m.objects@.len(),
            i <= n,
            out@.len() == i,
            forall|j: int| 0 <= j < i ==> (#[trigger] out@[j])@ == class_of(m@, m@.objects[j]),
        decreases n - i,
    {
        out.push(lower_class(m, &m.objects[i]));
        i = i + 1;
    }
    assert(class_views(out@) =~= classes_of(m@));
    out
}

fn add_glue(out: &mut Vec<GlueDecl>, g: GlueDecl)
    ensures
        glue_views(final(out)@) == glue_views(old(out)@).push(g@),
{
    out.push(g);
    assert(glue_views(out@) =~= glue_views(old(out)@).push(g@));
}

fn lower_object_glue(out: &mut Vec<GlueDecl>, o: &ObjectDecl)
    ensures
        glue_views(final(out)@) == glue_views(old(out)@) + object_glue(
            o@,
            o@.invokables.len() as int,
        ),
{
    let ghost start = glue_views(out@);
    let n: usize = o.invokables.len();
    let mut i: usize = 0;
    assert(glue_views(out@) =~= start + object_glue(o@, 0));
    while i < n
        invariant
            n == o.invokables@.len(),
            i <= n,
            glue_views(out@) == start + object_glue(o@, i as int),
        decreases n - i,
    {
        let m = &o.invokables[i];
        let mut name = m.name.clone();
        name.append("Wrapper");
        add_glue(
            out,
            GlueDecl {
                owner: o.name.clone(),
                name,
                params: copy_fields(&m.params),
                ret: copy_type_opt(&m.ret),
            },
        );
        assert(glue_views(out@) =~= start + object_glue(o@, i as int + 1));
        i = i + 1;
    }
}

fn lower_signals_glue(out: &mut Vec<GlueDecl>, s: &SignalsDecl)
    ensures
        glue_views(final(out)@) == glue_views(old(out)@) + signals_glue(
            s@,
            s@.variants.len() as int,
        ),
{
    let ghost start = glue_views(out@);
    let n: usize = s.variants.len();
    let mut i: usize = 0;
    assert(glue_views(out@) =~= start + signals_glue(s@, 0));
    while i < n
        invariant
            n == s.variants@.len(),
            i <= n,
            glue_views(out@) == start + signals_glue(s@, i as int),
        decreases n - i,
    {
        let v = &s.variants[i];
        add_glue(
            out,
            GlueDecl {
                owner: s.object.clone(),
                name: v.emitter.clone(),
                params: copy_fields(&v.fields),
                ret: None,
            },
        );
        assert(glue_views(out@) =~= start + signals_glue(s@, i as int + 1));
        i = i + 1;
    }
}

/// The glue declarations of a model, in the order of its entries.
pub fn lower_glue(m: &BridgeModule) -> (out: Vec<GlueDecl>)
    ensures
        glue_views(out@) == glue_of(m@),
{
    let mut out: Vec<GlueDecl> = Vec::new();
    let no: usize = m.objects.len();
    let mut i: usize = 0;
    assert(glue_views(out@) =~= objects_glue(m@.objects, 0));
    while i < no
        invariant
            no == m.objects@.len(),
            i <= no,
            glue_views(out@) == objects_glue(m@.objects, i as int),
        decreases no - i,
    {
        lower_object_glue(&mut out, &m.objects[i]);
        i = i + 1;
    }
    let ghost first = glue_views(out@);
    let ns: usize = m.signals.len();
    let mut k: usize = 0;
    assert(glue_views(out@) =~= first + all_signals_glue(m@.signals, 0));
    while k < ns
        invariant
            ns == m.signals@.len(),
            k <= ns,
            glue_views(out@) == first + all_signals_glue(m@.signals, k as int),
        decreases ns - k,
    {
        lower_signals_glue(&mut out, &m.signals[k]);
        assert(glue_views(out@) =~= first + all_signals_glue(m@.signals, k as int + 1));
        k = k + 1;
    }
    out
}

} // verus!
