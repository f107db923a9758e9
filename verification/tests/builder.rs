use qt_bridge_gen::builder::{build, check, find_object, find_signals};
use qt_bridge_gen::catalogue::Catalogue;
use qt_bridge_gen::decl::{
    RawField, RawInvokable, RawModule, RawObject, RawProperty, RawSignals, RawVariant, Receiver,
    TypeExpr, TypeShape,
};
use qt_bridge_gen::diag::{DiagKind, Diagnostic, Pos};
use qt_bridge_gen::model::{Category, Construction, Marshal, SignalKind};
use qt_bridge_gen::validate::validate;

fn at(line: u32) -> Pos {
    Pos { line, column: 1 }
}

fn d(kind: DiagKind, line: u32) -> Diagnostic {
    Diagnostic::new(kind, at(line))
}

fn qt() -> Catalogue {
    let mut cat = Catalogue::new();
    cat.add("QPoint", "QPoint", Marshal::Copy);
    cat.add("QString", "QString", Marshal::Copy);
    cat.add("QModel", "QAbstractItemModel", Marshal::Transfer);
    cat
}

fn ty(shape: TypeShape, name: &str) -> TypeExpr {
    TypeExpr { shape, name: name.to_string() }
}

fn field(name: &str, shape: TypeShape, named: &str, line: u32) -> RawField {
    RawField { name: name.to_string(), ty: ty(shape, named), cxx_type: None, pos: at(line) }
}

fn property(name: &str, named: &str, line: u32) -> RawProperty {
    RawProperty {
        name: name.to_string(),
        ty: Some(ty(TypeShape::Plain, named)),
        cxx_type: None,
        pos: at(line),
    }
}

fn invokable(name: &str, receiver: Receiver, line: u32) -> RawInvokable {
    RawInvokable {
        name: name.to_string(),
        receiver: Some(receiver),
        params: vec![],
        ret: None,
        pos: at(line),
    }
}

fn variant(name: &str, rename: Option<&str>, inherit: bool, line: u32) -> RawVariant {
    RawVariant {
        name: name.to_string(),
        fields: vec![],
        cxx_name: rename.map(|r| r.to_string()),
        inherit,
        pos: at(line),
    }
}

fn object(name: &str, base: Option<&str>, line: u32) -> RawObject {
    RawObject {
        name: name.to_string(),
        base: base.map(|b| b.to_string()),
        namespace: None,
        properties: vec![],
        invokables: vec![],
        default_constructed: true,
        pos: at(line),
    }
}

fn signals(object: &str, variants: Vec<RawVariant>, line: u32) -> RawSignals {
    RawSignals { name: "Signals".to_string(), object: object.to_string(), variants, pos: at(line) }
}

fn module(objects: Vec<RawObject>, signals: Vec<RawSignals>) -> RawModule {
    RawModule { namespace: "app".to_string(), objects, signals }
}

#[test]
fn empty_module_builds_an_empty_model() {
    let model = build(&qt(), &module(vec![], vec![])).expect("no errors");
    assert_eq!(model.namespace, "app");
    assert!(model.objects.is_empty());
    assert!(model.signals.is_empty());
}

#[test]
fn property_gets_its_three_names_from_its_name() {
    let mut o = object("Data", None, 1);
    o.properties.push(property("number", "i32", 2));
    let model = build(&qt(), &module(vec![o], vec![])).expect("no errors");
    let p = &model.objects[0].properties[0];
    assert_eq!(p.name, "number");
    assert_eq!(p.getter, "getNumber");
    assert_eq!(p.setter, "setNumber");
    assert_eq!(p.notify, "numberChanged");
    assert_eq!(p.ty.native, "qint32");
    assert_eq!(p.ty.category, Category::Primitive);
    assert_eq!(p.ty.marshal, Marshal::Copy);
}

#[test]
fn object_takes_the_module_namespace_unless_it_has_its_own() {
    let plain = object("A", None, 1);
    let mut own = object("B", None, 2);
    own.namespace = Some("other".to_string());
    own.default_constructed = false;
    let s = signals("B", vec![variant("Ready", None, false, 4)], 3);
    let model = build(&qt(), &module(vec![plain, own], vec![s])).expect("no errors");
    assert_eq!(model.objects[0].namespace, "app");
    assert_eq!(model.objects[0].construction, Construction::Default);
    assert_eq!(model.objects[1].namespace, "other");
    assert_eq!(model.objects[1].construction, Construction::Provided);
    assert_eq!(model.signals[0].namespace, "other");
    assert_eq!(model.signals[0].object, "B");
}

#[test]
fn receiver_decides_mutability_and_constness() {
    let mut o = object("A", None, 1);
    o.invokables.push(invokable("by_value", Receiver::Value, 2));
    o.invokables.push(invokable("shared", Receiver::Shared, 3));
    o.invokables.push(invokable("exclusive", Receiver::Exclusive, 4));
    let model = build(&qt(), &module(vec![o], vec![])).expect("no errors");
    let got: Vec<(bool, bool)> =
        model.objects[0].invokables.iter().map(|m| (m.mutates, m.is_const)).collect();
    assert_eq!(got, vec![(false, false), (false, true), (true, false)]);
}

#[test]
fn signal_name_is_the_rename_or_the_lowered_variant_name() {
    let o = object("A", Some("Base"), 1);
    let s = signals(
        "A",
        vec![
            variant("DataChanged", None, false, 3),
            variant("BaseClassNewData", Some("newData"), true, 4),
            variant("Other", Some("Renamed"), false, 5),
        ],
        2,
    );
    let model = build(&qt(), &module(vec![o], vec![s])).expect("no errors");
    let v = &model.signals[0].variants;
    assert_eq!(v[0].native_name, "dataChanged");
    assert_eq!(v[0].emitter, "emitDataChanged");
    assert_eq!(v[0].kind, SignalKind::Define);
    assert_eq!(v[1].native_name, "newData");
    assert_eq!(v[1].emitter, "emitNewData");
    assert_eq!(v[1].kind, SignalKind::Delegate);
    assert_eq!(v[2].native_name, "Renamed");
    assert_eq!(v[2].emitter, "emitRenamed");
    assert_eq!(v[2].kind, SignalKind::Define);
}

#[test]
fn inherited_signal_is_valid_without_a_named_base() {
    let o = object("A", None, 1);
    let s = signals("A", vec![variant("NewData", None, true, 3)], 2);
    let module = module(vec![o], vec![s]);
    assert_eq!(check(&qt(), &module), vec![]);
    let model = build(&qt(), &module).expect("no errors");
    assert_eq!(model.objects[0].base, None);
    let v = &model.signals[0].variants[0];
    assert_eq!(v.kind, SignalKind::Delegate);
    assert_eq!(v.native_name, "newData");
    assert_eq!(v.emitter, "emitNewData");
}

#[test]
fn inherited_signal_needs_a_base_that_resolves() {
    let o = object("A", Some("not a name"), 1);
    let s = signals(
        "A",
        vec![variant("NewData", None, true, 3), variant("Ready", None, false, 4)],
        2,
    );
    let module = module(vec![o], vec![s]);
    assert_eq!(check(&qt(), &module), vec![d(DiagKind::InheritWithoutBase, 3)]);
    assert_eq!(
        build(&qt(), &module),
        Err(vec![d(DiagKind::MalformedName, 1), d(DiagKind::InheritWithoutBase, 3)])
    );
}

#[test]
fn signals_of_an_unknown_object_are_an_error() {
    let o = object("A", None, 1);
    let s = signals("B", vec![variant("Ready", None, true, 3)], 2);
    assert_eq!(build(&qt(), &module(vec![o], vec![s])), Err(vec![d(DiagKind::UnknownObject, 2)]));
}

#[test]
fn second_set_of_signals_for_an_object_is_an_error() {
    let o = object("A", None, 1);
    let first = signals("A", vec![variant("Ready", None, false, 3)], 2);
    let second = signals("A", vec![variant("Done", None, false, 5)], 4);
    assert_eq!(
        build(&qt(), &module(vec![o], vec![first, second])),
        Err(vec![d(DiagKind::DuplicateSignals, 4)])
    );
}

#[test]
fn two_signals_of_one_name_collide_at_the_later() {
    let o = object("A", None, 1);
    let s = signals(
        "A",
        vec![
            variant("Ready", None, false, 3),
            variant("ready", None, false, 4),
            variant("Other", Some("ready"), false, 5),
        ],
        2,
    );
    assert_eq!(
        build(&qt(), &module(vec![o], vec![s])),
        Err(vec![d(DiagKind::SignalNameCollision, 4), d(DiagKind::SignalNameCollision, 5)])
    );
}

#[test]
fn signals_whose_emitters_share_a_name_collide() {
    let o = object("A", None, 1);
    let s = signals(
        "A",
        vec![variant("A", Some("done"), false, 3), variant("B", Some("Done"), false, 4)],
        2,
    );
    assert_eq!(
        build(&qt(), &module(vec![o], vec![s])),
        Err(vec![d(DiagKind::SignalNameCollision, 4)])
    );
}

#[test]
fn repeated_rename_is_reported_as_such() {
    let o = object("A", None, 1);
    let s = signals(
        "A",
        vec![variant("A", Some("done"), false, 3), variant("B", Some("done"), false, 4)],
        2,
    );
    assert_eq!(
        build(&qt(), &module(vec![o], vec![s])),
        Err(vec![d(DiagKind::DuplicateRename, 4)])
    );
}

#[test]
fn signal_named_like_an_invokable_collides() {
    let mut o = object("A", None, 1);
    o.invokables.push(invokable("refresh", Receiver::Shared, 2));
    let s = signals("A", vec![variant("Refresh", None, false, 4)], 3);
    assert_eq!(
        build(&qt(), &module(vec![o], vec![s])),
        Err(vec![d(DiagKind::SignalNameCollision, 4)])
    );
}

#[test]
fn property_named_like_an_invokable_collides() {
    let mut o = object("A", None, 1);
    o.properties.push(property("refresh", "i32", 2));
    o.properties.push(property("fine", "i32", 3));
    o.invokables.push(invokable("refresh", Receiver::Shared, 4));
    assert_eq!(
        build(&qt(), &module(vec![o], vec![])),
        Err(vec![d(DiagKind::PropertyNameCollision, 2)])
    );
}

#[test]
fn property_named_like_a_signal_collides() {
    let mut o = object("A", None, 1);
    o.properties.push(property("ready", "i32", 2));
    let s = signals("A", vec![variant("Ready", None, false, 4)], 3);
    assert_eq!(
        build(&qt(), &module(vec![o], vec![s])),
        Err(vec![d(DiagKind::PropertyNameCollision, 2)])
    );
}

#[test]
fn property_whose_accessor_is_taken_collides() {
    let mut o = object("A", None, 1);
    o.properties.push(property("number", "i32", 2));
    o.invokables.push(invokable("setNumber", Receiver::Exclusive, 3));
    let mut other = object("B", None, 4);
    other.properties.push(property("number", "i32", 5));
    let s = signals("B", vec![variant("NumberChanged", None, false, 7)], 6);
    assert_eq!(
        build(&qt(), &module(vec![o, other], vec![s])),
        Err(vec![d(DiagKind::PropertyNameCollision, 2), d(DiagKind::PropertyNameCollision, 5)])
    );
}

#[test]
fn properties_that_differ_only_in_their_first_letter_collide() {
    let mut o = object("A", None, 1);
    o.properties.push(property("number", "i32", 2));
    o.properties.push(property("Number", "i32", 3));
    o.properties.push(property("number", "i64", 4));
    assert_eq!(
        build(&qt(), &module(vec![o], vec![])),
        Err(vec![d(DiagKind::PropertyNameCollision, 3), d(DiagKind::PropertyNameCollision, 4)])
    );
}

#[test]
fn same_names_in_two_objects_do_not_collide() {
    let mut a = object("A", None, 1);
    a.properties.push(property("number", "i32", 2));
    a.invokables.push(invokable("run", Receiver::Shared, 3));
    let mut b = object("B", None, 4);
    b.properties.push(property("number", "i32", 5));
    b.invokables.push(invokable("run", Receiver::Shared, 6));
    assert!(build(&qt(), &module(vec![a, b], vec![])).is_ok());
}

#[test]
fn type_errors_carry_the_place_of_their_declaration() {
    let mut o = object("A", None, 1);
    o.properties.push(property("p", "Unknown", 2));
    let mut m = invokable("run", Receiver::Shared, 3);
    m.params.push(field("a", TypeShape::Borrowed, "QModel", 4));
    m.params.push(field("b", TypeShape::Plain, "i32", 5));
    m.ret = Some(ty(TypeShape::Plain, "Nothing"));
    o.invokables.push(m);
    let mut v = variant("Changed", None, false, 7);
    v.fields.push(RawField {
        name: "x".to_string(),
        ty: ty(TypeShape::Owned, "QObjectRef"),
        cxx_type: None,
        pos: at(8),
    });
    let mut cat = qt();
    cat.add("QObjectRef", "QObject", Marshal::Borrow);
    assert_eq!(
        build(&cat, &module(vec![o], vec![signals("A", vec![v], 6)])),
        Err(vec![
            d(DiagKind::BorrowOfOwned, 4),
            d(DiagKind::UnsupportedType, 3),
            d(DiagKind::UnsupportedType, 2),
            d(DiagKind::OwnedOfBorrowed, 8),
        ])
    );
}

#[test]
fn missing_type_and_receiver_are_faults_and_no_errors() {
    let mut o = object("A", None, 1);
    o.properties.push(RawProperty { name: "p".to_string(), ty: None, cxx_type: None, pos: at(2) });
    o.invokables.push(RawInvokable {
        name: "run".to_string(),
        receiver: None,
        params: vec![],
        ret: None,
        pos: at(3),
    });
    let module = module(vec![o], vec![]);
    assert_eq!(check(&qt(), &module), vec![]);
    assert_eq!(
        build(&qt(), &module),
        Err(vec![d(DiagKind::PropertyWithoutType, 2), d(DiagKind::UnresolvedReceiver, 3)])
    );
}

#[test]
fn build_gives_the_faults_and_then_the_errors() {
    let mut o = object("A", None, 1);
    o.properties.push(RawProperty { name: "p".to_string(), ty: None, cxx_type: None, pos: at(2) });
    o.properties.push(property("q", "Unknown", 3));
    let mut run = invokable("run", Receiver::Shared, 4);
    run.receiver = None;
    run.params.push(field("a", TypeShape::Borrowed, "QModel", 5));
    o.invokables.push(run);
    o.invokables.push(invokable("p", Receiver::Shared, 6));
    let s = signals(
        "A",
        vec![variant("Ready", None, false, 8), variant("9", Some("ready"), false, 9)],
        7,
    );
    let module = module(vec![o], vec![s]);
    let faults = vec![
        d(DiagKind::PropertyWithoutType, 2),
        d(DiagKind::UnresolvedReceiver, 4),
        d(DiagKind::MalformedName, 9),
    ];
    let errors = vec![
        d(DiagKind::BorrowOfOwned, 5),
        d(DiagKind::PropertyNameCollision, 2),
        d(DiagKind::UnsupportedType, 3),
        d(DiagKind::SignalNameCollision, 9),
    ];
    assert_eq!(validate(&module), faults);
    assert_eq!(check(&qt(), &module), errors);
    let all: Vec<Diagnostic> = faults.into_iter().chain(errors).collect();
    assert_eq!(build(&qt(), &module), Err(all));
}

#[test]
fn lookups_find_the_first_match() {
    let objects = vec![object("A", None, 1), object("B", None, 2), object("A", None, 3)];
    assert_eq!(find_object(&objects, "A"), Some(0));
    assert_eq!(find_object(&objects, "B"), Some(1));
    assert_eq!(find_object(&objects, "C"), None);
    let sets = vec![signals("B", vec![], 1), signals("A", vec![], 2), signals("B", vec![], 3)];
    assert_eq!(find_signals(&sets, "B"), Some(0));
    assert_eq!(find_signals(&sets, "A"), Some(1));
    assert_eq!(find_signals(&sets, "C"), None);
}

#[test]
fn second_object_of_a_name_is_an_error() {
    let objects = vec![object("A", None, 1), object("B", None, 2), object("A", None, 3)];
    assert_eq!(
        build(&qt(), &module(objects, vec![])),
        Err(vec![d(DiagKind::DuplicateObject, 3)])
    );
}

#[test]
fn built_types_carry_the_rule_of_their_category() {
    let mut o = object("A", None, 1);
    let mut m = invokable("run", Receiver::Shared, 2);
    m.params.push(field("a", TypeShape::Plain, "i32", 3));
    m.params.push(field("b", TypeShape::Plain, "QPoint", 4));
    m.params.push(field("c", TypeShape::Borrowed, "QPoint", 5));
    m.params.push(field("d", TypeShape::Owned, "Opaque", 6));
    m.params.push(field("e", TypeShape::Plain, "QModel", 7));
    m.ret = Some(ty(TypeShape::Owned, "QModel"));
    o.invokables.push(m);
    let model = build(&qt(), &module(vec![o], vec![])).expect("no errors");
    let run = &model.objects[0].invokables[0];
    let got: Vec<(Category, Marshal)> =
        run.params.iter().map(|p| (p.ty.category, p.ty.marshal)).collect();
    assert_eq!(
        got,
        vec![
            (Category::Primitive, Marshal::Copy),
            (Category::Wrapped, Marshal::Copy),
            (Category::Reference, Marshal::Borrow),
            (Category::OwnedPointer, Marshal::Transfer),
            (Category::OwnedPointer, Marshal::Transfer),
        ]
    );
    let ret = run.ret.as_ref().expect("a return type");
    assert_eq!(ret.native, "::std::unique_ptr<QAbstractItemModel>");
    assert_eq!(ret.marshal, Marshal::Transfer);
}
