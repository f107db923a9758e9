use qt_bridge_gen::decl::{
    RawField, RawInvokable, RawModule, RawObject, RawProperty, RawSignals, RawVariant, Receiver,
    TypeExpr, TypeShape,
};
use qt_bridge_gen::diag::{DiagKind, Diagnostic, Family, Pos};
use qt_bridge_gen::validate::validate;

fn at(line: u32) -> Pos {
    Pos { line, column: 1 }
}

fn plain(name: &str) -> TypeExpr {
    TypeExpr { shape: TypeShape::Plain, name: name.to_string() }
}

fn field(name: &str, line: u32) -> RawField {
    RawField { name: name.to_string(), ty: plain("i32"), cxx_type: None, pos: at(line) }
}

fn object(name: &str, line: u32) -> RawObject {
    RawObject {
        name: name.to_string(),
        base: None,
        namespace: None,
        properties: vec![],
        invokables: vec![],
        default_constructed: true,
        pos: at(line),
    }
}

fn module(objects: Vec<RawObject>, signals: Vec<RawSignals>) -> RawModule {
    RawModule { namespace: "ns".to_string(), objects, signals }
}

fn d(kind: DiagKind, line: u32) -> Diagnostic {
    Diagnostic::new(kind, at(line))
}

#[test]
fn empty_module_has_no_faults() {
    assert_eq!(validate(&module(vec![], vec![])), vec![]);
}

#[test]
fn well_formed_module_has_no_faults() {
    let mut o = object("MyObject", 1);
    o.base = Some("Base".to_string());
    o.properties.push(RawProperty {
        name: "number".to_string(),
        ty: Some(plain("i32")),
        cxx_type: None,
        pos: at(2),
    });
    o.invokables.push(RawInvokable {
        name: "run".to_string(),
        receiver: Some(Receiver::Shared),
        params: vec![field("a", 4), field("b", 5)],
        ret: None,
        pos: at(3),
    });
    let s = RawSignals {
        name: "MySignals".to_string(),
        object: "MyObject".to_string(),
        variants: vec![RawVariant {
            name: "Ready".to_string(),
            fields: vec![field("a", 8), field("b", 9)],
            cxx_name: Some("isReady".to_string()),
            inherit: false,
            pos: at(7),
        }],
        pos: at(6),
    };
    assert_eq!(validate(&module(vec![o], vec![s])), vec![]);
}

#[test]
fn property_without_a_type_is_a_fault() {
    let mut o = object("MyObject", 1);
    o.properties.push(RawProperty {
        name: "number".to_string(),
        ty: None,
        cxx_type: None,
        pos: at(2),
    });
    assert_eq!(validate(&module(vec![o], vec![])), vec![d(DiagKind::PropertyWithoutType, 2)]);
}

#[test]
fn invokable_without_a_receiver_is_a_fault() {
    let mut o = object("MyObject", 1);
    o.invokables.push(RawInvokable {
        name: "run".to_string(),
        receiver: None,
        params: vec![],
        ret: None,
        pos: at(3),
    });
    assert_eq!(validate(&module(vec![o], vec![])), vec![d(DiagKind::UnresolvedReceiver, 3)]);
}

#[test]
fn repeated_field_name_is_a_fault_at_each_repeat() {
    let s = RawSignals {
        name: "MySignals".to_string(),
        object: "MyObject".to_string(),
        variants: vec![RawVariant {
            name: "Changed".to_string(),
            fields: vec![field("a", 3), field("b", 4), field("a", 5), field("a", 6)],
            cxx_name: None,
            inherit: false,
            pos: at(2),
        }],
        pos: at(1),
    };
    assert_eq!(
        validate(&module(vec![], vec![s])),
        vec![d(DiagKind::DuplicateField, 5), d(DiagKind::DuplicateField, 6)]
    );
}

#[test]
fn repeated_parameter_name_is_a_fault() {
    let mut o = object("MyObject", 1);
    o.invokables.push(RawInvokable {
        name: "run".to_string(),
        receiver: Some(Receiver::Value),
        params: vec![field("a", 4), field("a", 5)],
        ret: None,
        pos: at(3),
    });
    assert_eq!(validate(&module(vec![o], vec![])), vec![d(DiagKind::DuplicateField, 5)]);
}

#[test]
fn same_field_name_in_two_variants_is_no_fault() {
    let variant = |name: &str, line: u32| RawVariant {
        name: name.to_string(),
        fields: vec![field("first", line + 1)],
        cxx_name: None,
        inherit: false,
        pos: at(line),
    };
    let s = RawSignals {
        name: "MySignals".to_string(),
        object: "MyObject".to_string(),
        variants: vec![variant("A", 2), variant("B", 4)],
        pos: at(1),
    };
    assert_eq!(validate(&module(vec![], vec![s])), vec![]);
}

#[test]
fn names_that_are_no_identifiers_are_faults() {
    let mut o = object("My Object", 1);
    o.base = Some("".to_string());
    o.properties.push(RawProperty {
        name: "9lives".to_string(),
        ty: Some(plain("i32")),
        cxx_type: None,
        pos: at(2),
    });
    assert_eq!(
        validate(&module(vec![o], vec![])),
        vec![
            d(DiagKind::MalformedName, 1),
            d(DiagKind::MalformedName, 1),
            d(DiagKind::MalformedName, 2)
        ]
    );
}

#[test]
fn every_fault_is_reported_in_declaration_order() {
    let mut first = object("First", 1);
    first.properties.push(RawProperty {
        name: "a".to_string(),
        ty: None,
        cxx_type: None,
        pos: at(2),
    });
    first.properties.push(RawProperty {
        name: "b-c".to_string(),
        ty: None,
        cxx_type: None,
        pos: at(3),
    });
    first.invokables.push(RawInvokable {
        name: "run".to_string(),
        receiver: None,
        params: vec![field("x", 5), field("x", 6)],
        ret: None,
        pos: at(4),
    });
    let mut second = object("Second", 10);
    second.invokables.push(RawInvokable {
        name: "".to_string(),
        receiver: None,
        params: vec![],
        ret: None,
        pos: at(11),
    });
    let s = RawSignals {
        name: "Signals".to_string(),
        object: "First".to_string(),
        variants: vec![RawVariant {
            name: "V".to_string(),
            fields: vec![field("f", 22), field("f", 23)],
            cxx_name: Some("not a name".to_string()),
            inherit: false,
            pos: at(21),
        }],
        pos: at(20),
    };
    assert_eq!(
        validate(&module(vec![first, second], vec![s])),
        vec![
            d(DiagKind::PropertyWithoutType, 2),
            d(DiagKind::MalformedName, 3),
            d(DiagKind::PropertyWithoutType, 3),
            d(DiagKind::UnresolvedReceiver, 4),
            d(DiagKind::DuplicateField, 6),
            d(DiagKind::MalformedName, 11),
            d(DiagKind::UnresolvedReceiver, 11),
            d(DiagKind::MalformedName, 21),
            d(DiagKind::DuplicateField, 23),
        ]
    );
}

#[test]
fn each_kind_belongs_to_one_family() {
    let family = |kind| Diagnostic::new(kind, at(1)).family();
    assert_eq!(family(DiagKind::MalformedName), Family::Structure);
    assert_eq!(family(DiagKind::PropertyWithoutType), Family::Structure);
    assert_eq!(family(DiagKind::UnresolvedReceiver), Family::Structure);
    assert_eq!(family(DiagKind::DuplicateField), Family::Structure);
    assert_eq!(family(DiagKind::DuplicateObject), Family::Semantic);
    assert_eq!(family(DiagKind::UnknownObject), Family::Semantic);
    assert_eq!(family(DiagKind::DuplicateSignals), Family::Semantic);
    assert_eq!(family(DiagKind::InheritWithoutBase), Family::Semantic);
    assert_eq!(family(DiagKind::DuplicateRename), Family::Semantic);
    assert_eq!(family(DiagKind::SignalNameCollision), Family::Semantic);
    assert_eq!(family(DiagKind::PropertyNameCollision), Family::Semantic);
    assert_eq!(family(DiagKind::UnsupportedType), Family::Type);
    assert_eq!(family(DiagKind::BorrowOfOwned), Family::Type);
    assert_eq!(family(DiagKind::OwnedOfBorrowed), Family::Type);
}
