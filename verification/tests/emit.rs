use qt_bridge_gen::builder::build;
use qt_bridge_gen::catalogue::Catalogue;
use qt_bridge_gen::compile::{
    compile, compile_all, emit, emit_glue, emit_native, exit_status, Artifacts,
};
use qt_bridge_gen::decl::{
    RawField, RawInvokable, RawModule, RawObject, RawProperty, RawSignals, RawVariant, Receiver,
    TypeExpr, TypeShape,
};
use qt_bridge_gen::diag::{DiagKind, Diagnostic, Pos};
use qt_bridge_gen::ir::{Role, Stmt};
use qt_bridge_gen::lower::{lower_classes, lower_glue};
use qt_bridge_gen::model::Marshal;

fn at(line: u32) -> Pos {
    Pos { line, column: 5 }
}

fn qt() -> Catalogue {
    let mut cat = Catalogue::new();
    cat.add("QPoint", "QPoint", Marshal::Copy);
    cat.add("QString", "QString", Marshal::Copy);
    cat
}

fn ty(shape: TypeShape, name: &str) -> TypeExpr {
    TypeExpr { shape, name: name.to_string() }
}

fn four_fields(line: u32) -> Vec<RawField> {
    vec![
        RawField {
            name: "first".to_string(),
            ty: ty(TypeShape::Plain, "i32"),
            cxx_type: None,
            pos: at(line),
        },
        RawField {
            name: "second".to_string(),
            ty: ty(TypeShape::Owned, "Opaque"),
            cxx_type: Some("Value".to_string()),
            pos: at(line + 1),
        },
        RawField {
            name: "third".to_string(),
            ty: ty(TypeShape::Plain, "QPoint"),
            cxx_type: None,
            pos: at(line + 2),
        },
        RawField {
            name: "fourth".to_string(),
            ty: ty(TypeShape::Borrowed, "QPoint"),
            cxx_type: None,
            pos: at(line + 3),
        },
    ]
}

fn ready() -> RawVariant {
    RawVariant {
        name: "Ready".to_string(),
        fields: vec![],
        cxx_name: None,
        inherit: false,
        pos: at(11),
    }
}

fn data_changed() -> RawVariant {
    RawVariant {
        name: "DataChanged".to_string(),
        fields: four_fields(13),
        cxx_name: None,
        inherit: false,
        pos: at(12),
    }
}

fn base_class_new_data() -> RawVariant {
    RawVariant {
        name: "BaseClassNewData".to_string(),
        fields: four_fields(23),
        cxx_name: Some("newData".to_string()),
        inherit: true,
        pos: at(22),
    }
}

fn my_object(base: Option<&str>, variants: Vec<RawVariant>) -> RawModule {
    RawModule {
        namespace: "cxx_qt::my_object".to_string(),
        objects: vec![RawObject {
            name: "MyObject".to_string(),
            base: base.map(|b| b.to_string()),
            namespace: None,
            properties: vec![],
            invokables: vec![RawInvokable {
                name: "invokable".to_string(),
                receiver: Some(Receiver::Exclusive),
                params: vec![],
                ret: None,
                pos: at(38),
            }],
            default_constructed: true,
            pos: at(34),
        }],
        signals: vec![RawSignals {
            name: "MySignals".to_string(),
            object: "MyObject".to_string(),
            variants,
            pos: at(10),
        }],
    }
}

fn my_data() -> RawModule {
    RawModule {
        namespace: "cxx_qt::my_data".to_string(),
        objects: vec![RawObject {
            name: "MyData".to_string(),
            base: None,
            namespace: None,
            properties: vec![
                RawProperty {
                    name: "number".to_string(),
                    ty: Some(ty(TypeShape::Plain, "i32")),
                    cxx_type: None,
                    pos: at(37),
                },
                RawProperty {
                    name: "string".to_string(),
                    ty: Some(ty(TypeShape::Plain, "QString")),
                    cxx_type: Some("QString".to_string()),
                    pos: at(39),
                },
            ],
            invokables: vec![
                RawInvokable {
                    name: "as_json_str".to_string(),
                    receiver: Some(Receiver::Shared),
                    params: vec![],
                    ret: Some(ty(TypeShape::Plain, "QString")),
                    pos: at(61),
                },
                RawInvokable {
                    name: "grab_values".to_string(),
                    receiver: Some(Receiver::Exclusive),
                    params: vec![],
                    ret: None,
                    pos: at(68),
                },
            ],
            default_constructed: false,
            pos: at(35),
        }],
        signals: vec![],
    }
}

const PARAMS: &str = "qint32 first, Value second, QPoint third, const QPoint& fourth";
const ARGS: &str = "first, ::std::move(second), third, fourth";
const GLUE_PARAMS: &str = "first: i32 as qint32, second: UniquePtr<Opaque> as Value, \
                           third: QPoint as QPoint, fourth: &QPoint as const QPoint&";

#[test]
fn new_signals_are_declared_and_emitted() {
    let out = compile(&qt(), &my_object(None, vec![ready(), data_changed()])).expect("compiles");
    let header = format!(
        "namespace cxx_qt::my_object {{\n\
         class MyObject : public QObject\n\
         {{\n\
         \x20 Q_OBJECT\n\
         \n\
         public:\n\
         \x20 Q_INVOKABLE void invokable();\n\
         \x20 Q_SIGNAL void ready();\n\
         \x20 void emitReady();\n\
         \x20 Q_SIGNAL void dataChanged({PARAMS});\n\
         \x20 void emitDataChanged({PARAMS});\n\
         \n\
         private:\n\
         }};\n\
         }} // namespace cxx_qt::my_object\n"
    );
    let source = format!(
        "namespace cxx_qt::my_object {{\n\
         void MyObject::invokable()\n\
         {{\n\
         \x20 m_rustObj->invokableWrapper(*this);\n\
         }}\n\
         \n\
         void MyObject::emitReady()\n\
         {{\n\
         \x20 Q_EMIT ready();\n\
         }}\n\
         \n\
         void MyObject::emitDataChanged({PARAMS})\n\
         {{\n\
         \x20 Q_EMIT dataChanged({ARGS});\n\
         }}\n\
         \n\
         }} // namespace cxx_qt::my_object\n"
    );
    let glue = format!(
        "fn MyObject::invokableWrapper();\n\
         fn MyObject::emitReady();\n\
         fn MyObject::emitDataChanged({GLUE_PARAMS});\n"
    );
    assert_eq!(out.header, header);
    assert_eq!(out.source, source);
    assert_eq!(out.glue, glue);
}

#[test]
fn data_changed_passes_each_field_by_its_category() {
    let model = build(&qt(), &my_object(None, vec![ready(), data_changed()])).expect("builds");
    let rules: Vec<Marshal> =
        model.signals[0].variants[1].fields.iter().map(|f| f.ty.marshal).collect();
    assert_eq!(rules, vec![Marshal::Copy, Marshal::Transfer, Marshal::Copy, Marshal::Borrow]);
    assert!(model.signals[0].variants[0].fields.is_empty());
    let classes = lower_classes(&model);
    let methods = &classes[0].methods;
    let names: Vec<&str> = methods.iter().map(|m| m.name.as_str()).collect();
    assert_eq!(
        names,
        vec!["invokable", "ready", "emitReady", "dataChanged", "emitDataChanged"]
    );
    assert_eq!(methods[1].role, Role::Signal);
    assert!(methods[1].params.is_empty());
    assert_eq!(methods[3].role, Role::Signal);
    assert_eq!(methods[3].params.len(), 4);
    assert!(methods[3].body.is_none());
}

#[test]
fn inherited_signal_is_called_through_and_not_declared() {
    let module = my_object(Some("BaseClass"), vec![base_class_new_data()]);
    let out = compile(&qt(), &module).expect("compiles");
    let header = format!(
        "namespace cxx_qt::my_object {{\n\
         class MyObject : public BaseClass\n\
         {{\n\
         \x20 Q_OBJECT\n\
         \n\
         public:\n\
         \x20 Q_INVOKABLE void invokable();\n\
         \x20 void emitNewData({PARAMS});\n\
         \n\
         private:\n\
         }};\n\
         }} // namespace cxx_qt::my_object\n"
    );
    let source = format!(
        "namespace cxx_qt::my_object {{\n\
         void MyObject::invokable()\n\
         {{\n\
         \x20 m_rustObj->invokableWrapper(*this);\n\
         }}\n\
         \n\
         void MyObject::emitNewData({PARAMS})\n\
         {{\n\
         \x20 newData({ARGS});\n\
         }}\n\
         \n\
         }} // namespace cxx_qt::my_object\n"
    );
    assert_eq!(out.header, header);
    assert_eq!(out.source, source);
    assert_eq!(
        out.glue,
        format!("fn MyObject::invokableWrapper();\nfn MyObject::emitNewData({GLUE_PARAMS});\n")
    );
    assert!(!out.header.contains("Q_SIGNAL"));
    assert!(!out.source.contains("Q_EMIT"));
}

#[test]
fn inherited_signal_body_is_one_call_of_the_base_method() {
    let module = my_object(Some("BaseClass"), vec![base_class_new_data()]);
    let model = build(&qt(), &module).expect("builds");
    let classes = lower_classes(&model);
    let emitter = classes[0].methods.last().expect("the emitter");
    assert_eq!(emitter.name, "emitNewData");
    let body = emitter.body.as_ref().expect("an emitter has a body");
    assert_eq!(body.len(), 1);
    match &body[0] {
        Stmt::CallBase { method, args } => {
            assert_eq!(method, "newData");
            let names: Vec<&str> = args.iter().map(|a| a.name.as_str()).collect();
            assert_eq!(names, vec!["first", "second", "third", "fourth"]);
        }
        other => panic!("not a call of the base class: {:?}", other),
    }
}

#[test]
fn all_three_signals_of_the_object_together() {
    let module =
        my_object(Some("BaseClass"), vec![ready(), data_changed(), base_class_new_data()]);
    let out = compile(&qt(), &module).expect("compiles");
    assert_eq!(
        out.glue,
        format!(
            "fn MyObject::invokableWrapper();\n\
             fn MyObject::emitReady();\n\
             fn MyObject::emitDataChanged({GLUE_PARAMS});\n\
             fn MyObject::emitNewData({GLUE_PARAMS});\n"
        )
    );
    assert_eq!(out.header.matches("Q_SIGNAL").count(), 2);
    assert_eq!(out.source.matches("Q_EMIT").count(), 2);
    assert_eq!(out.source.matches("  newData(").count(), 1);
}

#[test]
fn object_without_a_named_base_calls_through_to_its_base() {
    let module = my_object(None, vec![ready(), data_changed(), base_class_new_data()]);
    let out = compile(&qt(), &module).expect("compiles");
    let header = format!(
        "namespace cxx_qt::my_object {{\n\
         class MyObject : public QObject\n\
         {{\n\
         \x20 Q_OBJECT\n\
         \n\
         public:\n\
         \x20 Q_INVOKABLE void invokable();\n\
         \x20 Q_SIGNAL void ready();\n\
         \x20 void emitReady();\n\
         \x20 Q_SIGNAL void dataChanged({PARAMS});\n\
         \x20 void emitDataChanged({PARAMS});\n\
         \x20 void emitNewData({PARAMS});\n\
         \n\
         private:\n\
         }};\n\
         }} // namespace cxx_qt::my_object\n"
    );
    let source = format!(
        "namespace cxx_qt::my_object {{\n\
         void MyObject::invokable()\n\
         {{\n\
         \x20 m_rustObj->invokableWrapper(*this);\n\
         }}\n\
         \n\
         void MyObject::emitReady()\n\
         {{\n\
         \x20 Q_EMIT ready();\n\
         }}\n\
         \n\
         void MyObject::emitDataChanged({PARAMS})\n\
         {{\n\
         \x20 Q_EMIT dataChanged({ARGS});\n\
         }}\n\
         \n\
         void MyObject::emitNewData({PARAMS})\n\
         {{\n\
         \x20 newData({ARGS});\n\
         }}\n\
         \n\
         }} // namespace cxx_qt::my_object\n"
    );
    assert_eq!(out.header, header);
    assert_eq!(out.source, source);
    assert_eq!(
        out.glue,
        format!(
            "fn MyObject::invokableWrapper();\n\
             fn MyObject::emitReady();\n\
             fn MyObject::emitDataChanged({GLUE_PARAMS});\n\
             fn MyObject::emitNewData({GLUE_PARAMS});\n"
        )
    );
    assert!(!out.header.contains("void newData("));
    assert!(!out.header.contains("baseClassNewData"));
    assert!(!out.source.contains("baseClassNewData"));
}

#[test]
fn object_without_a_named_base_has_six_methods() {
    let module = my_object(None, vec![ready(), data_changed(), base_class_new_data()]);
    let model = build(&qt(), &module).expect("builds");
    let classes = lower_classes(&model);
    assert_eq!(classes[0].base, "QObject");
    let names: Vec<&str> = classes[0].methods.iter().map(|m| m.name.as_str()).collect();
    assert_eq!(
        names,
        vec!["invokable", "ready", "emitReady", "dataChanged", "emitDataChanged", "emitNewData"]
    );
    let emitter = &classes[0].methods[5];
    assert_eq!(emitter.role, Role::Plain);
    let body = emitter.body.as_ref().expect("an emitter has a body");
    assert_eq!(body.len(), 1);
    match &body[0] {
        Stmt::CallBase { method, args } => {
            assert_eq!(method, "newData");
            let passed: Vec<(&str, Marshal)> =
                args.iter().map(|a| (a.name.as_str(), a.rule)).collect();
            assert_eq!(
                passed,
                vec![
                    ("first", Marshal::Copy),
                    ("second", Marshal::Transfer),
                    ("third", Marshal::Copy),
                    ("fourth", Marshal::Borrow),
                ]
            );
        }
        other => panic!("not a call of the base class: {:?}", other),
    }
    let invokable = classes[0].methods[0].body.as_ref().expect("an invokable has a body");
    assert!(matches!(&invokable[0], Stmt::Forward { function, .. }
        if function == "invokableWrapper"));
}

#[test]
fn inherited_signal_with_a_base_that_does_not_resolve_gives_no_text() {
    let module = my_object(Some(""), vec![ready(), base_class_new_data()]);
    assert_eq!(
        compile(&qt(), &module),
        Err(vec![
            Diagnostic::new(DiagKind::MalformedName, at(34)),
            Diagnostic::new(DiagKind::InheritWithoutBase, at(22)),
        ])
    );
}

#[test]
fn properties_get_getter_setter_and_change_signal() {
    let out = compile(&qt(), &my_data()).expect("compiles");
    let header = "namespace cxx_qt::my_data {\n\
                  class MyData : public QObject\n\
                  {\n\
                  \x20 Q_OBJECT\n\
                  \x20 Q_PROPERTY(qint32 number READ getNumber WRITE setNumber NOTIFY numberChanged)\n\
                  \x20 Q_PROPERTY(QString string READ getString WRITE setString NOTIFY stringChanged)\n\
                  \n\
                  public:\n\
                  \x20 qint32 getNumber() const;\n\
                  \x20 Q_SLOT void setNumber(qint32 value);\n\
                  \x20 Q_SIGNAL void numberChanged();\n\
                  \x20 QString getString() const;\n\
                  \x20 Q_SLOT void setString(QString value);\n\
                  \x20 Q_SIGNAL void stringChanged();\n\
                  \x20 Q_INVOKABLE QString as_json_str() const;\n\
                  \x20 Q_INVOKABLE void grab_values();\n\
                  \n\
                  private:\n\
                  \x20 qint32 m_number;\n\
                  \x20 QString m_string;\n\
                  };\n\
                  } // namespace cxx_qt::my_data\n";
    let source = "namespace cxx_qt::my_data {\n\
                  qint32 MyData::getNumber() const\n\
                  {\n\
                  \x20 return m_number;\n\
                  }\n\
                  \n\
                  void MyData::setNumber(qint32 value)\n\
                  {\n\
                  \x20 m_number = value;\n\
                  \x20 Q_EMIT numberChanged();\n\
                  }\n\
                  \n\
                  QString MyData::getString() const\n\
                  {\n\
                  \x20 return m_string;\n\
                  }\n\
                  \n\
                  void MyData::setString(QString value)\n\
                  {\n\
                  \x20 m_string = value;\n\
                  \x20 Q_EMIT stringChanged();\n\
                  }\n\
                  \n\
                  QString MyData::as_json_str() const\n\
                  {\n\
                  \x20 return m_rustObj->as_json_strWrapper(*this);\n\
                  }\n\
                  \n\
                  void MyData::grab_values()\n\
                  {\n\
                  \x20 m_rustObj->grab_valuesWrapper(*this);\n\
                  }\n\
                  \n\
                  } // namespace cxx_qt::my_data\n";
    let glue = "fn MyData::as_json_strWrapper() -> QString as QString;\n\
                fn MyData::grab_valuesWrapper();\n";
    assert_eq!(out.header, header);
    assert_eq!(out.source, source);
    assert_eq!(out.glue, glue);
}

#[test]
fn setter_stores_then_notifies_once() {
    let model = build(&qt(), &my_data()).expect("builds");
    let classes = lower_classes(&model);
    let setter = &classes[0].methods[1];
    assert_eq!(setter.name, "setNumber");
    assert_eq!(setter.role, Role::Slot);
    let body = setter.body.as_ref().expect("a setter has a body");
    assert_eq!(body.len(), 2);
    assert!(matches!(&body[0], Stmt::Store { field, value }
        if field == "number" && value.name == "value" && value.rule == Marshal::Copy));
    assert!(matches!(&body[1], Stmt::Emit { signal, args }
        if signal == "numberChanged" && args.is_empty()));
}

#[test]
fn owned_property_is_moved_into_its_field() {
    let mut module = my_data();
    module.objects[0].properties.push(RawProperty {
        name: "model".to_string(),
        ty: Some(ty(TypeShape::Owned, "Model")),
        cxx_type: None,
        pos: at(41),
    });
    let out = compile(&qt(), &module).expect("compiles");
    assert!(out.source.contains(
        "void MyData::setModel(::std::unique_ptr<Model> value)\n{\n  \
         m_model = ::std::move(value);\n  Q_EMIT modelChanged();\n}\n"
    ));
}

#[test]
fn invokable_forwards_its_parameters_after_the_object() {
    let mut module = my_data();
    module.objects[0].invokables[1].params = four_fields(70);
    let out = compile(&qt(), &module).expect("compiles");
    assert!(out.header.contains(&format!("  Q_INVOKABLE void grab_values({PARAMS});\n")));
    assert!(out.source.contains(&format!("  m_rustObj->grab_valuesWrapper(*this, {ARGS});\n")));
    assert!(out.glue.contains(&format!("fn MyData::grab_valuesWrapper({GLUE_PARAMS});\n")));
}

#[test]
fn glue_follows_the_order_of_the_model() {
    let mut module = my_data();
    module.objects.push(my_object(None, vec![]).objects.remove(0));
    module.signals.push(RawSignals {
        name: "B".to_string(),
        object: "MyObject".to_string(),
        variants: vec![ready()],
        pos: at(80),
    });
    module.signals.push(RawSignals {
        name: "A".to_string(),
        object: "MyData".to_string(),
        variants: vec![data_changed()],
        pos: at(90),
    });
    let model = build(&qt(), &module).expect("builds");
    let names: Vec<String> =
        lower_glue(&model).iter().map(|g| format!("{}::{}", g.owner, g.name)).collect();
    assert_eq!(
        names,
        vec![
            "MyData::as_json_strWrapper",
            "MyData::grab_valuesWrapper",
            "MyObject::invokableWrapper",
            "MyObject::emitReady",
            "MyData::emitDataChanged",
        ]
    );
}

#[test]
fn module_without_a_namespace_is_not_wrapped() {
    let mut module = my_data();
    module.namespace = String::new();
    module.objects[0].properties.clear();
    module.objects[0].invokables.clear();
    let out = compile(&qt(), &module).expect("compiles");
    assert_eq!(out.header, "class MyData : public QObject\n{\n  Q_OBJECT\n\npublic:\n\nprivate:\n};\n");
    assert_eq!(out.source, "");
    assert_eq!(out.glue, "");
}

#[test]
fn empty_module_gives_empty_texts() {
    let module = RawModule { namespace: "ns".to_string(), objects: vec![], signals: vec![] };
    assert_eq!(
        compile(&Catalogue::new(), &module),
        Ok(Artifacts { header: String::new(), source: String::new(), glue: String::new() })
    );
}

#[test]
fn compiling_twice_gives_the_same_bytes() {
    let module =
        my_object(Some("BaseClass"), vec![ready(), data_changed(), base_class_new_data()]);
    let first = compile(&qt(), &module).expect("compiles");
    let second = compile(&qt(), &module.clone()).expect("compiles");
    assert_eq!(first.header.as_bytes(), second.header.as_bytes());
    assert_eq!(first.source.as_bytes(), second.source.as_bytes());
    assert_eq!(first.glue.as_bytes(), second.glue.as_bytes());
    assert_eq!(compile(&qt(), &my_data()), compile(&qt(), &my_data()));
}

#[test]
fn emit_is_the_native_and_the_glue_emitter_together() {
    let model = build(&qt(), &my_data()).expect("builds");
    let all = emit(&model);
    let native = emit_native(&model);
    assert_eq!(all.header, native.header);
    assert_eq!(all.source, native.source);
    assert_eq!(all.glue, emit_glue(&model));
}

#[test]
fn faults_are_followed_by_the_errors_that_are_independent_of_them() {
    let mut module = my_object(None, vec![ready(), base_class_new_data()]);
    module.objects[0].properties.push(RawProperty {
        name: "p".to_string(),
        ty: None,
        cxx_type: None,
        pos: at(36),
    });
    module.signals[0].variants.push(RawVariant {
        name: "Broken".to_string(),
        fields: vec![RawField {
            name: "x".to_string(),
            ty: ty(TypeShape::Plain, "Mystery"),
            cxx_type: None,
            pos: at(51),
        }],
        cxx_name: Some("ready".to_string()),
        inherit: false,
        pos: at(50),
    });
    assert_eq!(
        compile(&qt(), &module),
        Err(vec![
            Diagnostic::new(DiagKind::PropertyWithoutType, at(36)),
            Diagnostic::new(DiagKind::SignalNameCollision, at(50)),
            Diagnostic::new(DiagKind::UnsupportedType, at(51)),
        ])
    );
}

#[test]
fn every_semantic_error_of_a_module_is_returned() {
    let mut module = my_data();
    module.objects[0].properties[0].ty = Some(ty(TypeShape::Plain, "Mystery"));
    module.objects[0].invokables[0].ret = Some(ty(TypeShape::Plain, "Mystery"));
    module.objects[0].invokables[1].name = "getString".to_string();
    assert_eq!(
        compile(&qt(), &module),
        Err(vec![
            Diagnostic::new(DiagKind::UnsupportedType, at(61)),
            Diagnostic::new(DiagKind::UnsupportedType, at(37)),
            Diagnostic::new(DiagKind::PropertyNameCollision, at(39)),
        ])
    );
}

#[test]
fn rejected_module_takes_nothing_from_its_siblings() {
    let good = my_data();
    let mut bad = my_data();
    bad.objects[0].properties[0].ty = Some(ty(TypeShape::Plain, "Mystery"));
    let results = compile_all(&qt(), &vec![good.clone(), bad.clone(), good.clone()]);
    assert_eq!(results.len(), 3);
    assert_eq!(results[0], compile(&qt(), &good));
    assert_eq!(results[1], compile(&qt(), &bad));
    assert_eq!(results[2], results[0]);
    let statuses: Vec<u8> = results.iter().map(exit_status).collect();
    assert_eq!(statuses, vec![0, 1, 0]);
    assert!(compile_all(&qt(), &vec![]).is_empty());
}
