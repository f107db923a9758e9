use qt_bridge_gen::catalogue::Catalogue;
use qt_bridge_gen::decl::{TypeExpr, TypeShape};
use qt_bridge_gen::syntax::parse_type;
use qt_bridge_gen::typemap::resolve;

fn ty(shape: TypeShape, name: &str) -> Option<TypeExpr> {
    Some(TypeExpr { shape, name: name.to_string() })
}

#[test]
fn plain_type_is_an_identifier() {
    assert_eq!(parse_type("i32"), ty(TypeShape::Plain, "i32"));
    assert_eq!(parse_type("QPoint"), ty(TypeShape::Plain, "QPoint"));
    assert_eq!(parse_type("_x9"), ty(TypeShape::Plain, "_x9"));
    assert_eq!(parse_type("UniquePtr"), ty(TypeShape::Plain, "UniquePtr"));
}

#[test]
fn reference_may_name_a_lifetime() {
    assert_eq!(parse_type("&QPoint"), ty(TypeShape::Borrowed, "QPoint"));
    assert_eq!(parse_type("&'a QPoint"), ty(TypeShape::Borrowed, "QPoint"));
    assert_eq!(parse_type("&'long_one i64"), ty(TypeShape::Borrowed, "i64"));
}

#[test]
fn unique_pointer_owns_the_named_type() {
    assert_eq!(parse_type("UniquePtr<Opaque>"), ty(TypeShape::Owned, "Opaque"));
    assert_eq!(parse_type("UniquePtr<T>"), ty(TypeShape::Owned, "T"));
}

#[test]
fn anything_else_spells_no_type() {
    for text in [
        "",
        " ",
        "&",
        "&'",
        "&'a",
        "&'a ",
        "&'aQPoint",
        "&'a  QPoint",
        "&' QPoint",
        "& QPoint",
        "&&QPoint",
        "&'a &QPoint",
        "QPoint ",
        " QPoint",
        "9lives",
        "a::b",
        "UniquePtr<>",
        "UniquePtr<Opaque",
        "UniquePtr<Opaque>>",
        "UniquePtr<UniquePtr<T>>",
        "UniquePtr< Opaque>",
        "uniquePtr<Opaque>",
        "Vec<Opaque>",
        "&mut QPoint",
    ] {
        assert_eq!(parse_type(text), None, "{:?}", text);
    }
}

#[test]
fn source_spelling_of_a_resolved_type_reads_back() {
    let cat = Catalogue::new();
    for written in ["i32", "&u8", "UniquePtr<Opaque>"] {
        let expr = parse_type(written).expect("a type");
        let resolved = resolve(&cat, &expr, &Some("X".to_string())).expect("resolves");
        assert_eq!(resolved.source, written);
        assert_eq!(parse_type(&resolved.source), Some(expr));
    }
    let with_lifetime = parse_type("&'a u8").expect("a type");
    let resolved = resolve(&cat, &with_lifetime, &None).expect("resolves");
    assert_eq!(resolved.source, "&u8");
    assert_eq!(resolved.native, "const quint8&");
}
