//! The printer: the text of a class's header, of its source and of the glue
//! declarations. Each text is defined as a function of what is printed, and
//! the printing functions follow it character for character.

use vstd::prelude::*;
use vstd::string::*;
use crate::ir::{
    arg_views, class_views, glue_views, method_views, stmt_views, Arg, ArgView, Class, ClassView,
    GlueDecl, GlueDeclView, Method, MethodView, Role, Stmt, StmtView,
};
use crate::model::{
    field_views, property_views, type_ref_opt, Field, FieldView, Marshal, PropertyDecl,
    PropertyDeclView, TypeRef, TypeRefView,
};

verus! {

/// A value that is handed over is moved; any other is named.
pub open spec fn arg_text(a: ArgView) -> Seq<char> {
    match a.rule {
        Marshal::Transfer => "::std::move("@ + a.name + ")"@,
        _ => a.name,
    }
}

/// The first `n` arguments, with `, ` between them.
pub open spec fn args_text(args: Seq<ArgView>, n: int) -> Seq<char>
    decreases n,
{
    if n <= 0 {
        Seq::empty()
    } else if n == 1 {
        arg_text(args[0])
    } else {
        args_text(args, n - 1) + ", "@ + arg_text(args[n - 1])
    }
}

pub open spec fn all_args_text(args: Seq<ArgView>) -> Seq<char> {
    args_text(args, args.len() as int)
}

pub open spec fn forward_head(yields: bool) -> Seq<char> {
    if yields {
        "  return m_rustObj->"@
    } else {
        "  m_rustObj->"@
    }
}

pub open spec fn stmt_text(s: StmtView) -> Seq<char> {
    match s {
        StmtView::Load { field } => "  return m_"@ + field + ";\n"@,
        StmtView::Store { field, value } => "  m_"@ + field + " = "@ + arg_text(value) + ";\n"@,
        StmtView::Emit { signal, args } => "  Q_EMIT "@ + signal + "("@ + all_args_text(args)
            + ");\n"@,
        StmtView::CallBase { method, args } => "  "@ + method + "("@ + all_args_text(args)
            + ");\n"@,
        StmtView::Forward { function, args, yields } => forward_head(yields) + function + "("@
            + all_args_text(args) + ");\n"@,
    }
}

pub open spec fn body_text(body: Seq<StmtView>, n: int) -> Seq<char>
    decreases n,
{
    if n <= 0 {
        Seq::empty()
    } else {
        body_text(body, n - 1) + stmt_text(body[n - 1])
    }
}

pub open spec fn param_text(f: FieldView) -> Seq<char> {
    f.ty.native + " "@ + f.name
}

/// The first `n` parameters, with `, ` between them.
pub open spec fn params_text(fields: Seq<FieldView>, n: int) -> Seq<char>
    decreases n,
{
    if n <= 0 {
        Seq::empty()
    } else if n == 1 {
        param_text(fields[0])
    } else {
        params_text(fields, n - 1) + ", "@ + param_text(fields[n - 1])
    }
}

pub open spec fn all_params_text(fields: Seq<FieldView>) -> Seq<char> {
    params_text(fields, fields.len() as int)
}

pub open spec fn ret_text(ret: Option<TypeRefView>) -> Seq<char> {
    match ret {
        Some(t) => t.native,
        None => "void"@,
    }
}

pub open spec fn role_text(role: Role) -> Seq<char> {
    match role {
        Role::Plain => ""@,
        Role::Slot => "Q_SLOT "@,
        Role::Signal => "Q_SIGNAL "@,
        Role::Invokable => "Q_INVOKABLE "@,
    }
}

pub open spec fn const_text(is_const: bool) -> Seq<char> {
    if is_const {
        " const"@
    } else {
        ""@
    }
}

/// The line that declares a method inside its class.
pub open spec fn declaration_text(m: MethodView) -> Seq<char> {
    "  "@ + role_text(m.role) + ret_text(m.ret) + " "@ + m.name + "("@ + all_params_text(m.params)
        + ")"@ + const_text(m.is_const) + ";\n"@
}

pub open spec fn declarations_text(methods: Seq<MethodView>, n: int) -> Seq<char>
    decreases n,
{
    if n <= 0 {
        Seq::empty()
    } else {
        declarations_text(methods, n - 1) + declaration_text(methods[n - 1])
    }
}

/// The definition of a method outside its class; nothing for a method
/// without a body.
pub open spec fn definition_text(class: Seq<char>, m: MethodView) -> Seq<char> {
    match m.body {
        Some(b) => ret_text(m.ret) + " "@ + class + "::"@ + m.name + "("@ + all_params_text(
            m.params,
        ) + ")"@ + const_text(m.is_const) + "\n{\n"@ + body_text(b, b.len() as int) + "}\n\n"@,
        None => Seq::empty(),
    }
}

pub open spec fn definitions_text(class: Seq<char>, methods: Seq<MethodView>, n: int) -> Seq<char>
    decreases n,
{
    if n <= 0 {
        Seq::empty()
    } else {
        definitions_text(class, methods, n - 1) + definition_text(class, methods[n - 1])
    }
}

/// The line that tells Qt of a property and of its three accessors.
pub open spec fn property_text(p: PropertyDeclView) -> Seq<char> {
    "  Q_PROPERTY("@ + p.ty.native + " "@ + p.name + " READ "@ + p.getter + " WRITE "@ + p.setter
        + " NOTIFY "@ + p.notify + ")\n"@
}

pub open spec fn properties_text(properties: Seq<PropertyDeclView>, n: int) -> Seq<char>
    decreases n,
{
    if n <= 0 {
        Seq::empty()
    } else {
        properties_text(properties, n - 1) + property_text(properties[n - 1])
    }
}

/// The field that holds a property.
pub open spec fn member_text(p: PropertyDeclView) -> Seq<char> {
    "  "@ + p.ty.native + " m_"@ + p.name + ";\n"@
}

pub open spec fn members_text(properties: Seq<PropertyDeclView>, n: int) -> Seq<char>
    decreases n,
{
    if n <= 0 {
        Seq::empty()
    } else {
        members_text(properties, n - 1) + member_text(properties[n - 1])
    }
}

pub open spec fn open_namespace(ns: Seq<char>) -> Seq<char> {
    if ns.len() == 0 {
        Seq::empty()
    } else {
        "namespace "@ + ns + " {\n"@
    }
}

pub open spec fn close_namespace(ns: Seq<char>) -> Seq<char> {
    if ns.len() == 0 {
        Seq::empty()
    } else {
        "} // namespace "@ + ns + "\n"@
    }
}

/// The header of a class.
pub open spec fn header_text(c: ClassView) -> Seq<char> {
    open_namespace(c.namespace) + "class "@ + c.name + " : public "@ + c.base
        + "\n{\n  Q_OBJECT\n"@ + properties_text(c.properties, c.properties.len() as int)
        + "\npublic:\n"@ + declarations_text(c.methods, c.methods.len() as int) + "\nprivate:\n"@
        + members_text(c.properties, c.properties.len() as int) + "};\n"@ + close_namespace(
        c.namespace,
    )
}

/// The source of a class.
pub open spec fn source_text(c: ClassView) -> Seq<char> {
    open_namespace(c.namespace) + definitions_text(c.name, c.methods, c.methods.len() as int)
        + close_namespace(c.namespace)
}

pub open spec fn headers_text(classes: Seq<ClassView>, n: int) -> Seq<char>
    decreases n,
{
    if n <= 0 {
        Seq::empty()
    } else {
        headers_text(classes, n - 1) + header_text(classes[n - 1])
    }
}

pub open spec fn sources_text(classes: Seq<ClassView>, n: int) -> Seq<char>
    decreases n,
{
    if n <= 0 {
        Seq::empty()
    } else {
        sources_text(classes, n - 1) + source_text(classes[n - 1])
    }
}

/// A parameter of a glue declaration: its name, its type on the Rust side and
/// its type on the C++ side.
pub open spec fn glue_param_text(f: FieldView) -> Seq<char> {
    f.name + ": "@ + f.ty.source + " as "@ + f.ty.native
}

pub open spec fn glue_params_text(fields: Seq<FieldView>, n: int) -> Seq<char>
    decreases n,
{
    if n <= 0 {
        Seq::empty()
    } else if n == 1 {
        glue_param_text(fields[0])
    } else {
        glue_params_text(fields, n - 1) + ", "@ + glue_param_text(fields[n - 1])
    }
}

pub open spec fn glue_ret_text(ret: Option<TypeRefView>) -> Seq<char> {
    match ret {
        Some(t) => " -> "@ + t.source + " as "@ + t.native,
        None => ""@,
    }
}

/// The line of one glue declaration.
pub open spec fn glue_text(g: GlueDeclView) -> Seq<char> {
    "fn "@ + g.owner + "::"@ + g.name + "("@ + glue_params_text(g.params, g.params.len() as int)
        + ")"@ + glue_ret_text(g.ret) + ";\n"@
}

pub open spec fn glue_lines_text(decls: Seq<GlueDeclView>, n: int) -> Seq<char>
    decreases n,
{
    if n <= 0 {
        Seq::empty()
    } else {
        glue_lines_text(decls, n - 1) + glue_text(decls[n - 1])
    }
}

fn print_arg(a: &Arg) -> (out: String)
    ensures
        out@ == arg_text(a@),
{
    match a.rule {
        Marshal::Transfer => {
            let mut out = String::from_str("::std::move(");
            out.append(a.name.as_str());
            out.append(")");
            out
        },
        _ => a.name.clone(),
    }
}

fn print_args(args: &Vec<Arg>) -> (out: String)
    ensures
        out@ == all_args_text(arg_views(args@)),
{
    let ghost views = arg_views(args@);
    let mut out = String::new();
    let n: usize = args.len();
    let mut i: usize = 0;
    while i < n
        invariant
            n == args@.len(),
            i <= n,
            views == arg_views(args@),
            out@ == args_text(views, i as int),
        decreases n - i,
    {
        let piece = print_arg(&args[i]);
        if i == 0 {
            out = piece;
        } else {
            out.append(", ");
            out.append(piece.as_str());
        }
        i = i + 1;
    }
    out
}

fn print_stmt(s: &Stmt) -> (out: String)
    ensures
        out@ == stmt_text(s@),
{
    match s {
        Stmt::Load { field } => {
            let mut out = String::from_str("  return m_");
            out.append(field.as_str());
            out.append(";\n");
            out
        },
        Stmt::Store { field, value } => {
            let mut out = String::from_str("  m_");
            out.append(field.as_str());
            out.append(" = ");
            let piece = print_arg(value);
            out.append(piece.as_str());
            out.append(";\n");
            out
        },
        Stmt::Emit { signal, args } => {
            let mut out = String::from_str("  Q_EMIT ");
            out.append(signal.as_str());
            out.append("(");
            let piece = print_args(args);
            out.append(piece.as_str());
            out.append(");\n");
            out
        },
        Stmt::CallBase { method, args } => {
            let mut out = String::from_str("  ");
            out.append(method.as_str());
            out.append("(");
            let piece = print_args(args);
            out.append(piece.as_str());
            out.append(");\n");
            out
        },
        Stmt::Forward { function, args, yields } => {
            let mut out = if *yields {
                String::from_str("  return m_rustObj->")
            } else {
                String::from_str("  m_rustObj->")
            };
            out.append(function.as_str());
            out.append("(");
            let piece = print_args(args);
            out.append(piece.as_str());
            out.append(");\n");
            out
        },
    }
}

fn print_body(body: &Vec<Stmt>) -> (out: String)
    ensures
        out@ == body_text(stmt_views(body@), body@.len() as int),
{
    let ghost views = stmt_views(body@);
    let mut out = String::new();
    let n: usize = body.len();
    let mut i: usize = 0;
    while i < n
        invariant
            n == body@.len(),
            i <= n,
            views == stmt_views(body@),
            out@ == body_text(views, i as int),
        decreases n - i,
    {
        let piece = print_stmt(&body[i]);
        out.append(piece.as_str());
        i = i + 1;
    }
    out
}

fn print_params(fields: &Vec<Field>) -> (out: String)
    ensures
        out@ == all_params_text(field_views(fields@)),
{
    let ghost views = field_views(fields@);
    let mut out = String::new();
    let n: usize = fields.len();
    let mut i: usize = 0;
    while i < n
        invariant
            n == fields@.len(),
            i <= n,
            views == field_views(fields@),
            out@ == params_text(views, i as int),
        decreases n - i,
    {
        let f = &fields[i];
        let mut piece = f.ty.native.clone();
        piece.append(" ");
        piece.append(f.name.as_str());
        if i == 0 {
            out = piece;
        } else {
            out.append(", ");
            out.append(piece.as_str());
        }
        i = i + 1;
    }
    out
}

fn print_ret(ret: &Option<TypeRef>) -> (out: String)
    ensures
        out@ == ret_text(type_ref_opt(*ret)),
{
    match ret {
        Some(t) => t.native.clone(),
        None => String::from_str("void"),
    }
}

fn role_word(role: Role) -> (out: &'static str)
    ensures
        out@ == role_text(role),
{
    match role {
        Role::Plain => "",
        Role::Slot => "Q_SLOT ",
        Role::Signal => "Q_SIGNAL ",
        Role::Invokable => "Q_INVOKABLE ",
    }
}

fn const_word(is_const: bool) -> (out: &'static str)
    ensures
        out@ == const_text(is_const),
{
    if is_const {
        " const"
    } else {
        ""
    }
}

/// Prints the declaration of a method.
pub fn print_declaration(m: &Method) -> (out: String)
    ensures
        out@ == declaration_text(m@),
{
    let mut out = String::from_str("  ");
    out.append(role_word(m.role));
    let ret = print_ret(&m.ret);
    out.append(ret.as_str());
    out.append(" ");
    out.append(m.name.as_str());
    out.append("(");
    let params = print_params(&m.params);
    out.append(params.as_str());
    out.append(")");
    out.append(const_word(m.is_const));
    out.append(";\n");
    out
}

/// Prints the definition of a method of the given class.
pub fn print_definition(class: &str, m: &Method) -> (out: String)
    ensures
        out@ == definition_text(class@, m@),
{
    match &m.body {
        Some(b) => {
            let mut out = print_ret(&m.ret);
            out.append(" ");
            out.append(class);
            out.append("::");
            out.append(m.name.as_str());
            out.append("(");
            let params = print_params(&m.params);
            out.append(params.as_str());
            out.append(")");
            out.append(const_word(m.is_const));
            out.append("\n{\n");
            let body = print_body(b);
            out.append(body.as_str());
            out.append("}\n\n");
            out
        },
        None => String::new(),
    }
}

fn print_property(p: &PropertyDecl) -> (out: String)
    ensures
        out@ == property_text(p@),
{
    let mut out = String::from_str("  Q_PROPERTY(");
    out.append(p.ty.native.as_str());
    out.append(" ");
    out.append(p.name.as_str());
    out.append(" READ ");
    out.append(p.getter.as_str());
    out.append(" WRITE ");
    out.append(p.setter.as_str());
    out.append(" NOTIFY ");
    out.append(p.notify.as_str());
    out.append(")\n");
    out
}

fn print_member(p: &PropertyDecl) -> (out: String)
    ensures
        out@ == member_text(p@),
{
    let mut out = String::from_str("  ");
    out.append(p.ty.native.as_str());
    out.append(" m_");
    out.append(p.name.as_str());
    out.append(";\n");
    out
}

fn print_open_namespace(ns: &str) -> (out: String)
    ensures
        out@ == open_namespace(ns@),
{
    if ns.unicode_len() == 0 {
        String::new()
    } else {
        let mut out = String::from_str("namespace ");
        out.append(ns);
        out.append(" {\n");
        out
    }
}

fn print_close_namespace(ns: &str) -> (out: String)
    ensures
        out@ == close_namespace(ns@),
{
    if ns.unicode_len() == 0 {
        String::new()
    } else {
        let mut out = String::from_str("} // namespace ");
        out.append(ns);
        out.append("\n");
        out
    }
}

fn print_properties(properties: &Vec<PropertyDecl>) -> (out: String)
    ensures
        out@ == properties_text(property_views(properties@), properties@.len() as int),
{
    let ghost views = property_views(properties@);
    let mut out = String::new();
    let n: usize = properties.len();
    let mut i: usize = 0;
    while i < n
        invariant
            n == properties@.len(),
            i <= n,
            views == property_views(properties@),
            out@ == properties_text(views, i as int),
        decreases n - i,
    {
        let piece = print_property(&properties[i]);
        out.append(piece.as_str());
        i = i + 1;
    }
    out
}

fn print_members(properties: &Vec<PropertyDecl>) -> (out: String)
    ensures
        out@ == members_text(property_views(properties@), properties@.len() as int),
{
    let ghost views = property_views(properties@);
    let mut out = String::new();
    let n: usize = properties.len();
    let mut i: usize = 0;
    while i < n
        invariant
            n == properties@.len(),
            i <= n,
            views == property_views(properties@),
            out@ == members_text(views, i as int),
        decreases n - i,
    {
        let piece = print_member(&properties[i]);
        out.append(piece.as_str());
        i = i + 1;
    }
    out
}

fn print_declarations(methods: &Vec<Method>) -> (out: String)
    ensures
        out@ == declarations_text(method_views(methods@), methods@.len() as int),
{
    let ghost views = method_views(methods@);
    let mut out = String::new();
    let n: usize = methods.len();
    let mut i: usize = 0;
    while i < n
        invariant
            n == methods@.len(),
            i <= n,
            views == method_views(methods@),
            out@ == declarations_text(views, i as int),
        decreases n - i,
    {
        let piece = print_declaration(&methods[i]);
        out.append(piece.as_str());
        i = i + 1;
    }
    out
}

fn print_definitions(class: &str, methods: &Vec<Method>) -> (out: String)
    ensures
        out@ == definitions_text(class@, method_views(methods@), methods@.len() as int),
{
    let ghost views = method_views(methods@);
    let mut out = String::new();
    let n: usize = methods.len();
    let mut i: usize = 0;
    while i < n
        invariant
            n == methods@.len(),
            i <= n,
            views == method_views(methods@),
            out@ == definitions_text(class@, views, i as int),
        decreases n - i,
    {
        let piece = print_definition(class, &methods[i]);
        out.append(piece.as_str());
        i = i + 1;
    }
    out
}

/// Prints the header of a class.
pub fn print_header(c: &Class) -> (out: String)
    ensures
        out@ == header_text(c@),
{
    let mut out = print_open_namespace(c.namespace.as_str());
    out.append("class ");
    out.append(c.name.as_str());
    out.append(" : public ");
    out.append(c.base.as_str());
    out.append("\n{\n  Q_OBJECT\n");
    let properties = print_properties(&c.properties);
    out.append(properties.as_str());
    out.append("\npublic:\n");
    let declarations = print_declarations(&c.methods);
    out.append(declarations.as_str());
    out.append("\nprivate:\n");
    let members = print_members(&c.properties);
    out.append(members.as_str());
    out.append("};\n");
    let close = print_close_namespace(c.namespace.as_str());
    out.append(close.as_str());
    out
}

/// Prints the source of a class.
pub fn print_source(c: &Class) -> (out: String)
    ensures
        out@ == source_text(c@),
{
    let mut out = print_open_namespace(c.namespace.as_str());
    let definitions = print_definitions(c.name.as_str(), &c.methods);
    out.append(definitions.as_str());
    let close = print_close_namespace(c.namespace.as_str());
    out.append(close.as_str());
    out
}

/// Prints the headers of the classes, one after another.
pub fn print_headers(classes: &Vec<Class>) -> (out: String)
    ensures
        out@ == headers_text(class_views(classes@), classes@.len() as int),
{
    let ghost views = class_views(classes@);
    let mut out = String::new();
    let n: usize = classes.len();
    let mut i: usize = 0;
    while i < n
        invariant
            n == classes@.len(),
            i <= n,
            views == class_views(classes@),
            out@ == headers_text(views, i as int),
        decreases n - i,
    {
        let piece = print_header(&classes[i]);
        out.append(piece.as_str());
        i = i + 1;
    }
    out
}

/// Prints the sources of the classes, one after another.
pub fn print_sources(classes: &Vec<Class>) -> (out: String)
    ensures
        out@ == sources_text(class_views(classes@), classes@.len() as int),
{
    let ghost views = class_views(classes@);
    let mut out = String::new();
    let n: usize = classes.len();
    let mut i: usize = 0;
    while i < n
        invariant
            n == classes@.len(),
            i <= n,
            views == class_views(classes@),
            out@ == sources_text(views, i as int),
        decreases n - i,
    {
        let piece = print_source(&classes[i]);
        out.append(piece.as_str());
        i = i + 1;
    }
    out
}

fn print_glue_params(fields: &Vec<Field>) -> (out: String)
    ensures
        out@ == glue_params_text(field_views(fields@), fields@.len() as int),
{
    let ghost views = field_views(fields@);
    let mut out = String::new();
    let n: usize = fields.len();
    let mut i: usize = 0;
    while i < n
        invariant
            n == fields@.len(),
            i <= n,
            views == field_views(fields@),
            out@ == glue_params_text(views, i as int),
        decreases n - i,
    {
        let f = &fields[i];
        let mut piece = f.name.clone();
        piece.append(": ");
        piece.append(f.ty.source.as_str());
        piece.append(" as ");
        piece.append(f.ty.native.as_str());
        if i == 0 {
            out = piece;
        } else {
            out.append(", ");
            out.append(piece.as_str());
        }
        i = i + 1;
    }
    out
}

fn print_glue_ret(ret: &Option<TypeRef>) -> (out: String)
    ensures
        out@ == glue_ret_text(type_ref_opt(*ret)),
{
    match ret {
        Some(t) => {
            let mut out = String::from_str(" -> ");
            out.append(t.source.as_str());
            out.append(" as ");
            out.append(t.native.as_str());
            out
        },
        None => String::from_str(""),
    }
}

/// Prints one glue declaration.
pub fn print_glue_decl(g: &GlueDecl) -> (out: String)
    ensures
        out@ == glue_text(g@),
{
    let mut out = String::from_str("fn ");
    out.append(g.owner.as_str());
    out.append("::");
    out.append(g.name.as_str());
    out.append("(");
    let params = print_glue_params(&g.params);
    out.append(params.as_str());
    out.append(")");
    let ret = print_glue_ret(&g.ret);
    out.append(ret.as_str());
    out.append(";\n");
    out
}

/// Prints the glue declarations, one line each.
pub fn print_glue(decls: &Vec<GlueDecl>) -> (out: String)
    ensures
        out@ == glue_lines_text(glue_views(decls@), decls@.len() as int),
{
    let ghost views = glue_views(decls@);
    let mut out = String::new();
    let n: usize = decls.len();
    let mut i: usize = 0;
    while i < n
        invariant
            n == decls@.len(),
            i <= n,
            views == glue_views(decls@),
            out@ == glue_lines_text(views, i as int),
        decreases n - i,
    {
        let piece = print_glue_decl(&decls[i]);
        out.append(piece.as_str());
        i = i + 1;
    }
    out
}

} // verus!
