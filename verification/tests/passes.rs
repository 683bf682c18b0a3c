use export_merge::ast::{
    ConstDecl, Declaration, DefaultDecl, ExportAll, ExportSpecifier, Id, Ident, ImportDecl,
    ImportSpecifier, Init, ModuleItem, ModuleRecord, NamedExport, Span, Specifier, VarDeclarator,
};
use export_merge::hoist::{
    declared, export_alias_items, handle_reexport, make_alias, make_const,
};
use export_merge::rewrite::{default_variable, unexport_all_as_var, unexport_as_var};
use export_merge::unexport::{DepUnexporter, MergeError};
use swc_common::{BytePos, SyntaxContext, DUMMY_SP};
use swc_ecma_ast as js;

const LOCAL: u32 = 2;
const EXPORT: u32 = 7;

fn nowhere() -> Span {
    Span { lo: 0, hi: 0 }
}

fn ident(sym: &str, ctxt: u32) -> Ident {
    Ident::new(sym.to_string(), ctxt, nowhere())
}

fn ident_at(sym: &str, ctxt: u32, lo: u32, hi: u32) -> Ident {
    Ident::new(sym.to_string(), ctxt, Span { lo, hi })
}

fn id(sym: &str, ctxt: u32) -> Id {
    Id::new(sym.to_string(), ctxt)
}

fn record() -> ModuleRecord {
    ModuleRecord { id: 1, local_ctxt: LOCAL, export_ctxt: EXPORT, wrapped: None }
}

fn js_ident(sym: &str, ctxt: u32, lo: u32, hi: u32) -> js::Ident {
    js::Ident::new(
        sym.into(),
        swc_common::Span::new(BytePos(lo), BytePos(hi)),
        SyntaxContext::from_u32(ctxt),
    )
}

fn number(value: f64) -> Box<js::Expr> {
    Box::new(js::Expr::Lit(js::Lit::Num(js::Number { span: DUMMY_SP, value, raw: None })))
}

fn binding(sym: &str, ctxt: u32, lo: u32, hi: u32) -> js::Pat {
    js::Pat::Ident(js::BindingIdent { id: js_ident(sym, ctxt, lo, hi), type_ann: None })
}

fn var_decl(name: js::Pat, init: Box<js::Expr>) -> Box<js::VarDecl> {
    Box::new(js::VarDecl {
        span: DUMMY_SP,
        ctxt: SyntaxContext::empty(),
        kind: js::VarDeclKind::Const,
        declare: false,
        decls: vec![js::VarDeclarator { span: DUMMY_SP, name, init: Some(init), definite: false }],
    })
}

fn class(sym: &str, ctxt: u32) -> Declaration {
    Declaration::Class {
        ident: ident(sym, ctxt),
        declare: false,
        class: Box::new(js::Class::default()),
    }
}

fn function(sym: &str, ctxt: u32) -> Declaration {
    Declaration::Fn {
        ident: ident(sym, ctxt),
        declare: false,
        function: Box::new(js::Function::default()),
    }
}

fn statement() -> ModuleItem {
    ModuleItem::Stmt(js::Stmt::Expr(js::ExprStmt { span: DUMMY_SP, expr: number(9.0) }))
}

fn konst(span: Span, decls: Vec<VarDeclarator>) -> ModuleItem {
    ModuleItem::Decl(Declaration::Const(ConstDecl { span, decls }))
}

fn alias(to: Id, from: Ident) -> ModuleItem {
    konst(
        nowhere(),
        vec![VarDeclarator {
            span: nowhere(),
            name: Ident { id: to, span: nowhere() },
            init: Init::Ident(from),
            definite: false,
        }],
    )
}

fn import(src: &str, specifiers: Vec<ImportSpecifier>) -> ModuleItem {
    ModuleItem::Import(ImportDecl { specifiers, src: src.to_string(), type_only: false })
}

fn export_named(span: Span, specifiers: Vec<ExportSpecifier>, src: Option<&str>) -> ModuleItem {
    ModuleItem::ExportNamed(NamedExport {
        span,
        specifiers,
        src: src.map(|s| s.to_string()),
        type_only: false,
    })
}

fn named(orig: Ident, exported: Option<Ident>) -> ExportSpecifier {
    ExportSpecifier::Named { span: Span { lo: 40, hi: 50 }, orig, exported }
}

fn unsupported() -> ModuleItem {
    ModuleItem::Unsupported(js::ModuleDecl::TsNamespaceExport(js::TsNamespaceExportDecl {
        span: DUMMY_SP,
        id: js_ident("ns", 0, 0, 0),
    }))
}

/// The top-level bindings of a body, as (name, context) pairs.
fn bindings(body: &Vec<ModuleItem>) -> Vec<(String, u32)> {
    let mut out = Vec::new();
    for item in body {
        let ids = match item {
            ModuleItem::Decl(d) | ModuleItem::ExportDecl(d) => declared(d),
            ModuleItem::Import(i) => i
                .specifiers
                .iter()
                .map(|s| match s {
                    ImportSpecifier::Named { local, .. } => local.dup(),
                    ImportSpecifier::Default { local } => local.dup(),
                    ImportSpecifier::Namespace { local } => local.dup(),
                })
                .collect(),
            _ => Vec::new(),
        };
        for i in ids {
            out.push((i.id.sym, i.id.ctxt));
        }
    }
    out
}

#[test]
fn make_alias_drops_the_position_of_the_target_name() {
    let item = make_alias(&ident_at("b", 1, 10, 11), &ident_at("a", 2, 20, 21));
    assert_eq!(item, alias(id("b", 1), ident_at("a", 2, 20, 21)));
}

#[test]
fn make_const_keeps_name_and_initializer() {
    let item = make_const(ident_at("v", 3, 5, 6), Init::Expr(number(4.0)));
    let expected = konst(
        nowhere(),
        vec![VarDeclarator {
            span: nowhere(),
            name: ident_at("v", 3, 5, 6),
            init: Init::Expr(number(4.0)),
            definite: false,
        }],
    );
    assert_eq!(item, expected);
}

#[test]
fn export_aliases_follow_the_names_in_order() {
    let names = vec![ident_at("a", LOCAL, 1, 2), ident_at("b", 5, 3, 4)];
    let expected = vec![
        alias(id("a", EXPORT), ident_at("a", LOCAL, 1, 2)),
        alias(id("b", EXPORT), ident_at("b", 5, 3, 4)),
    ];
    assert_eq!(export_alias_items(&names, EXPORT), expected);
    assert_eq!(export_alias_items(&vec![], EXPORT), vec![]);
}

#[test]
fn default_variable_is_named_default_under_the_export_context() {
    let item = default_variable(number(3.0), Span { lo: 12, hi: 14 }, EXPORT);
    let expected = konst(
        nowhere(),
        vec![VarDeclarator {
            span: nowhere(),
            name: ident_at("__default", EXPORT, 12, 14),
            init: Init::Expr(number(3.0)),
            definite: false,
        }],
    );
    assert_eq!(item, expected);
}

#[test]
fn hoist_turns_aliased_import_specifiers_into_variables() {
    let body = vec![import(
        "./x",
        vec![
            ImportSpecifier::Named {
                local: ident_at("b", LOCAL, 1, 2),
                imported: Some(ident_at("a", LOCAL, 3, 4)),
            },
            ImportSpecifier::Named { local: ident("c", LOCAL), imported: None },
            ImportSpecifier::Default { local: ident("d", LOCAL) },
            ImportSpecifier::Namespace { local: ident("n", LOCAL) },
            ImportSpecifier::Named {
                local: ident("f", LOCAL),
                imported: Some(ident("e", LOCAL)),
            },
        ],
    )];
    let out = handle_reexport(&record(), body);
    let expected = vec![
        import("./x", vec![]),
        alias(id("b", LOCAL), ident_at("a", LOCAL, 3, 4)),
        alias(id("f", LOCAL), ident("e", LOCAL)),
    ];
    assert_eq!(out, expected);
}

#[test]
fn hoist_gives_exported_class_and_function_an_export_alias() {
    let body = vec![
        ModuleItem::ExportDecl(class("Foo", LOCAL)),
        ModuleItem::ExportDecl(function("bar", LOCAL)),
    ];
    let out = handle_reexport(&record(), body);
    let expected = vec![
        ModuleItem::ExportDecl(class("Foo", LOCAL)),
        alias(id("Foo", EXPORT), ident("Foo", LOCAL)),
        ModuleItem::ExportDecl(function("bar", LOCAL)),
        alias(id("bar", EXPORT), ident("bar", LOCAL)),
    ];
    assert_eq!(out, expected);
}

fn destructuring() -> Box<js::VarDecl> {
    // const { p, q: [r, , s = 1], ...t } = 0
    let inner = js::Pat::Array(js::ArrayPat {
        span: DUMMY_SP,
        elems: vec![
            Some(binding("r", LOCAL, 5, 6)),
            None,
            Some(js::Pat::Assign(js::AssignPat {
                span: DUMMY_SP,
                left: Box::new(binding("s", LOCAL, 7, 8)),
                right: Box::new(js::Expr::Ident(js_ident("not_bound", LOCAL, 0, 0))),
            })),
        ],
        optional: false,
        type_ann: None,
    });
    let pattern = js::Pat::Object(js::ObjectPat {
        span: DUMMY_SP,
        props: vec![
            js::ObjectPatProp::Assign(js::AssignPatProp {
                span: DUMMY_SP,
                key: js::BindingIdent { id: js_ident("p", LOCAL, 1, 2), type_ann: None },
                value: None,
            }),
            js::ObjectPatProp::KeyValue(js::KeyValuePatProp {
                key: js::PropName::Ident(js::IdentName::new("q".into(), DUMMY_SP)),
                value: Box::new(inner),
            }),
            js::ObjectPatProp::Rest(js::RestPat {
                span: DUMMY_SP,
                dot3_token: DUMMY_SP,
                arg: Box::new(binding("t", LOCAL, 9, 10)),
                type_ann: None,
            }),
        ],
        optional: false,
        type_ann: None,
    });
    var_decl(pattern, number(0.0))
}

#[test]
fn declared_names_of_a_destructuring_statement_come_in_source_order() {
    let names = declared(&Declaration::Var(destructuring()));
    let expected = vec![
        ident_at("p", LOCAL, 1, 2),
        ident_at("r", LOCAL, 5, 6),
        ident_at("s", LOCAL, 7, 8),
        ident_at("t", LOCAL, 9, 10),
    ];
    assert_eq!(names, expected);
}

#[test]
fn declared_names_of_the_other_declarations() {
    assert_eq!(declared(&class("C", 4)), vec![ident("C", 4)]);
    assert_eq!(declared(&function("f", 4)), vec![ident("f", 4)]);
    let synthesized = Declaration::Const(ConstDecl {
        span: nowhere(),
        decls: vec![
            VarDeclarator {
                span: nowhere(),
                name: ident("a", 1),
                init: Init::Ident(ident("b", 2)),
                definite: false,
            },
            VarDeclarator {
                span: nowhere(),
                name: ident("c", 1),
                init: Init::Expr(number(1.0)),
                definite: true,
            },
        ],
    });
    assert_eq!(declared(&synthesized), vec![ident("a", 1), ident("c", 1)]);
    let interface = Declaration::TsInterface(Box::new(js::TsInterfaceDecl {
        span: DUMMY_SP,
        id: js_ident("I", 1, 0, 0),
        declare: false,
        type_params: None,
        extends: vec![],
        body: js::TsInterfaceBody { span: DUMMY_SP, body: vec![] },
    }));
    assert_eq!(declared(&interface), Vec::<Ident>::new());
}

#[test]
fn hoist_gives_every_name_of_an_exported_variable_statement_an_alias() {
    let body = vec![ModuleItem::ExportDecl(Declaration::Var(destructuring()))];
    let out = handle_reexport(&record(), body);
    let expected = vec![
        ModuleItem::ExportDecl(Declaration::Var(destructuring())),
        alias(id("p", EXPORT), ident_at("p", LOCAL, 1, 2)),
        alias(id("r", EXPORT), ident_at("r", LOCAL, 5, 6)),
        alias(id("s", EXPORT), ident_at("s", LOCAL, 7, 8)),
        alias(id("t", EXPORT), ident_at("t", LOCAL, 9, 10)),
    ];
    assert_eq!(out, expected);
}

#[test]
fn hoist_keeps_statement_order_and_places_aliases_after_their_statement() {
    let body = vec![
        statement(),
        ModuleItem::ExportDecl(class("A", LOCAL)),
        ModuleItem::Decl(function("g", LOCAL)),
        import(
            "./y",
            vec![ImportSpecifier::Named {
                local: ident("k", LOCAL),
                imported: Some(ident("j", LOCAL)),
            }],
        ),
        ModuleItem::Empty,
        export_named(nowhere(), vec![named(ident("g", LOCAL), None)], None),
    ];
    let out = handle_reexport(&record(), body);
    let expected = vec![
        statement(),
        ModuleItem::ExportDecl(class("A", LOCAL)),
        alias(id("A", EXPORT), ident("A", LOCAL)),
        ModuleItem::Decl(function("g", LOCAL)),
        import("./y", vec![]),
        alias(id("k", LOCAL), ident("j", LOCAL)),
        ModuleItem::Empty,
        export_named(nowhere(), vec![named(ident("g", LOCAL), None)], None),
    ];
    assert_eq!(out, expected);
}

#[test]
fn hoist_of_an_empty_body_is_empty() {
    assert_eq!(handle_reexport(&record(), vec![]), vec![]);
}

#[test]
fn default_expression_becomes_the_default_variable_at_its_position() {
    let expr = Box::new(js::Expr::Ident(js_ident("value", LOCAL, 3, 8)));
    let out = unexport_as_var(ModuleItem::ExportDefaultExpr(expr), EXPORT);
    let expected = konst(
        nowhere(),
        vec![VarDeclarator {
            span: nowhere(),
            name: ident_at("__default", EXPORT, 3, 8),
            init: Init::Expr(Box::new(js::Expr::Ident(js_ident("value", LOCAL, 3, 8)))),
            definite: false,
        }],
    );
    assert_eq!(out, expected);
}

#[test]
fn named_export_becomes_one_const_statement() {
    let span = Span { lo: 30, hi: 60 };
    let item = export_named(
        span,
        vec![
            // alias with another name
            named(ident("foo", LOCAL), Some(ident_at("bar", 1, 2, 3))),
            // alias with the same name and context: nothing
            named(ident("same", LOCAL), Some(ident("same", LOCAL))),
            // alias with the same name in another context
            named(ident("x", LOCAL), Some(ident("x", EXPORT))),
            // no alias, outside the export context
            named(ident_at("y", LOCAL, 8, 9), None),
            // no alias, already in the export context: nothing
            named(ident("z", EXPORT), None),
            ExportSpecifier::Namespace { name: ident("ns", LOCAL) },
            ExportSpecifier::Default { exported: ident("d", LOCAL) },
        ],
        None,
    );
    let out = unexport_as_var(item, EXPORT);
    let at = Span { lo: 40, hi: 50 };
    let expected = konst(
        span,
        vec![
            VarDeclarator {
                span: at,
                name: ident_at("bar", 1, 2, 3),
                init: Init::Ident(ident("foo", LOCAL)),
                definite: true,
            },
            VarDeclarator {
                span: at,
                name: ident("x", EXPORT),
                init: Init::Ident(ident("x", LOCAL)),
                definite: true,
            },
            VarDeclarator {
                span: at,
                name: ident_at("y", EXPORT, 8, 9),
                init: Init::Ident(ident_at("y", LOCAL, 8, 9)),
                definite: false,
            },
        ],
    );
    assert_eq!(out, expected);
}

#[test]
fn named_export_without_new_names_becomes_the_empty_statement() {
    let item = export_named(
        nowhere(),
        vec![
            named(ident("z", EXPORT), None),
            named(ident("same", LOCAL), Some(ident("same", LOCAL))),
        ],
        None,
    );
    assert_eq!(unexport_as_var(item, EXPORT), ModuleItem::Empty);
    let none = export_named(nowhere(), vec![], None);
    assert_eq!(unexport_as_var(none, EXPORT), ModuleItem::Empty);
}

#[test]
fn rewriter_leaves_everything_else_alone() {
    let body = vec![
        export_named(nowhere(), vec![named(ident("a", LOCAL), None)], Some("./other")),
        ModuleItem::ExportDecl(class("A", LOCAL)),
        import("./y", vec![ImportSpecifier::Default { local: ident("d", LOCAL) }]),
        statement(),
        ModuleItem::ExportAll(ExportAll { src: "./z".to_string(), type_only: false }),
        ModuleItem::Empty,
        unsupported(),
    ];
    let expected = vec![
        export_named(nowhere(), vec![named(ident("a", LOCAL), None)], Some("./other")),
        ModuleItem::ExportDecl(class("A", LOCAL)),
        import("./y", vec![ImportSpecifier::Default { local: ident("d", LOCAL) }]),
        statement(),
        ModuleItem::ExportAll(ExportAll { src: "./z".to_string(), type_only: false }),
        ModuleItem::Empty,
        unsupported(),
    ];
    assert_eq!(unexport_all_as_var(body, EXPORT), expected);
}

#[test]
fn rewriter_works_statement_by_statement() {
    let body = vec![
        statement(),
        ModuleItem::ExportDefaultExpr(number(1.0)),
        export_named(nowhere(), vec![named(ident("z", EXPORT), None)], None),
    ];
    let out = unexport_all_as_var(body, EXPORT);
    assert_eq!(out.len(), 3);
    assert_eq!(out[0], statement());
    assert_eq!(out[1], unexport_as_var(ModuleItem::ExportDefaultExpr(number(1.0)), EXPORT));
    assert_eq!(out[2], ModuleItem::Empty);
}

#[test]
fn is_exported_with_an_empty_list_is_true() {
    let exports: Vec<Specifier> = vec![];
    let unexporter = DepUnexporter { exports: &exports };
    assert!(unexporter.is_exported(&id("anything", 3)));
}

#[test]
fn is_exported_compares_name_and_context_of_the_local_binding() {
    let exports = vec![
        Specifier::Specific { local: id("y", 1), alias: Some(id("other", 1)) },
        Specifier::Namespace { local: id("ns", 1), all: false },
    ];
    let unexporter = DepUnexporter { exports: &exports };
    assert!(unexporter.is_exported(&id("y", 1)));
    assert!(unexporter.is_exported(&id("ns", 1)));
    assert!(!unexporter.is_exported(&id("y", 2)));
    assert!(!unexporter.is_exported(&id("x", 1)));
    assert!(!unexporter.is_exported(&id("other", 1)));
}

#[test]
fn is_exported_is_true_under_a_namespace_that_subsumes_all() {
    let exports = vec![
        Specifier::Specific { local: id("y", 1), alias: None },
        Specifier::Namespace { local: id("ns", 1), all: true },
    ];
    let unexporter = DepUnexporter { exports: &exports };
    assert!(unexporter.is_exported(&id("x", 9)));
}

#[test]
fn unexporter_keeps_only_demanded_classes_and_functions() {
    let exports = vec![Specifier::Specific { local: id("y", LOCAL), alias: None }];
    let unexporter = DepUnexporter { exports: &exports };
    let body = vec![
        ModuleItem::ExportDecl(class("x", LOCAL)),
        ModuleItem::ExportDecl(function("y", LOCAL)),
        ModuleItem::ExportDecl(function("x2", LOCAL)),
        ModuleItem::ExportDecl(class("y", LOCAL)),
    ];
    let out = unexporter.fold_module(body);
    let expected = vec![
        ModuleItem::Empty,
        ModuleItem::Decl(function("y", LOCAL)),
        ModuleItem::Empty,
        ModuleItem::Decl(class("y", LOCAL)),
    ];
    assert_eq!(out, Ok(expected));
}

#[test]
fn unexporter_keeps_variable_statements_only_for_the_empty_list() {
    let none: Vec<Specifier> = vec![];
    let some = vec![Specifier::Specific { local: id("v", LOCAL), alias: None }];
    let exported = || {
        ModuleItem::ExportDecl(Declaration::Var(var_decl(binding("v", LOCAL, 0, 0), number(1.0))))
    };
    let plain =
        ModuleItem::Decl(Declaration::Var(var_decl(binding("v", LOCAL, 0, 0), number(1.0))));
    assert_eq!(DepUnexporter { exports: &none }.fold_module_item(exported()), Ok(plain));
    assert_eq!(DepUnexporter { exports: &some }.fold_module_item(exported()), Ok(ModuleItem::Empty));
}

#[test]
fn unexporter_with_the_empty_list_keeps_every_exported_declaration() {
    let none: Vec<Specifier> = vec![];
    let unexporter = DepUnexporter { exports: &none };
    let body = vec![
        ModuleItem::ExportDecl(class("a", LOCAL)),
        ModuleItem::ExportDecl(function("b", LOCAL)),
        ModuleItem::ExportDecl(Declaration::Var(destructuring())),
    ];
    let expected = vec![
        ModuleItem::Decl(class("a", LOCAL)),
        ModuleItem::Decl(function("b", LOCAL)),
        ModuleItem::Decl(Declaration::Var(destructuring())),
    ];
    assert_eq!(unexporter.fold_module(body), Ok(expected));
}

#[test]
fn unexporter_normalizes_default_declarations() {
    let none: Vec<Specifier> = vec![];
    let unexporter = DepUnexporter { exports: &none };
    let interface = || {
        Box::new(js::TsInterfaceDecl {
            span: DUMMY_SP,
            id: js_ident("I", 1, 0, 0),
            declare: false,
            type_params: None,
            extends: vec![],
            body: js::TsInterfaceBody { span: DUMMY_SP, body: vec![] },
        })
    };
    let body = vec![
        ModuleItem::ExportDefaultDecl(DefaultDecl::Class {
            ident: Some(ident("C", LOCAL)),
            class: Box::new(js::Class::default()),
        }),
        ModuleItem::ExportDefaultDecl(DefaultDecl::Fn {
            ident: Some(ident("f", LOCAL)),
            function: Box::new(js::Function::default()),
        }),
        ModuleItem::ExportDefaultDecl(DefaultDecl::Class {
            ident: None,
            class: Box::new(js::Class::default()),
        }),
        ModuleItem::ExportDefaultDecl(DefaultDecl::Fn {
            ident: None,
            function: Box::new(js::Function::default()),
        }),
        ModuleItem::ExportDefaultDecl(DefaultDecl::TsInterface(interface())),
    ];
    let expected = vec![
        ModuleItem::Decl(class("C", LOCAL)),
        ModuleItem::Decl(function("f", LOCAL)),
        ModuleItem::Empty,
        ModuleItem::Empty,
        ModuleItem::Decl(Declaration::TsInterface(interface())),
    ];
    assert_eq!(unexporter.fold_module(body), Ok(expected));
}

#[test]
fn unexporter_empties_what_is_left_of_exports_and_passes_the_rest() {
    let exports = vec![Specifier::Specific { local: id("y", LOCAL), alias: None }];
    let unexporter = DepUnexporter { exports: &exports };
    let body = vec![
        ModuleItem::ExportAll(ExportAll { src: "./z".to_string(), type_only: false }),
        ModuleItem::ExportDefaultExpr(number(1.0)),
        export_named(nowhere(), vec![named(ident("a", LOCAL), None)], Some("./other")),
        export_named(nowhere(), vec![named(ident("a", LOCAL), None)], None),
        import("./y", vec![ImportSpecifier::Default { local: ident("d", LOCAL) }]),
        statement(),
        ModuleItem::Empty,
        ModuleItem::Decl(class("kept", LOCAL)),
    ];
    let expected = vec![
        ModuleItem::Empty,
        ModuleItem::Empty,
        ModuleItem::Empty,
        ModuleItem::Empty,
        import("./y", vec![ImportSpecifier::Default { local: ident("d", LOCAL) }]),
        statement(),
        ModuleItem::Empty,
        ModuleItem::Decl(class("kept", LOCAL)),
    ];
    assert_eq!(unexporter.fold_module(body), Ok(expected));
}

#[test]
fn unexporter_fails_loudly_on_an_unsupported_declaration() {
    let none: Vec<Specifier> = vec![];
    let unexporter = DepUnexporter { exports: &none };
    assert_eq!(unexporter.fold_module_item(unsupported()), Err(unsupported()));
    let body = vec![statement(), ModuleItem::ExportDecl(class("a", 1)), unsupported(), unsupported()];
    assert_eq!(
        unexporter.fold_module(body),
        Err(MergeError::UnexpectedDeclaration { index: 2 })
    );
}

#[test]
fn unexporting_again_with_the_empty_list_removes_nothing() {
    let exports = vec![Specifier::Specific { local: id("y", LOCAL), alias: None }];
    let none: Vec<Specifier> = vec![];
    let body = || {
        vec![
            ModuleItem::ExportDecl(class("x", LOCAL)),
            ModuleItem::ExportDecl(function("y", LOCAL)),
            ModuleItem::Decl(Declaration::Var(destructuring())),
            statement(),
            import("./y", vec![]),
        ]
    };
    let once = DepUnexporter { exports: &exports }.fold_module(body()).unwrap();
    let twice = DepUnexporter { exports: &none }
        .fold_module(DepUnexporter { exports: &exports }.fold_module(body()).unwrap())
        .unwrap();
    assert_eq!(once, twice);
    assert_eq!(twice[1], ModuleItem::Decl(function("y", LOCAL)));
}

#[test]
fn dead_export_leaves_no_binding_and_demanded_export_stays_usable() {
    // The dependency exports x and y; the importer requests only y.
    let exports = vec![Specifier::Specific { local: id("y", LOCAL), alias: None }];
    let body = vec![
        ModuleItem::ExportDecl(function("x", LOCAL)),
        ModuleItem::ExportDecl(function("y", LOCAL)),
    ];
    let out = DepUnexporter { exports: &exports }.fold_module(body).unwrap();
    let bound = bindings(&out);
    assert!(!bound.contains(&("x".to_string(), LOCAL)));
    assert!(bound.contains(&("y".to_string(), LOCAL)));
    assert_eq!(out[0], ModuleItem::Empty);
}

#[test]
fn bindings_stay_distinct_through_the_three_passes() {
    let exports = vec![
        Specifier::Specific { local: id("A", LOCAL), alias: None },
        Specifier::Specific { local: id("g", LOCAL), alias: None },
    ];
    let body = vec![
        ModuleItem::ExportDecl(class("A", LOCAL)),
        ModuleItem::Decl(function("g", LOCAL)),
        ModuleItem::ExportDecl(function("h", LOCAL)),
        export_named(nowhere(), vec![named(ident("g", LOCAL), Some(ident("renamed", EXPORT)))], None),
        ModuleItem::ExportDefaultExpr(number(1.0)),
    ];
    let hoisted = handle_reexport(&record(), body);
    let rewritten = unexport_all_as_var(hoisted, EXPORT);
    let out = DepUnexporter { exports: &exports }.fold_module(rewritten).unwrap();
    let bound = bindings(&out);
    let expected: Vec<(String, u32)> = vec![
        ("A".to_string(), LOCAL),
        ("A".to_string(), EXPORT),
        ("g".to_string(), LOCAL),
        ("h".to_string(), EXPORT),
        ("renamed".to_string(), EXPORT),
        ("__default".to_string(), EXPORT),
    ];
    assert_eq!(bound, expected);
    for (i, a) in bound.iter().enumerate() {
        for b in &bound[i + 1..] {
            assert_ne!(a, b);
        }
    }
}

#[test]
fn identifier_helpers() {
    let a = ident_at("a", 1, 4, 5);
    assert_eq!(a.dup(), ident_at("a", 1, 4, 5));
    assert_eq!(a.with_ctxt(9), ident_at("a", 9, 4, 5));
    assert_eq!(Ident::of(&id("q", 3)), ident("q", 3));
    assert!(id("a", 1).same(&id("a", 1)));
    assert!(!id("a", 1).same(&id("a", 2)));
    assert!(!id("a", 1).same(&id("b", 1)));
    assert_eq!(id("a", 1).dup(), id("a", 1));
    assert_eq!(Span::dummy(), nowhere());
}
