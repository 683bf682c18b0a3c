use export_merge::ast::{
    ConstDecl, Declaration, ExportSpecifier, Id, Ident, ImportDecl, ImportSpecifier, Init,
    ModuleItem, ModuleRecord, NamedExport, Source, Span, Specifier, VarDeclarator,
};
use export_merge::hoist::handle_reexport;
use export_merge::inject::ExportInjector;
use export_merge::merge::{
    finish_merge, merge_export, merge_step, MergeAction, MergeEvent, MergeState,
};
use export_merge::unexport::MergeError;
use swc_common::{BytePos, SyntaxContext, DUMMY_SP};
use swc_ecma_ast as js;

const ENTRY: u32 = 1;
const DEP: u32 = 2;
const DEP_EXPORT: u32 = 3;

fn nowhere() -> Span {
    Span { lo: 0, hi: 0 }
}

fn name(sym: &str, ctxt: u32) -> Ident {
    Ident::new(sym.to_string(), ctxt, nowhere())
}

fn id(sym: &str, ctxt: u32) -> Id {
    Id::new(sym.to_string(), ctxt)
}

fn record(wrapped: Option<Id>) -> ModuleRecord {
    ModuleRecord { id: 40, local_ctxt: DEP, export_ctxt: DEP_EXPORT, wrapped }
}

fn number(value: f64) -> Box<js::Expr> {
    Box::new(js::Expr::Lit(js::Lit::Num(js::Number { span: DUMMY_SP, value, raw: None })))
}

fn log(value: f64) -> ModuleItem {
    ModuleItem::Stmt(js::Stmt::Expr(js::ExprStmt { span: DUMMY_SP, expr: number(value) }))
}

fn constant(sym: &str, ctxt: u32, value: f64) -> ModuleItem {
    let id = js::Ident::new(
        sym.into(),
        swc_common::Span::new(BytePos(0), BytePos(0)),
        SyntaxContext::from_u32(ctxt),
    );
    ModuleItem::Decl(Declaration::Var(Box::new(js::VarDecl {
        span: DUMMY_SP,
        ctxt: SyntaxContext::empty(),
        kind: js::VarDeclKind::Const,
        declare: false,
        decls: vec![js::VarDeclarator {
            span: DUMMY_SP,
            name: js::Pat::Ident(js::BindingIdent { id, type_ann: None }),
            init: Some(number(value)),
            definite: false,
        }],
    })))
}

fn class(sym: &str, ctxt: u32) -> Declaration {
    Declaration::Class {
        ident: name(sym, ctxt),
        declare: false,
        class: Box::new(js::Class::default()),
    }
}

fn declarator(to: Ident, from: Ident, definite: bool) -> VarDeclarator {
    VarDeclarator { span: nowhere(), name: to, init: Init::Ident(from), definite }
}

fn konst(decls: Vec<VarDeclarator>) -> ModuleItem {
    ModuleItem::Decl(Declaration::Const(ConstDecl { span: nowhere(), decls }))
}

fn named(orig: Ident, exported: Option<Ident>) -> ExportSpecifier {
    ExportSpecifier::Named { span: nowhere(), orig, exported }
}

fn export_named(specifiers: Vec<ExportSpecifier>, src: Option<&str>) -> ModuleItem {
    ModuleItem::ExportNamed(NamedExport {
        span: nowhere(),
        specifiers,
        src: src.map(|s| s.to_string()),
        type_only: false,
    })
}

fn unsupported() -> ModuleItem {
    ModuleItem::Unsupported(js::ModuleDecl::TsNamespaceExport(js::TsNamespaceExportDecl {
        span: DUMMY_SP,
        id: js::Ident::new_no_ctxt("ns".into(), DUMMY_SP),
    }))
}

/// Runs a merge to its end, answering with the given record and bodies.
fn run(
    specifiers: &Vec<Specifier>,
    record: Option<ModuleRecord>,
    body: Option<Vec<ModuleItem>>,
    wrapped: Option<Vec<ModuleItem>>,
) -> Result<Vec<ModuleItem>, MergeError> {
    let mut body = body;
    let mut wrapped = wrapped;
    let (mut state, mut action) = merge_export(40);
    loop {
        let event = match action {
            MergeAction::LookUp { id } => {
                assert_eq!(id, 40);
                MergeEvent::Record(record.clone())
            }
            MergeAction::Load { id } => {
                assert_eq!(id, 40);
                MergeEvent::Body(body.take())
            }
            MergeAction::Wrap { id, .. } => {
                assert_eq!(id, 40);
                MergeEvent::Wrapped(wrapped.take())
            }
            MergeAction::Finish(out) => {
                assert_eq!(state, MergeState::Done);
                return Ok(out);
            }
            MergeAction::Fail(e) => {
                assert_eq!(state, MergeState::Done);
                return Err(e);
            }
        };
        let next = merge_step(40, specifiers, state, event);
        state = next.0;
        action = next.1;
    }
}

#[test]
fn merge_starts_by_asking_for_the_record() {
    let (state, action) = merge_export(12);
    assert_eq!(state, MergeState::AwaitRecord);
    assert_eq!(action, MergeAction::LookUp { id: 12 });
}

#[test]
fn canonical_merge_binds_the_importers_names_to_the_dependencys() {
    // const foo = 1; const bar = 2; export { foo as bar, bar as baz };
    // The exported names carry the importer's context.
    let dep = vec![
        constant("foo", DEP, 1.0),
        constant("bar", DEP, 2.0),
        export_named(
            vec![
                named(name("foo", DEP), Some(name("bar", ENTRY))),
                named(name("bar", DEP), Some(name("baz", ENTRY))),
            ],
            None,
        ),
    ];
    let specifiers = vec![
        Specifier::Specific { local: id("bar", ENTRY), alias: None },
        Specifier::Specific { local: id("baz", ENTRY), alias: None },
    ];
    let merged = run(&specifiers, Some(record(None)), Some(dep), None).unwrap();
    let expected_dep = || {
        vec![
            constant("foo", DEP, 1.0),
            constant("bar", DEP, 2.0),
            konst(vec![
                declarator(name("bar", ENTRY), name("foo", DEP), true),
                declarator(name("baz", ENTRY), name("bar", DEP), true),
            ]),
        ]
    };
    assert_eq!(merged, expected_dep());

    // import { bar, baz } from './dep'; console.log(bar, baz);
    let entry = vec![
        ModuleItem::Import(ImportDecl {
            specifiers: vec![
                ImportSpecifier::Named { local: name("bar", ENTRY), imported: None },
                ImportSpecifier::Named { local: name("baz", ENTRY), imported: None },
            ],
            src: "./dep".to_string(),
            type_only: false,
        }),
        log(0.0),
    ];
    let injector = ExportInjector {
        imported: merged,
        source: Source { src: "./dep".to_string(), export_ctxt: DEP_EXPORT },
    };
    let (out, rest) = injector.inject(entry);
    let mut expected = expected_dep();
    expected.push(log(0.0));
    assert_eq!(out, expected);
    assert_eq!(rest, vec![]);
}

#[test]
fn wrapped_dependency_gets_one_namespace_binding() {
    let specifiers = vec![
        Specifier::Specific { local: id("other", ENTRY), alias: None },
        Specifier::Namespace { local: id("ns", ENTRY), all: true },
        Specifier::Namespace { local: id("second", ENTRY), all: true },
    ];
    let rec = record(Some(id("mod", 9)));
    let (state, action) = merge_export(40);
    let (state, action) = {
        assert_eq!(action, MergeAction::LookUp { id: 40 });
        merge_step(40, &specifiers, state, MergeEvent::Record(Some(rec.clone())))
    };
    assert_eq!(state, MergeState::AwaitBody { record: rec.clone() });
    assert_eq!(action, MergeAction::Load { id: 40 });
    let body = vec![ModuleItem::ExportDecl(class("K", DEP))];
    let (state, action) = merge_step(40, &specifiers, state, MergeEvent::Body(Some(body)));
    assert_eq!(state, MergeState::AwaitWrapped { record: rec.clone() });
    let hoisted = vec![
        ModuleItem::ExportDecl(class("K", DEP)),
        konst(vec![declarator(name("K", DEP_EXPORT), name("K", DEP), false)]),
    ];
    assert_eq!(action, MergeAction::Wrap { id: 40, body: hoisted });
    // The wrapping transform hands back a body of its own making.
    let wrapped = vec![log(5.0)];
    let (state, action) = merge_step(40, &specifiers, state, MergeEvent::Wrapped(Some(wrapped)));
    assert_eq!(state, MergeState::Done);
    let expected = vec![
        log(5.0),
        konst(vec![declarator(name("ns", ENTRY), name("mod", 9), false)]),
    ];
    assert_eq!(action, MergeAction::Finish(expected));
}

#[test]
fn wrapped_dependency_without_namespace_specifier_gets_no_binding() {
    let specifiers = vec![Specifier::Specific { local: id("other", ENTRY), alias: None }];
    let out = finish_merge(&record(Some(id("mod", 9))), vec![log(5.0)], &specifiers);
    assert_eq!(out, Ok(vec![log(5.0)]));
}

#[test]
fn merge_with_an_empty_list_keeps_everything_as_hoisted() {
    let body = vec![
        ModuleItem::ExportDecl(class("K", DEP)),
        export_named(vec![named(name("K", DEP), Some(name("L", ENTRY)))], None),
        ModuleItem::ExportDefaultExpr(number(1.0)),
        unsupported(),
    ];
    let out = run(&vec![], Some(record(None)), Some(body), None).unwrap();
    let expected = vec![
        ModuleItem::ExportDecl(class("K", DEP)),
        konst(vec![declarator(name("K", DEP_EXPORT), name("K", DEP), false)]),
        export_named(vec![named(name("K", DEP), Some(name("L", ENTRY)))], None),
        ModuleItem::ExportDefaultExpr(number(1.0)),
        unsupported(),
    ];
    assert_eq!(out, expected);
}

#[test]
fn merge_with_a_list_runs_all_three_passes() {
    let body = vec![
        ModuleItem::ExportDecl(class("K", DEP)),
        ModuleItem::ExportDecl(class("Dead", DEP)),
        ModuleItem::ExportDefaultExpr(number(1.0)),
    ];
    let specifiers = vec![Specifier::Specific { local: id("K", DEP), alias: None }];
    let out = run(&specifiers, Some(record(None)), Some(body), None).unwrap();
    let expected = vec![
        ModuleItem::Decl(class("K", DEP)),
        konst(vec![declarator(name("K", DEP_EXPORT), name("K", DEP), false)]),
        ModuleItem::Empty,
        konst(vec![declarator(name("Dead", DEP_EXPORT), name("Dead", DEP), false)]),
        ModuleItem::Decl(Declaration::Const(ConstDecl {
            span: nowhere(),
            decls: vec![VarDeclarator {
                span: nowhere(),
                name: name("__default", DEP_EXPORT),
                init: Init::Expr(number(1.0)),
                definite: false,
            }],
        })),
    ];
    assert_eq!(out, expected);
}

#[test]
fn merge_fails_when_the_registry_has_no_record() {
    let out = run(&vec![], None, Some(vec![]), None);
    assert_eq!(out, Err(MergeError::MissingModule { id: 40 }));
}

#[test]
fn merge_fails_when_the_dependency_cannot_be_loaded() {
    let out = run(&vec![], Some(record(None)), None, None);
    assert_eq!(out, Err(MergeError::LoadFailed { id: 40 }));
}

#[test]
fn merge_fails_when_the_dependency_cannot_be_wrapped() {
    let out = run(&vec![], Some(record(Some(id("mod", 9)))), Some(vec![]), None);
    assert_eq!(out, Err(MergeError::WrapFailed { id: 40 }));
}

#[test]
fn merge_fails_on_an_unsupported_declaration_when_specifiers_are_given() {
    let body = vec![ModuleItem::ExportDecl(class("K", DEP)), log(1.0), unsupported()];
    let specifiers = vec![Specifier::Specific { local: id("K", DEP), alias: None }];
    let out = run(&specifiers, Some(record(None)), Some(body), None);
    // The alias of K stands before the unsupported declaration.
    assert_eq!(out, Err(MergeError::UnexpectedDeclaration { index: 3 }));
}

#[test]
fn merge_rejects_an_answer_out_of_turn() {
    let specifiers: Vec<Specifier> = vec![];
    let (state, action) =
        merge_step(7, &specifiers, MergeState::AwaitRecord, MergeEvent::Body(Some(vec![])));
    assert_eq!(state, MergeState::Done);
    assert_eq!(action, MergeAction::Fail(MergeError::OutOfTurn { id: 7 }));
    let (state, action) =
        merge_step(7, &specifiers, MergeState::Done, MergeEvent::Record(Some(record(None))));
    assert_eq!(state, MergeState::Done);
    assert_eq!(action, MergeAction::Fail(MergeError::OutOfTurn { id: 7 }));
    let awaiting = MergeState::AwaitWrapped { record: record(None) };
    let (_, action) = merge_step(7, &specifiers, awaiting, MergeEvent::Body(None));
    assert_eq!(action, MergeAction::Fail(MergeError::OutOfTurn { id: 7 }));
}

#[test]
fn reexport_chain_resolves_to_the_one_declaration() {
    // C: export class X {}        (local context 10, export context 11)
    // B: export { X } from './c'  (export context 21), X marked with C's export context
    // A: export { X } from './b'  (export context 31), X marked with B's export context
    let c = ModuleRecord { id: 3, local_ctxt: 10, export_ctxt: 11, wrapped: None };
    let b = ModuleRecord { id: 2, local_ctxt: 20, export_ctxt: 21, wrapped: None };
    let a = ModuleRecord { id: 1, local_ctxt: 30, export_ctxt: 31, wrapped: None };
    let for_c = vec![Specifier::Specific { local: id("X", 10), alias: None }];
    let for_b = vec![Specifier::Specific { local: id("X", 20), alias: None }];
    let for_a = vec![Specifier::Specific { local: id("X", 30), alias: None }];
    let body_c = vec![ModuleItem::ExportDecl(class("X", 10))];
    let merged_c = finish_merge(&c, handle_reexport(&c, body_c), &for_c).unwrap();

    let body_b = vec![export_named(vec![named(name("X", 11), None)], Some("./c"))];
    let injector = ExportInjector {
        imported: merged_c,
        source: Source { src: "./c".to_string(), export_ctxt: 11 },
    };
    let (assembled_b, _) = injector.inject(body_b);
    let merged_b = finish_merge(&b, handle_reexport(&b, assembled_b), &for_b).unwrap();

    let body_a = vec![log(1.0), export_named(vec![named(name("X", 21), None)], Some("./b"))];
    let injector = ExportInjector {
        imported: merged_b,
        source: Source { src: "./b".to_string(), export_ctxt: 21 },
    };
    let (assembled_a, _) = injector.inject(body_a);
    let merged_a = finish_merge(&a, handle_reexport(&a, assembled_a), &for_a).unwrap();

    let expected = vec![
        log(1.0),
        ModuleItem::Decl(class("X", 10)),
        konst(vec![declarator(name("X", 11), name("X", 10), false)]),
        konst(vec![declarator(name("X", 21), name("X", 11), false)]),
        konst(vec![declarator(name("X", 31), name("X", 21), false)]),
    ];
    assert_eq!(merged_a, expected);
    let declarations = merged_a
        .iter()
        .filter(|item| matches!(item, ModuleItem::Decl(Declaration::Class { .. })))
        .count();
    assert_eq!(declarations, 1);
}
