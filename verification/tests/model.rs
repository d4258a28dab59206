//! The rules run on trees written out by hand.

use overload_lint::context::Context;
use overload_lint::context::LintDiagnostic;
use overload_lint::context::Span;
use overload_lint::rules::adjacent_overload_signatures::extract_ident_from_decl;
use overload_lint::rules::adjacent_overload_signatures::AdjacentOverloadSignatures;
use overload_lint::rules::adjacent_overload_signatures::AdjacentOverloadSignaturesVisitor;
use overload_lint::rules::adjacent_overload_signatures::ExtractMethod;
use overload_lint::rules::adjacent_overload_signatures::Method;
use overload_lint::rules::adjacent_overload_signatures::MethodSet;
use overload_lint::rules::explicit_function_return_type::ExplicitFunctionReturnTypeVisitor;
use overload_lint::rules::no_explicit_any::NoExplicitAny;
use overload_lint::rules::no_explicit_any::NoExplicitAnyVisitor;
use overload_lint::rules::no_non_null_asserted_optional_chain::NoNonNullAssertedOptionalChainVisitor;
use overload_lint::rules::no_octal::NoOctal;
use overload_lint::rules::no_octal::NoOctalVisitor;
use overload_lint::rules::no_throw_literal::NoThrowLiteralVisitor;
use overload_lint::rules::single_var_declarator::SingleVarDeclaratorVisitor;
use overload_lint::syntax::Class;
use overload_lint::syntax::ClassMember;
use overload_lint::syntax::ClassMethod;
use overload_lint::syntax::Decl;
use overload_lint::syntax::ExportDecl;
use overload_lint::syntax::Expr;
use overload_lint::syntax::ExprOrSuper;
use overload_lint::syntax::FnDecl;
use overload_lint::syntax::Function;
use overload_lint::syntax::Lit;
use overload_lint::syntax::Module;
use overload_lint::syntax::ModuleDecl;
use overload_lint::syntax::ModuleItem;
use overload_lint::syntax::Number;
use overload_lint::syntax::PropName;
use overload_lint::syntax::Script;
use overload_lint::syntax::Stmt;
use overload_lint::syntax::ThrowStmt;
use overload_lint::syntax::Tpl;
use overload_lint::syntax::TsInterfaceBody;
use overload_lint::syntax::TsKeywordType;
use overload_lint::syntax::TsKeywordTypeKind;
use overload_lint::syntax::TsMethodSignature;
use overload_lint::syntax::TsModuleBlock;
use overload_lint::syntax::TsNonNullExpr;
use overload_lint::syntax::TsTypeElement;
use overload_lint::syntax::TsTypeLit;
use overload_lint::syntax::VarDecl;
use overload_lint::syntax::VarDeclarator;

const HINT: &str = "Make sure all overloaded signatures are grouped together";

/// The place of the member at position `i` of a container.
fn at(i: u32) -> Span {
    Span { lo: 10 * i, hi: 10 * i + 5 }
}

/// A method signature named `name` at position `i`.
fn sig(name: &str, i: u32) -> TsTypeElement {
    TsTypeElement::TsMethodSignature(TsMethodSignature {
        span: at(i),
        key: Expr::Ident(name.to_string()),
        computed: false,
    })
}

fn method(name: &str, is_static: bool, i: u32) -> ClassMember {
    ClassMember::Method(ClassMethod {
        span: at(i),
        key: PropName::Ident(name.to_string()),
        is_static,
    })
}

fn function(name: &str, i: u32) -> Stmt {
    Stmt::Decl(Decl::Fn(FnDecl { span: at(i), ident: name.to_string() }))
}

fn exported(name: &str, i: u32) -> ModuleItem {
    ModuleItem::ModuleDecl(ModuleDecl::ExportDecl(ExportDecl {
        span: at(i),
        decl: Decl::Fn(FnDecl { span: Span { lo: 10 * i + 1, hi: 10 * i + 5 }, ident: name.to_string() }),
    }))
}

fn scan_interface(body: Vec<TsTypeElement>) -> Vec<LintDiagnostic> {
    let mut context = Context::new();
    AdjacentOverloadSignaturesVisitor::new(&mut context)
        .visit_ts_interface_body(&TsInterfaceBody { body });
    context.diagnostics().iter().map(copy).collect()
}

fn scan_class(body: Vec<ClassMember>) -> Vec<LintDiagnostic> {
    let mut context = Context::new();
    AdjacentOverloadSignaturesVisitor::new(&mut context).visit_class(&Class { body });
    context.diagnostics().iter().map(copy).collect()
}

fn copy(d: &LintDiagnostic) -> LintDiagnostic {
    LintDiagnostic {
        span: d.span,
        code: d.code.clone(),
        message: d.message.clone(),
        hint: d.hint.clone(),
    }
}

/// Everything of the diagnostics but their places.
fn texts(found: &[LintDiagnostic]) -> Vec<(String, String, Option<String>)> {
    found.iter().map(|d| (d.code.clone(), d.message.clone(), d.hint.clone())).collect()
}

fn assert_one(found: &[LintDiagnostic], place: Span, name: &str) {
    assert_eq!(found.len(), 1, "{:?}", found);
    assert_eq!(found[0].span, place);
    assert_eq!(found[0].code, "adjacent-overload-signatures");
    assert_eq!(found[0].message, format!("All '{}' signatures should be adjacent", name));
    assert_eq!(found[0].hint.as_deref(), Some(HINT));
}

#[test]
fn adjacent_groups_draw_nothing() {
    let found = scan_interface(vec![
        sig("a", 0),
        sig("a", 1),
        sig("b", 2),
        sig("c", 3),
        sig("c", 4),
        TsTypeElement::Other(at(5)),
        sig("d", 6),
    ]);
    assert!(found.is_empty(), "{:?}", found);
    assert!(scan_interface(vec![]).is_empty());
    assert!(scan_interface(vec![sig("a", 0)]).is_empty());
}

#[test]
fn single_gap_is_reported_at_the_reappearance() {
    let found = scan_interface(vec![sig("A", 0), sig("A", 1), sig("B", 2), sig("A", 3)]);
    assert_one(&found, at(3), "A");
}

#[test]
fn resumed_run_is_reported_once() {
    let found =
        scan_interface(vec![sig("A", 0), sig("A", 1), sig("B", 2), sig("A", 3), sig("A", 4)]);
    assert_one(&found, at(3), "A");
}

#[test]
fn run_resumed_after_a_member_without_identity_is_reported_once() {
    let found = scan_interface(vec![
        sig("A", 0),
        TsTypeElement::Other(at(1)),
        sig("A", 2),
        sig("A", 3),
    ]);
    assert_one(&found, at(2), "A");
}

#[test]
fn gap_without_reappearance_is_silent() {
    let found = scan_interface(vec![sig("A", 0), sig("A", 1), sig("B", 2)]);
    assert!(found.is_empty(), "{:?}", found);
}

#[test]
fn static_and_instance_members_are_separate_groups() {
    let found = scan_class(vec![
        method("foo", true, 0),
        method("bar", false, 1),
        method("foo", false, 2),
    ]);
    assert!(found.is_empty(), "{:?}", found);
    let found = scan_class(vec![
        method("foo", true, 0),
        method("foo", false, 1),
        method("foo", false, 2),
        method("bar", false, 3),
    ]);
    assert!(found.is_empty(), "{:?}", found);
    // The static run is broken here, by whatever stands between its members.
    let found = scan_class(vec![
        method("foo", true, 0),
        method("foo", false, 1),
        method("foo", true, 2),
    ]);
    assert_one(&found, at(2), "foo");
    let found = scan_class(vec![
        method("foo", true, 0),
        method("other", false, 1),
        method("foo", true, 2),
    ]);
    assert_one(&found, at(2), "foo");
}

#[test]
fn two_groups_are_reported_independently() {
    let found = scan_interface(vec![
        TsTypeElement::TsConstructSignatureDecl(at(0)),
        sig("foo", 1),
        TsTypeElement::TsConstructSignatureDecl(at(2)),
        sig("foo", 3),
        TsTypeElement::TsConstructSignatureDecl(at(4)),
    ]);
    assert_eq!(found.len(), 3);
    assert_eq!(found[0].span, at(2));
    assert_eq!(found[0].message, "All 'new' signatures should be adjacent");
    assert_eq!(found[1].span, at(3));
    assert_eq!(found[1].message, "All 'foo' signatures should be adjacent");
    assert_eq!(found[2].span, at(4));
    assert_eq!(found[2].message, "All 'new' signatures should be adjacent");
}

#[test]
fn construct_and_call_signatures_are_groups() {
    let found = scan_interface(vec![
        TsTypeElement::TsConstructSignatureDecl(at(0)),
        sig("foo", 1),
        TsTypeElement::TsConstructSignatureDecl(at(2)),
    ]);
    assert_one(&found, at(2), "new");
    let found = scan_interface(vec![
        TsTypeElement::TsCallSignatureDecl(at(0)),
        sig("foo", 1),
        TsTypeElement::TsCallSignatureDecl(at(2)),
    ]);
    assert_one(&found, at(2), "call");
    // A method that is named `call` is no call signature.
    let found = scan_interface(vec![
        TsTypeElement::TsCallSignatureDecl(at(0)),
        sig("foo", 1),
        sig("call", 2),
    ]);
    assert!(found.is_empty(), "{:?}", found);
}

#[test]
fn literal_example_in_a_type_literal() {
    let members = vec![sig("foo", 0), sig("foo", 1), sig("bar", 2), sig("baz", 3), sig("foo", 4)];
    let mut context = Context::new();
    AdjacentOverloadSignaturesVisitor::new(&mut context)
        .visit_ts_type_lit(&TsTypeLit { members });
    assert_eq!(context.diagnostics().len(), 1);
    assert_eq!(context.diagnostics()[0].span, at(4));
    assert_eq!(context.diagnostics()[0].message, "All 'foo' signatures should be adjacent");
}

#[test]
fn shapes_agree_on_one_pattern() {
    let names = ["foo", "foo", "bar", "baz", "foo", "bar"];
    let mut script = Context::new();
    let body: Vec<Stmt> = names.iter().zip(0..).map(|(n, i)| function(n, i)).collect();
    AdjacentOverloadSignaturesVisitor::new(&mut script).visit_script(&Script { body });
    let mut module = Context::new();
    let body: Vec<ModuleItem> = names.iter().zip(0..).map(|(n, i)| exported(n, i)).collect();
    AdjacentOverloadSignaturesVisitor::new(&mut module).visit_module(&Module { body });
    let mut block = Context::new();
    let body: Vec<ModuleItem> =
        names.iter().zip(0..).map(|(n, i)| ModuleItem::Stmt(function(n, i))).collect();
    AdjacentOverloadSignaturesVisitor::new(&mut block)
        .visit_ts_module_block(&TsModuleBlock { body });
    let class =
        scan_class(names.iter().zip(0..).map(|(n, i)| method(n, false, i)).collect());
    let interface = scan_interface(names.iter().zip(0..).map(|(n, i)| sig(n, i)).collect());
    let expected = vec![
        (
            "adjacent-overload-signatures".to_string(),
            "All 'foo' signatures should be adjacent".to_string(),
            Some(HINT.to_string()),
        ),
        (
            "adjacent-overload-signatures".to_string(),
            "All 'bar' signatures should be adjacent".to_string(),
            Some(HINT.to_string()),
        ),
    ];
    for found in [script.diagnostics(), module.diagnostics(), block.diagnostics(), &class, &interface] {
        assert_eq!(texts(found), expected);
        assert_eq!(found[0].span, at(4));
        assert_eq!(found[1].span, at(5));
    }
}

#[test]
fn scan_appends_to_what_the_context_holds() {
    let mut context = Context::new();
    context.add_diagnostic(at(9), "some-code", "some message");
    let body = vec![sig("a", 0), sig("b", 1), sig("a", 2)];
    let mut visitor = AdjacentOverloadSignaturesVisitor::new(&mut context);
    visitor.check(&body);
    visitor.check(&body);
    assert_eq!(context.diagnostics().len(), 3);
    assert_eq!(context.diagnostics()[0].code, "some-code");
    assert_eq!(context.diagnostics()[0].message, "some message");
    assert_eq!(context.diagnostics()[0].hint, None);
    assert_eq!(context.diagnostics()[1].span, at(2));
    assert_eq!(context.diagnostics()[2].span, at(2));
}

#[test]
fn add_diagnostic_formats_the_name() {
    let mut context = Context::new();
    AdjacentOverloadSignaturesVisitor::new(&mut context).add_diagnostic(at(1), "x y");
    assert_one(context.diagnostics(), at(1), "x y");
}

#[test]
fn names_of_groups() {
    assert_eq!(Method::Method("foo".to_string()).get_name(), "foo");
    assert_eq!(Method::Static("bar".to_string()).get_name(), "bar");
    assert_eq!(Method::CallSignature.get_name(), "call");
    assert_eq!(Method::ConstructSignature.get_name(), "new");
}

#[test]
fn groups_compare_by_kind_and_name() {
    assert_eq!(Method::Method("a".to_string()), Method::Method("a".to_string()));
    assert_ne!(Method::Method("a".to_string()), Method::Method("b".to_string()));
    assert_ne!(Method::Method("a".to_string()), Method::Static("a".to_string()));
    assert_ne!(Method::CallSignature, Method::ConstructSignature);
    assert_ne!(Method::Method("call".to_string()), Method::CallSignature);
    assert_eq!(Method::Static("a".to_string()).clone(), Method::Static("a".to_string()));
}

#[test]
fn declarations_give_their_function_name() {
    let f = Decl::Fn(FnDecl { span: at(0), ident: "foo".to_string() });
    assert_eq!(extract_ident_from_decl(&f), Some("foo".to_string()));
    assert_eq!(extract_ident_from_decl(&Decl::Other(at(0))), None);
    assert_eq!(function("foo", 3).get_method(), Some(Method::Method("foo".to_string())));
    assert_eq!(function("foo", 3).span(), at(3));
    assert_eq!(Stmt::Other(at(2)).get_method(), None);
    assert_eq!(Stmt::Decl(Decl::Other(at(2))).get_method(), None);
    assert_eq!(Stmt::Decl(Decl::Other(at(2))).span(), at(2));
    assert_eq!(exported("foo", 1).get_method(), Some(Method::Method("foo".to_string())));
    assert_eq!(exported("foo", 1).span(), at(1));
    assert_eq!(ModuleItem::ModuleDecl(ModuleDecl::Other(at(4))).get_method(), None);
    assert_eq!(ModuleItem::ModuleDecl(ModuleDecl::Other(at(4))).span(), at(4));
    let export = ExportDecl { span: at(7), decl: Decl::Other(at(7)) };
    assert_eq!(export.get_method(), None);
    assert_eq!(export.span(), at(7));
}

fn keyed(key: PropName, is_static: bool) -> ClassMember {
    ClassMember::Method(ClassMethod { span: at(0), key, is_static })
}

#[test]
fn class_members_give_their_group() {
    let plain = Some(Method::Method("foo".to_string()));
    assert_eq!(keyed(PropName::Ident("foo".to_string()), false).get_method(), plain);
    assert_eq!(keyed(PropName::Str("foo".to_string()), false).get_method(), plain);
    let computed = PropName::Computed(Expr::Lit(Lit::Str("foo".to_string())));
    assert_eq!(keyed(computed, false).get_method(), plain);
    let template =
        PropName::Computed(Expr::Tpl(Tpl { exprs: 0, quasis: vec!["foo".to_string()] }));
    assert_eq!(keyed(template, false).get_method(), plain);
    let interpolated = PropName::Computed(Expr::Tpl(Tpl {
        exprs: 1,
        quasis: vec!["foo".to_string(), "".to_string()],
    }));
    assert_eq!(keyed(interpolated, false).get_method(), None);
    let empty = PropName::Computed(Expr::Tpl(Tpl { exprs: 0, quasis: vec![] }));
    assert_eq!(keyed(empty, false).get_method(), None);
    let name = PropName::Computed(Expr::Ident("foo".to_string()));
    assert_eq!(keyed(name, false).get_method(), None);
    let symbol = PropName::Computed(Expr::Member(ExprOrSuper::Expr(Box::new(Expr::Ident(
        "Symbol".to_string(),
    )))));
    assert_eq!(keyed(symbol, false).get_method(), None);
    assert_eq!(keyed(PropName::Other, true).get_method(), None);
    assert_eq!(
        keyed(PropName::Ident("foo".to_string()), true).get_method(),
        Some(Method::Static("foo".to_string()))
    );
    assert_eq!(
        ClassMember::Constructor(at(1)).get_method(),
        Some(Method::Method("constructor".to_string()))
    );
    assert_eq!(ClassMember::Constructor(at(1)).span(), at(1));
    assert_eq!(ClassMember::Other(at(2)).get_method(), None);
    assert_eq!(ClassMember::Other(at(2)).span(), at(2));
}

#[test]
fn constructor_groups_with_a_method_of_that_name() {
    let found = scan_class(vec![
        ClassMember::Constructor(at(0)),
        method("bar", false, 1),
        method("constructor", false, 2),
    ]);
    assert_one(&found, at(2), "constructor");
}

fn signature(key: Expr) -> TsTypeElement {
    TsTypeElement::TsMethodSignature(TsMethodSignature { span: at(0), key, computed: false })
}

fn bracketed(key: Expr) -> TsTypeElement {
    TsTypeElement::TsMethodSignature(TsMethodSignature { span: at(0), key, computed: true })
}

#[test]
fn type_elements_give_their_group() {
    let plain = Some(Method::Method("foo".to_string()));
    assert_eq!(signature(Expr::Ident("foo".to_string())).get_method(), plain);
    assert_eq!(signature(Expr::Lit(Lit::Str("foo".to_string()))).get_method(), plain);
    let template = Expr::Tpl(Tpl { exprs: 0, quasis: vec!["foo".to_string()] });
    assert_eq!(signature(template).get_method(), plain);
    let interpolated =
        Expr::Tpl(Tpl { exprs: 2, quasis: vec!["a".to_string(), "b".to_string(), "c".to_string()] });
    assert_eq!(signature(interpolated).get_method(), None);
    assert_eq!(signature(Expr::Lit(Lit::Other)).get_method(), None);
    assert_eq!(signature(Expr::OptChain).get_method(), None);
    assert_eq!(signature(Expr::Other).get_method(), None);
    let symbol = Expr::Member(ExprOrSuper::Expr(Box::new(Expr::Ident("Symbol".to_string()))));
    assert_eq!(signature(symbol).get_method(), None);
    assert_eq!(bracketed(Expr::Lit(Lit::Str("foo".to_string()))).get_method(), plain);
    let template = Expr::Tpl(Tpl { exprs: 0, quasis: vec!["foo".to_string()] });
    assert_eq!(bracketed(template).get_method(), plain);
    assert_eq!(bracketed(Expr::Ident("foo".to_string())).get_method(), None);
    assert_eq!(bracketed(Expr::Other).get_method(), None);
    assert_eq!(
        TsTypeElement::TsCallSignatureDecl(at(1)).get_method(),
        Some(Method::CallSignature)
    );
    assert_eq!(
        TsTypeElement::TsConstructSignatureDecl(at(1)).get_method(),
        Some(Method::ConstructSignature)
    );
    assert_eq!(TsTypeElement::Other(at(1)).get_method(), None);
    assert_eq!(TsTypeElement::Other(at(1)).span(), at(1));
    assert_eq!(TsTypeElement::TsCallSignatureDecl(at(3)).span(), at(3));
}

#[test]
fn key_spellings_of_one_name_are_one_group() {
    let found = scan_interface(vec![
        sig("foo", 0),
        sig("bar", 1),
        TsTypeElement::TsMethodSignature(TsMethodSignature {
            span: at(2),
            key: Expr::Lit(Lit::Str("foo".to_string())),
            computed: true,
        }),
    ]);
    assert_one(&found, at(2), "foo");
}

#[test]
fn rule_codes_and_tags() {
    assert_eq!(AdjacentOverloadSignatures::new().code(), "adjacent-overload-signatures");
    assert_eq!(AdjacentOverloadSignatures::new().tags(), &["recommended"]);
    assert_eq!(NoExplicitAny::new().tags(), &["recommended"]);
    assert_eq!(NoOctal::new().tags(), &["recommended"]);
    assert_eq!(NoOctal::new().code(), "no-octal");
}

#[test]
fn context_keeps_diagnostics_in_order() {
    let mut context = Context::new();
    assert!(context.diagnostics().is_empty());
    context.add_diagnostic(at(1), "c1", "m1");
    context.add_diagnostic_with_hint(at(2), "c2", "m2", "h2");
    let found = context.diagnostics();
    assert_eq!(found.len(), 2);
    assert_eq!((found[0].span, found[0].code.as_str(), found[0].message.as_str()), (at(1), "c1", "m1"));
    assert_eq!(found[0].hint, None);
    assert_eq!((found[1].span, found[1].code.as_str(), found[1].message.as_str()), (at(2), "c2", "m2"));
    assert_eq!(found[1].hint.as_deref(), Some("h2"));
}

#[test]
fn function_without_return_type() {
    let mut context = Context::new();
    let mut visitor = ExplicitFunctionReturnTypeVisitor::new(&mut context);
    visitor.visit_function(&Function { span: at(1), has_return_type: true });
    visitor.visit_function(&Function { span: at(2), has_return_type: false });
    let found = context.diagnostics();
    assert_eq!(found.len(), 1);
    assert_eq!(found[0].span, at(2));
    assert_eq!(found[0].code, "explicit-function-return-type");
    assert_eq!(found[0].message, "Missing return type on function");
    assert_eq!(found[0].hint.as_deref(), Some("Add a return type to the function signature"));
}

#[test]
fn keyword_any() {
    let mut context = Context::new();
    let mut visitor = NoExplicitAnyVisitor::new(&mut context);
    visitor.visit_ts_keyword_type(&TsKeywordType {
        span: at(1),
        kind: TsKeywordTypeKind::TsUnknownKeyword,
    });
    visitor.visit_ts_keyword_type(&TsKeywordType {
        span: at(2),
        kind: TsKeywordTypeKind::TsAnyKeyword,
    });
    let found = context.diagnostics();
    assert_eq!(found.len(), 1);
    assert_eq!(found[0].span, at(2));
    assert_eq!(found[0].code, "no-explicit-any");
    assert_eq!(found[0].message, "`any` type is not allowed");
    assert_eq!(found[0].hint.as_deref(), Some("Use a specific type other than `any`"));
}

fn asserted(expr: Expr) -> usize {
    let mut context = Context::new();
    NoNonNullAssertedOptionalChainVisitor::new(&mut context)
        .visit_ts_non_null_expr(&TsNonNullExpr { span: at(3), expr });
    for d in context.diagnostics() {
        assert_eq!(d.span, at(3));
        assert_eq!(d.code, "no-non-null-asserted-optional-chain");
        assert_eq!(
            d.message,
            "Optional chain expressions can return undefined by design - using a non-null assertion is unsafe and wrong."
        );
        assert_eq!(d.hint, None);
    }
    context.diagnostics().len()
}

fn inside(expr: Expr) -> ExprOrSuper {
    ExprOrSuper::Expr(Box::new(expr))
}

#[test]
fn assertion_on_an_optional_chain() {
    assert_eq!(asserted(Expr::OptChain), 1);
    assert_eq!(asserted(Expr::Member(inside(Expr::OptChain))), 1);
    assert_eq!(asserted(Expr::Call(inside(Expr::OptChain))), 1);
    assert_eq!(asserted(Expr::Paren(Box::new(Expr::OptChain))), 1);
    assert_eq!(asserted(Expr::Member(inside(Expr::Ident("foo".to_string())))), 0);
    assert_eq!(asserted(Expr::Member(ExprOrSuper::Super)), 0);
    assert_eq!(asserted(Expr::Call(ExprOrSuper::Super)), 0);
    assert_eq!(asserted(Expr::Paren(Box::new(Expr::Other))), 0);
    assert_eq!(asserted(Expr::Member(inside(Expr::Paren(Box::new(Expr::OptChain))))), 0);
    assert_eq!(asserted(Expr::Ident("foo".to_string())), 0);
    let mut context = Context::new();
    let mut visitor = NoNonNullAssertedOptionalChainVisitor::new(&mut context);
    visitor.check_expr_for_nested_optional_assert(at(1), &Expr::Other);
    visitor.check_expr_for_nested_optional_assert(at(2), &Expr::OptChain);
    visitor.add_diagnostic(at(5));
    assert_eq!(context.diagnostics().len(), 2);
    assert_eq!(context.diagnostics()[0].span, at(2));
    assert_eq!(context.diagnostics()[1].span, at(5));
}

fn octal(raw: &str) -> bool {
    let mut context = Context::new();
    NoOctalVisitor::new(&mut context)
        .visit_number(&Number { span: at(1), raw: raw.to_string() });
    for d in context.diagnostics() {
        assert_eq!(d.span, at(1));
        assert_eq!(d.code, "no-octal");
        assert_eq!(d.message, "`Octal number` is not allowed");
        assert_eq!(d.hint, None);
    }
    assert!(context.diagnostics().len() <= 1);
    context.diagnostics().len() == 1
}

#[test]
fn number_texts_that_look_octal() {
    assert!(octal("07"));
    assert!(octal("00"));
    assert!(octal("09"));
    assert!(octal("0123.5"));
    assert!(!octal("7"));
    assert!(!octal("0"));
    assert!(!octal(""));
    assert!(!octal("0x08"));
    assert!(!octal("0.01"));
    assert!(!octal("10"));
    assert!(!octal("107"));
    assert!(!octal("0o7"));
    assert!(!octal("0/"));
    assert!(!octal("0:"));
    assert!(!octal("\n07"));
    assert!(!octal("0\u{0667}"));
}

fn thrown(arg: Expr) -> Vec<String> {
    let mut context = Context::new();
    NoThrowLiteralVisitor::new(&mut context).visit_throw_stmt(&ThrowStmt { span: at(1), arg });
    for d in context.diagnostics() {
        assert_eq!(d.span, at(1));
        assert_eq!(d.code, "no-throw-literal");
        assert_eq!(d.hint, None);
    }
    context.diagnostics().iter().map(|d| d.message.clone()).collect()
}

#[test]
fn thrown_literals() {
    assert_eq!(thrown(Expr::Lit(Lit::Str("kumiko".to_string()))), vec!["expected an error object to be thrown"]);
    assert_eq!(thrown(Expr::Lit(Lit::Other)), vec!["expected an error object to be thrown"]);
    assert_eq!(thrown(Expr::Ident("undefined".to_string())), vec!["do not throw undefined"]);
    assert!(thrown(Expr::Ident("e".to_string())).is_empty());
    assert!(thrown(Expr::Ident("undefine".to_string())).is_empty());
    assert!(thrown(Expr::Other).is_empty());
    assert!(thrown(Expr::Call(inside(Expr::Ident("undefined".to_string())))).is_empty());
}

fn declared(n: u32) -> usize {
    let mut context = Context::new();
    let decls = (0..n).map(|i| VarDeclarator { span: at(i) }).collect();
    SingleVarDeclaratorVisitor::new(&mut context).visit_var_decl(&VarDecl { span: at(8), decls });
    for d in context.diagnostics() {
        assert_eq!(d.span, at(8));
        assert_eq!(d.code, "single-var-declarator");
        assert_eq!(d.message, "Multiple variable declarators are not allowed");
        assert_eq!(d.hint, None);
    }
    context.diagnostics().len()
}

#[test]
fn declarators_in_one_declaration() {
    assert_eq!(declared(0), 0);
    assert_eq!(declared(1), 0);
    assert_eq!(declared(2), 1);
    assert_eq!(declared(3), 1);
}

#[test]
fn set_of_groups_holds_each_once() {
    let mut set = MethodSet::new();
    assert!(!set.contains(&Method::CallSignature));
    assert!(!set.contains(&Method::Method("a".to_string())));
    assert!(set.insert(Method::Method("a".to_string())));
    assert!(set.contains(&Method::Method("a".to_string())));
    assert!(!set.insert(Method::Method("a".to_string())));
    assert!(!set.contains(&Method::Static("a".to_string())));
    assert!(set.insert(Method::Static("a".to_string())));
    assert!(set.insert(Method::ConstructSignature));
    assert!(!set.insert(Method::ConstructSignature));
    assert!(set.contains(&Method::ConstructSignature));
    assert!(!set.contains(&Method::CallSignature));
    assert!(!set.contains(&Method::Method("b".to_string())));
}
