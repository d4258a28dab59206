//! The parts of a syntax tree that the rules read, as plain values. A producer
//! of trees fills these in; the rules never build or change them.

use vstd::prelude::*;
use crate::context::Span;

verus! {

/// A literal. Only string literals carry what a rule reads.
#[derive(Debug)]
pub enum Lit {
    Str(String),
    Other,
}

/// A template literal: the raw text of its quasis and the number of
/// interpolated expressions between them.
#[derive(Debug)]
pub struct Tpl {
    pub exprs: usize,
    pub quasis: Vec<String>,
}

/// The object of a member access or the callee of a call.
#[derive(Debug)]
pub enum ExprOrSuper {
    Super,
    Expr(Box<Expr>),
}

/// An expression, as far as the rules look into one.
#[derive(Debug)]
pub enum Expr {
    Ident(String),
    Lit(Lit),
    Tpl(Tpl),
    /// A member access, with its object.
    Member(ExprOrSuper),
    /// A call, with its callee.
    Call(ExprOrSuper),
    Paren(Box<Expr>),
    /// An optional chain `a?.b` or `a?.()`.
    OptChain,
    Other,
}

/// The key of a class member.
#[derive(Debug)]
pub enum PropName {
    Ident(String),
    Str(String),
    Computed(Expr),
    Other,
}

#[derive(Debug)]
pub struct FnDecl {
    pub span: Span,
    pub ident: String,
}

/// A declaration; anything but a function declaration is `Other`.
#[derive(Debug)]
pub enum Decl {
    Fn(FnDecl),
    Other(Span),
}

#[derive(Debug)]
pub struct ExportDecl {
    pub span: Span,
    pub decl: Decl,
}

#[derive(Debug)]
pub enum Stmt {
    Decl(Decl),
    Other(Span),
}

/// An import or export; anything but `export <declaration>` is `Other`.
#[derive(Debug)]
pub enum ModuleDecl {
    ExportDecl(ExportDecl),
    Other(Span),
}

#[derive(Debug)]
pub enum ModuleItem {
    ModuleDecl(ModuleDecl),
    Stmt(Stmt),
}

#[derive(Debug)]
pub struct ClassMethod {
    pub span: Span,
    pub key: PropName,
    pub is_static: bool,
}

#[derive(Debug)]
pub enum ClassMember {
    Constructor(Span),
    Method(ClassMethod),
    Other(Span),
}

/// A method signature of an interface or a type literal. `computed` says
/// that the key is written in square brackets.
#[derive(Debug)]
pub struct TsMethodSignature {
    pub span: Span,
    pub key: Expr,
    pub computed: bool,
}

impl TsMethodSignature {
    /// The name that the key spells: an identifier or a quoted string as it
    /// stands, and of a key in square brackets only a literal string.
    pub open spec fn repr(&self) -> Option<Seq<char>> {
        if self.computed {
            self.key.literal_repr()
        } else {
            self.key.key_repr()
        }
    }

    pub fn string_repr(&self) -> (r: Option<String>)
        ensures
            opt_str_view(r) == self.repr(),
    {
        if self.computed {
            self.key.literal_string_repr()
        } else {
            self.key.key_string_repr()
        }
    }
}

#[derive(Debug)]
pub enum TsTypeElement {
    TsCallSignatureDecl(Span),
    TsConstructSignatureDecl(Span),
    TsMethodSignature(TsMethodSignature),
    Other(Span),
}

#[derive(Debug)]
pub struct Script {
    pub body: Vec<Stmt>,
}

#[derive(Debug)]
pub struct Module {
    pub body: Vec<ModuleItem>,
}

/// The body of a namespace or of a `declare module` block.
#[derive(Debug)]
pub struct TsModuleBlock {
    pub body: Vec<ModuleItem>,
}

#[derive(Debug)]
pub struct Class {
    pub body: Vec<ClassMember>,
}

#[derive(Debug)]
pub struct TsTypeLit {
    pub members: Vec<TsTypeElement>,
}

#[derive(Debug)]
pub struct TsInterfaceBody {
    pub body: Vec<TsTypeElement>,
}

/// A function of any form, with whether a return type is written on it.
#[derive(Clone, Copy, Debug)]
pub struct Function {
    pub span: Span,
    pub has_return_type: bool,
}

#[derive(Clone, Copy, Debug, PartialEq, Eq, Structural)]
pub enum TsKeywordTypeKind {
    TsAnyKeyword,
    TsUnknownKeyword,
    TsNumberKeyword,
    TsObjectKeyword,
    TsBooleanKeyword,
    TsBigIntKeyword,
    TsStringKeyword,
    TsSymbolKeyword,
    TsVoidKeyword,
    TsUndefinedKeyword,
    TsNullKeyword,
    TsNeverKeyword,
    TsIntrinsicKeyword,
}

#[derive(Clone, Copy, Debug)]
pub struct TsKeywordType {
    pub span: Span,
    pub kind: TsKeywordTypeKind,
}

/// A non-null assertion `e!`, with the asserted expression.
#[derive(Debug)]
pub struct TsNonNullExpr {
    pub span: Span,
    pub expr: Expr,
}

/// A numeric literal, with its text as written in the source.
#[derive(Debug)]
pub struct Number {
    pub span: Span,
    pub raw: String,
}

#[derive(Debug)]
pub struct ThrowStmt {
    pub span: Span,
    pub arg: Expr,
}

#[derive(Clone, Copy, Debug)]
pub struct VarDeclarator {
    pub span: Span,
}

#[derive(Debug)]
pub struct VarDecl {
    pub span: Span,
    pub decls: Vec<VarDeclarator>,
}

} // verus!

verus! {

/// The view of an optional string.
pub open spec fn opt_str_view(o: Option<String>) -> Option<Seq<char>> {
    match o {
        Some(s) => Some(s@),
        None => None,
    }
}

impl Tpl {
    /// The text of a template literal that has no interpolation.
    pub open spec fn repr(&self) -> Option<Seq<char>> {
        if self.exprs == 0 && self.quasis@.len() > 0 {
            Some(self.quasis@[0]@)
        } else {
            None
        }
    }

    pub fn string_repr(&self) -> (r: Option<String>)
        ensures
            opt_str_view(r) == self.repr(),
    {
        if self.exprs == 0 && self.quasis.len() > 0 {
            Some(self.quasis[0].clone())
        } else {
            None
        }
    }
}

impl Expr {
    /// The string that a literal expression stands for: a string literal's
    /// value, or the text of a template literal without interpolation.
    pub open spec fn literal_repr(&self) -> Option<Seq<char>> {
        match self {
            Expr::Lit(Lit::Str(s)) => Some(s@),
            Expr::Tpl(t) => t.repr(),
            _ => None,
        }
    }

    /// The name that this expression gives a signature when it stands as its
    /// key: an identifier's name, or what `literal_repr` gives.
    pub open spec fn key_repr(&self) -> Option<Seq<char>> {
        match self {
            Expr::Ident(s) => Some(s@),
            _ => self.literal_repr(),
        }
    }

    pub fn literal_string_repr(&self) -> (r: Option<String>)
        ensures
            opt_str_view(r) == self.literal_repr(),
    {
        match self {
            Expr::Lit(Lit::Str(s)) => Some(s.clone()),
            Expr::Tpl(t) => t.string_repr(),
            _ => None,
        }
    }

    pub fn key_string_repr(&self) -> (r: Option<String>)
        ensures
            opt_str_view(r) == self.key_repr(),
    {
        match self {
            Expr::Ident(s) => Some(s.clone()),
            _ => self.literal_string_repr(),
        }
    }
}

impl PropName {
    /// The name that a class member's key spells: an identifier, a quoted
    /// string, or a computed key that is statically a literal string. Any
    /// other key spells none.
    pub open spec fn repr(&self) -> Option<Seq<char>> {
        match self {
            PropName::Ident(s) => Some(s@),
            PropName::Str(s) => Some(s@),
            PropName::Computed(e) => e.literal_repr(),
            PropName::Other => None,
        }
    }

    pub fn string_repr(&self) -> (r: Option<String>)
        ensures
            opt_str_view(r) == self.repr(),
    {
        match self {
            PropName::Ident(s) => Some(s.clone()),
            PropName::Str(s) => Some(s.clone()),
            PropName::Computed(e) => e.literal_string_repr(),
            PropName::Other => None,
        }
    }
}

} // verus!
