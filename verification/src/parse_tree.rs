//! The syntactic tree: what the parser hands over, before any type is
//! known, reduced to what the index is built from. Every node that an entry
//! can refer to carries the span by which it is found again.

use crate::ident::{CallPath, Ident, Span};
use vstd::prelude::*;

verus! {

/// A list of nodes between braces.
#[derive(Debug)]
pub struct CodeBlock {
    pub contents: Vec<AstNode>,
}

/// A node of the syntactic tree.
#[derive(Debug)]
pub struct AstNode {
    pub content: AstNodeContent,
}

/// What a node of the syntactic tree is.
#[derive(Debug)]
pub enum AstNodeContent {
    ReturnStatement(ReturnStatement),
    Declaration(Declaration),
    Expression(Expression),
    ImplicitReturnExpression(Expression),
    WhileLoop(WhileLoop),
    /// An import of names from another module.
    UseStatement,
    /// The inclusion of another file of the project.
    IncludeStatement,
}

/// A `return` with its expression.
#[derive(Debug)]
pub struct ReturnStatement {
    pub expr: Expression,
}

/// A loop with its condition and its body.
#[derive(Debug)]
pub struct WhileLoop {
    pub condition: Expression,
    pub body: CodeBlock,
}

/// A declaration, by its kind.
#[derive(Debug)]
pub enum Declaration {
    VariableDeclaration(VariableDeclaration),
    ConstantDeclaration(ConstantDeclaration),
    FunctionDeclaration(FunctionDeclaration),
    TraitDeclaration(TraitDeclaration),
    StructDeclaration(StructDeclaration),
    EnumDeclaration(EnumDeclaration),
    Reassignment(Reassignment),
    ImplTrait(ImplTrait),
    AbiDeclaration(AbiDeclaration),
    /// A type parameter, in scope in the body of its function.
    GenericTypeForFunctionScope { name: Ident },
    StorageDeclaration(StorageDeclaration),
    StorageReassignment(StorageReassignment),
}

#[derive(Debug)]
pub struct VariableDeclaration {
    pub name: Ident,
    pub body: Expression,
    pub span: Span,
}

#[derive(Debug)]
pub struct ConstantDeclaration {
    pub name: Ident,
    pub value: Expression,
    pub span: Span,
}

#[derive(Debug)]
pub struct FunctionDeclaration {
    pub name: Ident,
    pub parameters: Vec<FunctionParameter>,
    pub body: CodeBlock,
    pub span: Span,
}

#[derive(Debug)]
pub struct FunctionParameter {
    pub name: Ident,
    pub span: Span,
}

#[derive(Debug)]
pub struct TraitDeclaration {
    pub name: Ident,
    pub interface_surface: Vec<TraitFn>,
    pub span: Span,
}

/// The signature of a function in a trait or an abi.
#[derive(Debug)]
pub struct TraitFn {
    pub name: Ident,
    pub span: Span,
}

#[derive(Debug)]
pub struct StructDeclaration {
    pub name: Ident,
    pub fields: Vec<StructField>,
    pub span: Span,
}

#[derive(Debug)]
pub struct StructField {
    pub name: Ident,
    pub span: Span,
}

#[derive(Debug)]
pub struct EnumDeclaration {
    pub name: Ident,
    pub variants: Vec<EnumVariant>,
    pub span: Span,
}

#[derive(Debug)]
pub struct EnumVariant {
    pub name: Ident,
    pub span: Span,
}

#[derive(Debug)]
pub struct Reassignment {
    pub lhs_base_name: Ident,
    pub rhs: Expression,
    pub span: Span,
}

#[derive(Debug)]
pub struct ImplTrait {
    pub trait_name: CallPath,
    pub methods: Vec<FunctionDeclaration>,
    pub span: Span,
}

#[derive(Debug)]
pub struct AbiDeclaration {
    pub name: Ident,
    pub interface_surface: Vec<TraitFn>,
    pub span: Span,
}

#[derive(Debug)]
pub struct StorageDeclaration {
    pub fields: Vec<StorageField>,
    pub span: Span,
}

#[derive(Debug)]
pub struct StorageField {
    pub name: Ident,
    pub span: Span,
}

#[derive(Debug)]
pub struct StorageReassignment {
    pub fields: Vec<StorageReassignDescriptor>,
    pub rhs: Expression,
}

/// One step of the path to the storage field that is assigned to.
#[derive(Debug)]
pub struct StorageReassignDescriptor {
    pub name: Ident,
    pub span: Span,
}

/// An expression with its span.
#[derive(Debug)]
pub struct Expression {
    pub kind: ExpressionKind,
    pub span: Span,
}

/// What an expression is.
#[allow(inconsistent_fields)]
#[derive(Debug)]
pub enum ExpressionKind {
    Literal,
    /// A call. The parameters of a contract call are given by name, the
    /// arguments by position.
    FunctionApplication {
        call_path: CallPath,
        contract_call_params: Vec<StructExpressionField>,
        arguments: Vec<Expression>,
    },
    LazyOperator { lhs: Box<Expression>, rhs: Box<Expression> },
    VariableExpression { name: Ident },
    Tuple { fields: Vec<Expression> },
    Array { contents: Vec<Expression> },
    ArrayIndex { prefix: Box<Expression>, index: Box<Expression> },
    StructExpression { struct_name: Ident, fields: Vec<StructExpressionField> },
    CodeBlock(CodeBlock),
    /// A parameter of the enclosing function, standing for itself.
    FunctionParameter,
    IfExp {
        condition: Box<Expression>,
        then_branch: Box<Expression>,
        else_branch: Option<Box<Expression>>,
    },
    AsmExpression,
    SubfieldExpression { prefix: Box<Expression>, field_to_access: Ident },
    TupleElemAccess { prefix: Box<Expression> },
    EnumInstantiation,
    AbiCast { abi_name: CallPath, address: Box<Expression> },
    StorageAccess(StorageAccess),
    IntrinsicFunction(IntrinsicFunctionKind),
    AbiName,
    EnumTag { exp: Box<Expression> },
    UnsafeDowncast { exp: Box<Expression>, variant: EnumVariant },
}

/// A value under the name of the field or parameter that it is for.
#[derive(Debug)]
pub struct StructExpressionField {
    pub name: Ident,
    pub value: Expression,
}

#[derive(Debug)]
pub struct StorageAccess {
    pub fields: Vec<StorageAccessDescriptor>,
}

#[derive(Debug)]
pub struct StorageAccessDescriptor {
    pub name: Ident,
    pub span: Span,
}

/// An intrinsic function, by its kind.
#[derive(Debug)]
pub enum IntrinsicFunctionKind {
    SizeOfVal { exp: Box<Expression> },
    SizeOfType,
    IsRefType,
    GetStorageKey,
}

/// The syntactic tree of a source text: its top-level nodes in source order.
#[derive(Debug)]
pub struct ParseProgram {
    pub root_nodes: Vec<AstNode>,
}

} // verus!
