//! The typed tree: what the type checker hands over, reduced to what the
//! index is built from. Every node that an entry can refer to carries the
//! span by which it is found again.

use crate::ident::{CallPath, Ident, Span};
use vstd::prelude::*;

verus! {

/// A list of nodes between braces.
#[derive(Debug)]
pub struct TypedCodeBlock {
    pub contents: Vec<TypedAstNode>,
}

/// A node of the typed tree.
#[derive(Debug)]
pub struct TypedAstNode {
    pub content: TypedAstNodeContent,
}

/// What a node of the typed tree is.
#[derive(Debug)]
pub enum TypedAstNodeContent {
    ReturnStatement(TypedReturnStatement),
    Declaration(TypedDeclaration),
    Expression(TypedExpression),
    ImplicitReturnExpression(TypedExpression),
    WhileLoop(TypedWhileLoop),
    /// A node that only has an effect, such as an import.
    SideEffect,
}

/// A `return` with its expression.
#[derive(Debug)]
pub struct TypedReturnStatement {
    pub expr: TypedExpression,
}

/// A loop with its condition and its body.
#[derive(Debug)]
pub struct TypedWhileLoop {
    pub condition: TypedExpression,
    pub body: TypedCodeBlock,
}

/// A declaration, by its kind.
#[derive(Debug)]
pub enum TypedDeclaration {
    VariableDeclaration(TypedVariableDeclaration),
    ConstantDeclaration(TypedConstantDeclaration),
    FunctionDeclaration(TypedFunctionDeclaration),
    TraitDeclaration(TypedTraitDeclaration),
    StructDeclaration(TypedStructDeclaration),
    EnumDeclaration(TypedEnumDeclaration),
    Reassignment(TypedReassignment),
    ImplTrait(TypedImplTrait),
    AbiDeclaration(TypedAbiDeclaration),
    /// A type parameter, in scope in the body of its function.
    GenericTypeForFunctionScope { name: Ident },
    /// What is left of a declaration that did not check.
    ErrorRecovery,
    StorageDeclaration(TypedStorageDeclaration),
    StorageReassignment(TypeCheckedStorageReassignment),
}

#[derive(Debug)]
pub struct TypedVariableDeclaration {
    pub name: Ident,
    pub body: TypedExpression,
    pub span: Span,
}

#[derive(Debug)]
pub struct TypedConstantDeclaration {
    pub name: Ident,
    pub value: TypedExpression,
    pub span: Span,
}

#[derive(Debug)]
pub struct TypedFunctionDeclaration {
    pub name: Ident,
    pub body: TypedCodeBlock,
    pub parameters: Vec<TypedFunctionParameter>,
    pub span: Span,
}

#[derive(Debug)]
pub struct TypedFunctionParameter {
    pub name: Ident,
    pub span: Span,
}

#[derive(Debug)]
pub struct TypedTraitDeclaration {
    pub name: Ident,
    pub interface_surface: Vec<TypedTraitFn>,
    pub span: Span,
}

/// The signature of a function in a trait or an abi.
#[derive(Debug)]
pub struct TypedTraitFn {
    pub name: Ident,
    pub span: Span,
}

#[derive(Debug)]
pub struct TypedStructDeclaration {
    pub name: Ident,
    pub fields: Vec<TypedStructField>,
    pub span: Span,
}

#[derive(Debug)]
pub struct TypedStructField {
    pub name: Ident,
    pub span: Span,
}

#[derive(Debug)]
pub struct TypedEnumDeclaration {
    pub name: Ident,
    pub variants: Vec<TypedEnumVariant>,
    pub span: Span,
}

#[derive(Debug)]
pub struct TypedEnumVariant {
    pub name: Ident,
    pub span: Span,
}

#[derive(Debug)]
pub struct TypedReassignment {
    pub lhs_base_name: Ident,
    pub rhs: TypedExpression,
    pub span: Span,
}

#[derive(Debug)]
pub struct TypedImplTrait {
    pub trait_name: CallPath,
    pub methods: Vec<TypedFunctionDeclaration>,
    pub span: Span,
}

#[derive(Debug)]
pub struct TypedAbiDeclaration {
    pub name: Ident,
    pub interface_surface: Vec<TypedTraitFn>,
    pub span: Span,
}

#[derive(Debug)]
pub struct TypedStorageDeclaration {
    pub fields: Vec<TypedStorageField>,
    pub span: Span,
}

#[derive(Debug)]
pub struct TypedStorageField {
    pub name: Ident,
    pub span: Span,
}

#[derive(Debug)]
pub struct TypeCheckedStorageReassignment {
    pub fields: Vec<TypeCheckedStorageReassignDescriptor>,
    pub rhs: TypedExpression,
}

/// One step of the path to the storage field that is assigned to.
#[derive(Debug)]
pub struct TypeCheckedStorageReassignDescriptor {
    pub name: Ident,
    pub span: Span,
}

/// An expression with the span by which it is found again.
#[derive(Debug)]
pub struct TypedExpression {
    pub expression: TypedExpressionVariant,
    pub span: Span,
}

/// What an expression is.
#[allow(inconsistent_fields)]
#[derive(Debug)]
pub enum TypedExpressionVariant {
    Literal,
    FunctionApplication {
        call_path: CallPath,
        contract_call_params: Vec<TypedExpression>,
        arguments: Vec<TypedArgument>,
        function_body: TypedCodeBlock,
    },
    LazyOperator { lhs: Box<TypedExpression>, rhs: Box<TypedExpression> },
    VariableExpression { name: Ident },
    Tuple { fields: Vec<TypedExpression> },
    Array { contents: Vec<TypedExpression> },
    ArrayIndex { prefix: Box<TypedExpression>, index: Box<TypedExpression> },
    StructExpression { struct_name: Ident, fields: Vec<TypedStructExpressionField> },
    CodeBlock(TypedCodeBlock),
    /// A value that a caller will provide.
    FunctionParameter,
    IfExp {
        condition: Box<TypedExpression>,
        then_branch: Box<TypedExpression>,
        else_branch: Option<Box<TypedExpression>>,
    },
    AsmExpression,
    StructFieldAccess { prefix: Box<TypedExpression>, field_to_access: TypedStructField },
    TupleElemAccess { prefix: Box<TypedExpression> },
    EnumInstantiation,
    AbiCast { abi_name: CallPath, address: Box<TypedExpression> },
    StorageAccess(TypeCheckedStorageAccess),
    IntrinsicFunction(TypedIntrinsicFunctionKind),
    AbiName,
    EnumTag { exp: Box<TypedExpression> },
    UnsafeDowncast { exp: Box<TypedExpression>, variant: TypedEnumVariant },
}

/// An argument of a call, under the name of the parameter that it is for.
#[derive(Debug)]
pub struct TypedArgument {
    pub name: Ident,
    pub value: TypedExpression,
}

#[derive(Debug)]
pub struct TypedStructExpressionField {
    pub name: Ident,
    pub value: TypedExpression,
}

#[derive(Debug)]
pub struct TypeCheckedStorageAccess {
    pub fields: Vec<TypeCheckedStorageAccessDescriptor>,
}

#[derive(Debug)]
pub struct TypeCheckedStorageAccessDescriptor {
    pub name: Ident,
    pub span: Span,
}

/// An intrinsic function, by its kind.
#[derive(Debug)]
pub enum TypedIntrinsicFunctionKind {
    SizeOfVal { exp: Box<TypedExpression> },
    SizeOfType,
    IsRefType,
    GetStorageKey,
}

/// The typed tree of a program: its top-level nodes in source order.
#[derive(Debug)]
pub struct TypedProgram {
    pub all_nodes: Vec<TypedAstNode>,
}

impl TypedExpressionVariant {
    /// The span of the identifier that an expression of this kind is known
    /// by, if it has one: the last segment of the path of a call or a cast,
    /// the name of a variable or of a struct, the field that is accessed,
    /// the last field of an access to storage, the variant of a downcast.
    pub open spec fn spec_own_span(&self) -> Option<Span> {
        match *self {
            TypedExpressionVariant::FunctionApplication { call_path, .. } => Some(
                call_path.suffix.span,
            ),
            TypedExpressionVariant::VariableExpression { name } => Some(name.span),
            TypedExpressionVariant::StructExpression { struct_name, .. } => Some(struct_name.span),
            TypedExpressionVariant::StructFieldAccess { field_to_access, .. } => Some(
                field_to_access.name.span,
            ),
            TypedExpressionVariant::AbiCast { abi_name, .. } => Some(abi_name.suffix.span),
            TypedExpressionVariant::StorageAccess(access) => if access.fields@.len() > 0 {
                Some(access.fields@.last().name.span)
            } else {
                None
            },
            TypedExpressionVariant::UnsafeDowncast { variant, .. } => Some(variant.name.span),
            _ => None,
        }
    }

    /// The span of the identifier that an expression of this kind is known
    /// by, if it has one.
    #[verifier::when_used_as_spec(spec_own_span)]
    pub fn own_span(&self) -> (res: Option<Span>)
        ensures
            res == self.spec_own_span(),
    {
        match self {
            TypedExpressionVariant::FunctionApplication { call_path, .. } => Some(
                call_path.suffix.span,
            ),
            TypedExpressionVariant::VariableExpression { name } => Some(name.span),
            TypedExpressionVariant::StructExpression { struct_name, .. } => Some(struct_name.span),
            TypedExpressionVariant::StructFieldAccess { field_to_access, .. } => Some(
                field_to_access.name.span,
            ),
            TypedExpressionVariant::AbiCast { abi_name, .. } => Some(abi_name.suffix.span),
            TypedExpressionVariant::StorageAccess(access) => {
                let count = access.fields.len();
                if count > 0 {
                    Some(access.fields[count - 1].name.span)
                } else {
                    None
                }
            },
            TypedExpressionVariant::UnsafeDowncast { variant, .. } => Some(variant.name.span),
            _ => None,
        }
    }
}

/// The span of an expression for which the type checker gives none: that of
/// the identifier that it is known by, or `fallback` where it has none.
pub open spec fn located_at(expression: TypedExpressionVariant, fallback: Span) -> Span {
    match expression.spec_own_span() {
        Some(span) => span,
        None => fallback,
    }
}

impl TypedExpression {
    /// The expression `expression`, found again by the identifier that it is
    /// known by, or at `fallback` where it has none.
    pub fn new(expression: TypedExpressionVariant, fallback: Span) -> (res: TypedExpression)
        ensures
            res.expression == expression,
            res.span == located_at(expression, fallback),
    {
        let span = match expression.own_span() {
            Some(span) => span,
            None => fallback,
        };
        TypedExpression { expression, span }
    }

    /// The expression `expression` where no name refers to it: found again
    /// by the identifier that it is known by, or, where it has none, at the
    /// empty span at the beginning of source 0.
    pub fn unnamed(expression: TypedExpressionVariant) -> (res: TypedExpression)
        ensures
            res.expression == expression,
            res.span == located_at(expression, Span { start: 0, end: 0, source_id: 0 }),
    {
        TypedExpression::new(expression, Span { start: 0, end: 0, source_id: 0 })
    }
}

impl TypedArgument {
    /// The argument `value` for the parameter `name`. A value that is known
    /// by no identifier of its own is found again by the name.
    pub fn new(name: Ident, value: TypedExpressionVariant) -> (res: TypedArgument)
        ensures
            res.name == name,
            res.value.expression == value,
            res.value.span == located_at(value, name.span),
    {
        let span = name.span;
        TypedArgument { name, value: TypedExpression::new(value, span) }
    }
}

impl TypedStructExpressionField {
    /// The value `value` for the field `name`. A value that is known by no
    /// identifier of its own is found again by the name.
    pub fn new(name: Ident, value: TypedExpressionVariant) -> (res: TypedStructExpressionField)
        ensures
            res.name == name,
            res.value.expression == value,
            res.value.span == located_at(value, name.span),
    {
        let span = name.span;
        TypedStructExpressionField { name, value: TypedExpression::new(value, span) }
    }
}

} // verus!
