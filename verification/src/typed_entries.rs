//! What the typed tree contributes to the index: for each kind of node, the
//! entries of its identifiers, in the order in which they are inserted.

use crate::ident::{CallPath, Ident, KeyView, Span};
use crate::token::{all_of_pass, lemma_all_of_pass_concat, TokenType, TypedAstToken};
use crate::typed_tree::{
    TypeCheckedStorageAccessDescriptor, TypeCheckedStorageReassignDescriptor,
    TypedArgument, TypedAstNode, TypedAstNodeContent, TypedDeclaration, TypedEnumVariant,
    TypedExpression, TypedExpressionVariant, TypedFunctionDeclaration, TypedFunctionParameter,
    TypedIntrinsicFunctionKind, TypedStorageField, TypedStructExpressionField, TypedStructField,
    TypedTraitFn, TypedWhileLoop,
};
use vstd::prelude::*;

verus! {

/// The entry of kind `kind` that refers to the node at `node`.
pub open spec fn typed_token(kind: TypedAstToken, node: Span) -> TokenType {
    TokenType::TypedToken { kind, node }
}

/// One entry for each identifier of `idents`, all of them `token`.
pub open spec fn idents_entries(idents: Seq<Ident>, token: TokenType) -> Seq<(KeyView, TokenType)> {
    Seq::new(idents.len(), |i: int| (idents[i].key(), token))
}

/// The entries of a path: its prefixes in order, then its last segment.
pub open spec fn call_path_entries(path: CallPath, token: TokenType) -> Seq<(KeyView, TokenType)> {
    idents_entries(path.prefixes@, token).push((path.suffix.key(), token))
}

/// One entry for each parameter, under its name.
pub open spec fn parameters_entries(parameters: Seq<TypedFunctionParameter>) -> Seq<
    (KeyView, TokenType),
> {
    Seq::new(
        parameters.len(),
        |i: int|
            (
                parameters[i].name.key(),
                typed_token(TypedAstToken::TypedFunctionParameter, parameters[i].span),
            ),
    )
}

/// One entry for each signature, under its name.
pub open spec fn trait_fns_entries(fns: Seq<TypedTraitFn>) -> Seq<(KeyView, TokenType)> {
    Seq::new(
        fns.len(),
        |i: int| (fns[i].name.key(), typed_token(TypedAstToken::TypedTraitFn, fns[i].span)),
    )
}

/// One entry for each field, under its name.
pub open spec fn struct_fields_entries(fields: Seq<TypedStructField>) -> Seq<(KeyView, TokenType)> {
    Seq::new(
        fields.len(),
        |i: int|
            (fields[i].name.key(), typed_token(TypedAstToken::TypedStructField, fields[i].span)),
    )
}

/// One entry for each variant, under its name.
pub open spec fn enum_variants_entries(variants: Seq<TypedEnumVariant>) -> Seq<
    (KeyView, TokenType),
> {
    Seq::new(
        variants.len(),
        |i: int|
            (
                variants[i].name.key(),
                typed_token(TypedAstToken::TypedEnumVariant, variants[i].span),
            ),
    )
}

/// One entry for each storage field, under its name.
pub open spec fn storage_fields_entries(fields: Seq<TypedStorageField>) -> Seq<
    (KeyView, TokenType),
> {
    Seq::new(
        fields.len(),
        |i: int|
            (fields[i].name.key(), typed_token(TypedAstToken::TypedStorageField, fields[i].span)),
    )
}

/// One entry for each step of the path to a storage field that is assigned
/// to, under its name.
pub open spec fn reassign_descriptors_entries(
    fields: Seq<TypeCheckedStorageReassignDescriptor>,
) -> Seq<(KeyView, TokenType)> {
    Seq::new(
        fields.len(),
        |i: int|
            (
                fields[i].name.key(),
                typed_token(TypedAstToken::TypeCheckedStorageReassignDescriptor, fields[i].span),
            ),
    )
}

/// The entries of an access to storage: one for each field on the way, all
/// of them referring to the access.
pub open spec fn storage_access_entries(
    fields: Seq<TypeCheckedStorageAccessDescriptor>,
    token: TokenType,
) -> Seq<(KeyView, TokenType)> {
    Seq::new(fields.len(), |i: int| (fields[i].name.key(), token))
}

/// The entries of a node.
pub open spec fn node_entries(node: TypedAstNode) -> Seq<(KeyView, TokenType)>
    decreases node,
{
    match node.content {
        TypedAstNodeContent::ReturnStatement(statement) => expression_entries(statement.expr),
        TypedAstNodeContent::Declaration(declaration) => declaration_entries(declaration),
        TypedAstNodeContent::Expression(expression) => expression_entries(expression),
        TypedAstNodeContent::ImplicitReturnExpression(expression) => expression_entries(
            expression,
        ),
        TypedAstNodeContent::WhileLoop(while_loop) => while_loop_entries(while_loop),
        TypedAstNodeContent::SideEffect => Seq::empty(),
    }
}

/// The entries of a list of nodes: those of each node, in the order of the
/// list.
pub open spec fn nodes_entries(nodes: Seq<TypedAstNode>) -> Seq<(KeyView, TokenType)>
    decreases nodes,
{
    if nodes.len() == 0 {
        Seq::empty()
    } else {
        nodes_entries(nodes.drop_last()) + node_entries(nodes.last())
    }
}

/// The entries of a loop: those of its condition, then those of its body.
pub open spec fn while_loop_entries(while_loop: TypedWhileLoop) -> Seq<(KeyView, TokenType)>
    decreases while_loop,
{
    expression_entries(while_loop.condition) + nodes_entries(while_loop.body.contents@)
}

/// The entries of a function: its name, then its body, then its
/// parameters.
pub open spec fn function_entries(function: TypedFunctionDeclaration) -> Seq<(KeyView, TokenType)>
    decreases function,
{
    seq![
        (function.name.key(), typed_token(TypedAstToken::TypedFunctionDeclaration, function.span)),
    ] + nodes_entries(function.body.contents@) + parameters_entries(function.parameters@)
}

/// The entries of the methods of an implementation: those of each function,
/// in order.
pub open spec fn methods_entries(methods: Seq<TypedFunctionDeclaration>) -> Seq<
    (KeyView, TokenType),
>
    decreases methods,
{
    if methods.len() == 0 {
        Seq::empty()
    } else {
        methods_entries(methods.drop_last()) + function_entries(methods.last())
    }
}

/// The entries of a declaration.
pub open spec fn declaration_entries(declaration: TypedDeclaration) -> Seq<(KeyView, TokenType)>
    decreases declaration,
{
    match declaration {
        TypedDeclaration::VariableDeclaration(variable) => seq![
            (variable.name.key(), typed_token(TypedAstToken::TypedDeclaration, variable.span)),
        ] + expression_entries(variable.body),
        TypedDeclaration::ConstantDeclaration(constant) => seq![
            (constant.name.key(), typed_token(TypedAstToken::TypedDeclaration, constant.span)),
        ] + expression_entries(constant.value),
        TypedDeclaration::FunctionDeclaration(function) => function_entries(function),
        TypedDeclaration::TraitDeclaration(trait_decl) => seq![
            (trait_decl.name.key(), typed_token(TypedAstToken::TypedDeclaration, trait_decl.span)),
        ] + trait_fns_entries(trait_decl.interface_surface@),
        TypedDeclaration::StructDeclaration(struct_decl) => seq![
            (
                struct_decl.name.key(),
                typed_token(TypedAstToken::TypedDeclaration, struct_decl.span),
            ),
        ] + struct_fields_entries(struct_decl.fields@),
        TypedDeclaration::EnumDeclaration(enum_decl) => seq![
            (enum_decl.name.key(), typed_token(TypedAstToken::TypedDeclaration, enum_decl.span)),
        ] + enum_variants_entries(enum_decl.variants@),
        TypedDeclaration::Reassignment(reassignment) => expression_entries(reassignment.rhs).push(
            (
                reassignment.lhs_base_name.key(),
                typed_token(TypedAstToken::TypedReassignment, reassignment.span),
            ),
        ),
        TypedDeclaration::ImplTrait(impl_trait) => call_path_entries(
            impl_trait.trait_name,
            typed_token(TypedAstToken::TypedDeclaration, impl_trait.span),
        ) + methods_entries(impl_trait.methods@),
        TypedDeclaration::AbiDeclaration(abi_decl) => seq![
            (abi_decl.name.key(), typed_token(TypedAstToken::TypedDeclaration, abi_decl.span)),
        ] + trait_fns_entries(abi_decl.interface_surface@),
        TypedDeclaration::GenericTypeForFunctionScope { name } => seq![
            (name.key(), typed_token(TypedAstToken::TypedDeclaration, name.span)),
        ],
        TypedDeclaration::ErrorRecovery => Seq::empty(),
        TypedDeclaration::StorageDeclaration(storage_decl) => storage_fields_entries(
            storage_decl.fields@,
        ),
        TypedDeclaration::StorageReassignment(storage_reassignment) => reassign_descriptors_entries(
            storage_reassignment.fields@,
        ) + expression_entries(storage_reassignment.rhs),
    }
}

/// The entries of a list of expressions, in the order of the list.
pub open spec fn expressions_entries(expressions: Seq<TypedExpression>) -> Seq<
    (KeyView, TokenType),
>
    decreases expressions,
{
    if expressions.len() == 0 {
        Seq::empty()
    } else {
        expressions_entries(expressions.drop_last()) + expression_entries(expressions.last())
    }
}

/// The entries of the arguments of a call: for each, the name of the
/// parameter, which refers to the argument, then those of the argument.
pub open spec fn arguments_entries(arguments: Seq<TypedArgument>) -> Seq<(KeyView, TokenType)>
    decreases arguments,
{
    if arguments.len() == 0 {
        Seq::empty()
    } else {
        arguments_entries(arguments.drop_last()) + seq![
            (
                arguments.last().name.key(),
                typed_token(TypedAstToken::TypedExpression, arguments.last().value.span),
            ),
        ] + expression_entries(arguments.last().value)
    }
}

/// The entries of the fields of a struct literal: for each, the name of the
/// field, which refers to its value, then those of the value.
pub open spec fn struct_expression_fields_entries(fields: Seq<TypedStructExpressionField>) -> Seq<
    (KeyView, TokenType),
>
    decreases fields,
{
    if fields.len() == 0 {
        Seq::empty()
    } else {
        struct_expression_fields_entries(fields.drop_last()) + seq![
            (
                fields.last().name.key(),
                typed_token(TypedAstToken::TypedExpression, fields.last().value.span),
            ),
        ] + expression_entries(fields.last().value)
    }
}

/// The entries of an intrinsic function: those of its argument, where it has
/// one that is an expression.
pub open spec fn intrinsic_function_entries(kind: TypedIntrinsicFunctionKind) -> Seq<
    (KeyView, TokenType),
>
    decreases kind,
{
    match kind {
        TypedIntrinsicFunctionKind::SizeOfVal { exp } => expression_entries(*exp),
        TypedIntrinsicFunctionKind::SizeOfType => Seq::empty(),
        TypedIntrinsicFunctionKind::IsRefType => Seq::empty(),
        TypedIntrinsicFunctionKind::GetStorageKey => Seq::empty(),
    }
}

/// The entries of an expression. Every identifier in it refers to the
/// expression that it is part of; a literal, a parameter that stands for
/// itself, an assembly block, an enum instantiation and an abi name have
/// none.
pub open spec fn expression_entries(expression: TypedExpression) -> Seq<(KeyView, TokenType)>
    decreases expression,
{
    let token = typed_token(TypedAstToken::TypedExpression, expression.span);
    match expression.expression {
        TypedExpressionVariant::Literal => Seq::empty(),
        TypedExpressionVariant::FunctionApplication {
            call_path,
            contract_call_params,
            arguments,
            function_body,
        } => call_path_entries(call_path, token) + expressions_entries(contract_call_params@)
            + arguments_entries(arguments@) + nodes_entries(function_body.contents@),
        TypedExpressionVariant::LazyOperator { lhs, rhs } => expression_entries(*lhs)
            + expression_entries(*rhs),
        TypedExpressionVariant::VariableExpression { name } => seq![(name.key(), token)],
        TypedExpressionVariant::Tuple { fields } => expressions_entries(fields@),
        TypedExpressionVariant::Array { contents } => expressions_entries(contents@),
        TypedExpressionVariant::ArrayIndex { prefix, index } => expression_entries(*prefix)
            + expression_entries(*index),
        TypedExpressionVariant::StructExpression { struct_name, fields } => seq![
            (struct_name.key(), token),
        ] + struct_expression_fields_entries(fields@),
        TypedExpressionVariant::CodeBlock(code_block) => nodes_entries(code_block.contents@),
        TypedExpressionVariant::FunctionParameter => Seq::empty(),
        TypedExpressionVariant::IfExp { condition, then_branch, else_branch } => expression_entries(
            *condition,
        ) + expression_entries(*then_branch) + (match else_branch {
            Some(otherwise) => expression_entries(*otherwise),
            None => Seq::empty(),
        }),
        TypedExpressionVariant::AsmExpression => Seq::empty(),
        TypedExpressionVariant::StructFieldAccess { prefix, field_to_access } => expression_entries(
            *prefix,
        ).push((field_to_access.name.key(), token)),
        TypedExpressionVariant::TupleElemAccess { prefix } => expression_entries(*prefix),
        TypedExpressionVariant::EnumInstantiation => Seq::empty(),
        TypedExpressionVariant::AbiCast { abi_name, address } => call_path_entries(abi_name, token)
            + expression_entries(*address),
        TypedExpressionVariant::StorageAccess(storage_access) => storage_access_entries(
            storage_access.fields@,
            token,
        ),
        TypedExpressionVariant::IntrinsicFunction(kind) => intrinsic_function_entries(kind),
        TypedExpressionVariant::AbiName => Seq::empty(),
        TypedExpressionVariant::EnumTag { exp } => expression_entries(*exp),
        TypedExpressionVariant::UnsafeDowncast { exp, variant } => expression_entries(*exp).push(
            (variant.name.key(), token),
        ),
    }
}

proof fn lemma_one_typed(entry: (KeyView, TokenType))
    requires
        entry.1 is TypedToken,
    ensures
        all_of_pass(seq![entry], true),
{
}

proof fn lemma_push_typed(entries: Seq<(KeyView, TokenType)>, entry: (KeyView, TokenType))
    requires
        all_of_pass(entries, true),
        entry.1 is TypedToken,
    ensures
        all_of_pass(entries.push(entry), true),
{
    lemma_one_typed(entry);
    lemma_all_of_pass_concat(entries, seq![entry], true);
    assert(entries.push(entry) =~= entries + seq![entry]);
}

proof fn lemma_call_path_entries_typed(path: CallPath, token: TokenType)
    requires
        token is TypedToken,
    ensures
        all_of_pass(call_path_entries(path, token), true),
{
    lemma_push_typed(idents_entries(path.prefixes@, token), (path.suffix.key(), token));
}

/// Every entry of a node comes from the typed tree.
pub proof fn lemma_node_entries_typed(node: TypedAstNode)
    ensures
        all_of_pass(node_entries(node), true),
    decreases node,
{
    match node.content {
        TypedAstNodeContent::ReturnStatement(statement) => {
            lemma_expression_entries_typed(statement.expr);
        },
        TypedAstNodeContent::Declaration(declaration) => {
            lemma_declaration_entries_typed(declaration);
        },
        TypedAstNodeContent::Expression(expression) => {
            lemma_expression_entries_typed(expression);
        },
        TypedAstNodeContent::ImplicitReturnExpression(expression) => {
            lemma_expression_entries_typed(expression);
        },
        TypedAstNodeContent::WhileLoop(while_loop) => {
            lemma_expression_entries_typed(while_loop.condition);
            lemma_nodes_entries_typed(while_loop.body.contents@);
            lemma_all_of_pass_concat(
                expression_entries(while_loop.condition),
                nodes_entries(while_loop.body.contents@),
                true,
            );
        },
        TypedAstNodeContent::SideEffect => {},
    }
}

/// Every entry of a list of nodes comes from the typed tree.
pub proof fn lemma_nodes_entries_typed(nodes: Seq<TypedAstNode>)
    ensures
        all_of_pass(nodes_entries(nodes), true),
    decreases nodes,
{
    if nodes.len() > 0 {
        lemma_nodes_entries_typed(nodes.drop_last());
        lemma_node_entries_typed(nodes.last());
        lemma_all_of_pass_concat(
            nodes_entries(nodes.drop_last()),
            node_entries(nodes.last()),
            true,
        );
    }
}

proof fn lemma_function_entries_typed(function: TypedFunctionDeclaration)
    ensures
        all_of_pass(function_entries(function), true),
    decreases function,
{
    let name = (
        function.name.key(),
        typed_token(TypedAstToken::TypedFunctionDeclaration, function.span),
    );
    lemma_one_typed(name);
    lemma_nodes_entries_typed(function.body.contents@);
    lemma_all_of_pass_concat(seq![name], nodes_entries(function.body.contents@), true);
    lemma_all_of_pass_concat(
        seq![name] + nodes_entries(function.body.contents@),
        parameters_entries(function.parameters@),
        true,
    );
}

proof fn lemma_methods_entries_typed(methods: Seq<TypedFunctionDeclaration>)
    ensures
        all_of_pass(methods_entries(methods), true),
    decreases methods,
{
    if methods.len() > 0 {
        let last = methods.last();
        lemma_methods_entries_typed(methods.drop_last());
        lemma_function_entries_typed(last);
        lemma_all_of_pass_concat(
            methods_entries(methods.drop_last()),
            function_entries(last),
            true,
        );
    }
}

proof fn lemma_declaration_entries_typed(declaration: TypedDeclaration)
    ensures
        all_of_pass(declaration_entries(declaration), true),
    decreases declaration,
{
    match declaration {
        TypedDeclaration::VariableDeclaration(variable) => {
            let name = (
                variable.name.key(),
                typed_token(TypedAstToken::TypedDeclaration, variable.span),
            );
            lemma_one_typed(name);
            lemma_expression_entries_typed(variable.body);
            lemma_all_of_pass_concat(seq![name], expression_entries(variable.body), true);
        },
        TypedDeclaration::ConstantDeclaration(constant) => {
            let name = (
                constant.name.key(),
                typed_token(TypedAstToken::TypedDeclaration, constant.span),
            );
            lemma_one_typed(name);
            lemma_expression_entries_typed(constant.value);
            lemma_all_of_pass_concat(seq![name], expression_entries(constant.value), true);
        },
        TypedDeclaration::FunctionDeclaration(function) => {
            lemma_function_entries_typed(function);
        },
        TypedDeclaration::TraitDeclaration(trait_decl) => {
            let name = (
                trait_decl.name.key(),
                typed_token(TypedAstToken::TypedDeclaration, trait_decl.span),
            );
            lemma_one_typed(name);
            lemma_all_of_pass_concat(
                seq![name],
                trait_fns_entries(trait_decl.interface_surface@),
                true,
            );
        },
        TypedDeclaration::StructDeclaration(struct_decl) => {
            let name = (
                struct_decl.name.key(),
                typed_token(TypedAstToken::TypedDeclaration, struct_decl.span),
            );
            lemma_one_typed(name);
            lemma_all_of_pass_concat(seq![name], struct_fields_entries(struct_decl.fields@), true);
        },
        TypedDeclaration::EnumDeclaration(enum_decl) => {
            let name = (
                enum_decl.name.key(),
                typed_token(TypedAstToken::TypedDeclaration, enum_decl.span),
            );
            lemma_one_typed(name);
            lemma_all_of_pass_concat(seq![name], enum_variants_entries(enum_decl.variants@), true);
        },
        TypedDeclaration::Reassignment(reassignment) => {
            lemma_expression_entries_typed(reassignment.rhs);
            lemma_push_typed(
                expression_entries(reassignment.rhs),
                (
                    reassignment.lhs_base_name.key(),
                    typed_token(TypedAstToken::TypedReassignment, reassignment.span),
                ),
            );
        },
        TypedDeclaration::ImplTrait(impl_trait) => {
            let token = typed_token(TypedAstToken::TypedDeclaration, impl_trait.span);
            lemma_call_path_entries_typed(impl_trait.trait_name, token);
            lemma_methods_entries_typed(impl_trait.methods@);
            lemma_all_of_pass_concat(
                call_path_entries(impl_trait.trait_name, token),
                methods_entries(impl_trait.methods@),
                true,
            );
        },
        TypedDeclaration::AbiDeclaration(abi_decl) => {
            let name = (
                abi_decl.name.key(),
                typed_token(TypedAstToken::TypedDeclaration, abi_decl.span),
            );
            lemma_one_typed(name);
            lemma_all_of_pass_concat(
                seq![name],
                trait_fns_entries(abi_decl.interface_surface@),
                true,
            );
        },
        TypedDeclaration::GenericTypeForFunctionScope { name } => {},
        TypedDeclaration::ErrorRecovery => {},
        TypedDeclaration::StorageDeclaration(storage_decl) => {},
        TypedDeclaration::StorageReassignment(storage_reassignment) => {
            lemma_expression_entries_typed(storage_reassignment.rhs);
            lemma_all_of_pass_concat(
                reassign_descriptors_entries(storage_reassignment.fields@),
                expression_entries(storage_reassignment.rhs),
                true,
            );
        },
    }
}

proof fn lemma_expressions_entries_typed(expressions: Seq<TypedExpression>)
    ensures
        all_of_pass(expressions_entries(expressions), true),
    decreases expressions,
{
    if expressions.len() > 0 {
        lemma_expressions_entries_typed(expressions.drop_last());
        lemma_expression_entries_typed(expressions.last());
        lemma_all_of_pass_concat(
            expressions_entries(expressions.drop_last()),
            expression_entries(expressions.last()),
            true,
        );
    }
}

proof fn lemma_arguments_entries_typed(arguments: Seq<TypedArgument>)
    ensures
        all_of_pass(arguments_entries(arguments), true),
    decreases arguments,
{
    if arguments.len() > 0 {
        let last = arguments.last();
        let name = (last.name.key(), typed_token(TypedAstToken::TypedExpression, last.value.span));
        lemma_arguments_entries_typed(arguments.drop_last());
        lemma_expression_entries_typed(last.value);
        lemma_one_typed(name);
        lemma_all_of_pass_concat(arguments_entries(arguments.drop_last()), seq![name], true);
        lemma_all_of_pass_concat(
            arguments_entries(arguments.drop_last()) + seq![name],
            expression_entries(last.value),
            true,
        );
    }
}

proof fn lemma_struct_expression_fields_entries_typed(fields: Seq<TypedStructExpressionField>)
    ensures
        all_of_pass(struct_expression_fields_entries(fields), true),
    decreases fields,
{
    if fields.len() > 0 {
        let last = fields.last();
        let name = (last.name.key(), typed_token(TypedAstToken::TypedExpression, last.value.span));
        lemma_struct_expression_fields_entries_typed(fields.drop_last());
        lemma_expression_entries_typed(last.value);
        lemma_one_typed(name);
        lemma_all_of_pass_concat(
            struct_expression_fields_entries(fields.drop_last()),
            seq![name],
            true,
        );
        lemma_all_of_pass_concat(
            struct_expression_fields_entries(fields.drop_last()) + seq![name],
            expression_entries(last.value),
            true,
        );
    }
}

proof fn lemma_expression_entries_typed(expression: TypedExpression)
    ensures
        all_of_pass(expression_entries(expression), true),
    decreases expression,
{
    let token = typed_token(TypedAstToken::TypedExpression, expression.span);
    match expression.expression {
        TypedExpressionVariant::Literal => {},
        TypedExpressionVariant::FunctionApplication {
            call_path,
            contract_call_params,
            arguments,
            function_body,
        } => {
            let path = call_path_entries(call_path, token);
            let params = expressions_entries(contract_call_params@);
            let args = arguments_entries(arguments@);
            lemma_call_path_entries_typed(call_path, token);
            lemma_expressions_entries_typed(contract_call_params@);
            lemma_arguments_entries_typed(arguments@);
            lemma_nodes_entries_typed(function_body.contents@);
            lemma_all_of_pass_concat(path, params, true);
            lemma_all_of_pass_concat(path + params, args, true);
            lemma_all_of_pass_concat(
                path + params + args,
                nodes_entries(function_body.contents@),
                true,
            );
        },
        TypedExpressionVariant::LazyOperator { lhs, rhs } => {
            lemma_expression_entries_typed(*lhs);
            lemma_expression_entries_typed(*rhs);
            lemma_all_of_pass_concat(expression_entries(*lhs), expression_entries(*rhs), true);
        },
        TypedExpressionVariant::VariableExpression { name } => {
            lemma_one_typed((name.key(), token));
        },
        TypedExpressionVariant::Tuple { fields } => {
            lemma_expressions_entries_typed(fields@);
        },
        TypedExpressionVariant::Array { contents } => {
            lemma_expressions_entries_typed(contents@);
        },
        TypedExpressionVariant::ArrayIndex { prefix, index } => {
            lemma_expression_entries_typed(*prefix);
            lemma_expression_entries_typed(*index);
            lemma_all_of_pass_concat(expression_entries(*prefix), expression_entries(*index), true);
        },
        TypedExpressionVariant::StructExpression { struct_name, fields } => {
            lemma_one_typed((struct_name.key(), token));
            lemma_struct_expression_fields_entries_typed(fields@);
            lemma_all_of_pass_concat(
                seq![(struct_name.key(), token)],
                struct_expression_fields_entries(fields@),
                true,
            );
        },
        TypedExpressionVariant::CodeBlock(code_block) => {
            lemma_nodes_entries_typed(code_block.contents@);
        },
        TypedExpressionVariant::FunctionParameter => {},
        TypedExpressionVariant::IfExp { condition, then_branch, else_branch } => {
            let last = match else_branch {
                Some(otherwise) => expression_entries(*otherwise),
                None => Seq::empty(),
            };
            lemma_expression_entries_typed(*condition);
            lemma_expression_entries_typed(*then_branch);
            match else_branch {
                Some(otherwise) => {
                    lemma_expression_entries_typed(*otherwise);
                },
                None => {},
            }
            lemma_all_of_pass_concat(
                expression_entries(*condition),
                expression_entries(*then_branch),
                true,
            );
            lemma_all_of_pass_concat(
                expression_entries(*condition) + expression_entries(*then_branch),
                last,
                true,
            );
        },
        TypedExpressionVariant::AsmExpression => {},
        TypedExpressionVariant::StructFieldAccess { prefix, field_to_access } => {
            lemma_expression_entries_typed(*prefix);
            lemma_push_typed(expression_entries(*prefix), (field_to_access.name.key(), token));
        },
        TypedExpressionVariant::TupleElemAccess { prefix } => {
            lemma_expression_entries_typed(*prefix);
        },
        TypedExpressionVariant::EnumInstantiation => {},
        TypedExpressionVariant::AbiCast { abi_name, address } => {
            lemma_call_path_entries_typed(abi_name, token);
            lemma_expression_entries_typed(*address);
            lemma_all_of_pass_concat(
                call_path_entries(abi_name, token),
                expression_entries(*address),
                true,
            );
        },
        TypedExpressionVariant::StorageAccess(storage_access) => {},
        TypedExpressionVariant::IntrinsicFunction(kind) => {
            match kind {
                TypedIntrinsicFunctionKind::SizeOfVal { exp } => {
                    lemma_expression_entries_typed(*exp);
                },
                _ => {},
            }
            assert(all_of_pass(intrinsic_function_entries(kind), true));
        },
        TypedExpressionVariant::AbiName => {},
        TypedExpressionVariant::EnumTag { exp } => {
            lemma_expression_entries_typed(*exp);
        },
        TypedExpressionVariant::UnsafeDowncast { exp, variant } => {
            lemma_expression_entries_typed(*exp);
            lemma_push_typed(expression_entries(*exp), (variant.name.key(), token));
        },
    }
}

} // verus!
