//! What the syntactic tree contributes to the index: for each kind of node,
//! the entries of its identifiers, in the order in which they are inserted.
//! The entry of an identifier comes before those of what lies below it.

use crate::ident::{CallPath, Ident, KeyView, Span};
use crate::parse_tree::{
    AstNode, AstNodeContent, Declaration, EnumVariant, Expression, ExpressionKind,
    FunctionDeclaration, FunctionParameter, IntrinsicFunctionKind, StorageAccessDescriptor,
    StorageField, StorageReassignDescriptor, StructExpressionField, StructField, TraitFn,
    WhileLoop,
};
use crate::token::{all_of_pass, lemma_all_of_pass_concat, AstToken, TokenType};
use vstd::prelude::*;

verus! {

/// The entry of kind `kind` that refers to the node at `node`.
pub open spec fn ast_token(kind: AstToken, node: Span) -> TokenType {
    TokenType::Token { kind, node }
}

/// One entry for each identifier of `idents`, all of them `token`.
pub open spec fn idents_entries(idents: Seq<Ident>, token: TokenType) -> Seq<(KeyView, TokenType)> {
    Seq::new(idents.len(), |i: int| (idents[i].key(), token))
}

/// The entries of a path: its prefixes in order, then its last segment.
pub open spec fn call_path_entries(path: CallPath, token: TokenType) -> Seq<(KeyView, TokenType)> {
    idents_entries(path.prefixes@, token).push((path.suffix.key(), token))
}

/// One entry for each parameter, under its name.
pub open spec fn parameters_entries(parameters: Seq<FunctionParameter>) -> Seq<
    (KeyView, TokenType),
> {
    Seq::new(
        parameters.len(),
        |i: int|
            (
                parameters[i].name.key(),
                ast_token(AstToken::FunctionParameter, parameters[i].span),
            ),
    )
}

/// One entry for each signature, under its name.
pub open spec fn trait_fns_entries(fns: Seq<TraitFn>) -> Seq<(KeyView, TokenType)> {
    Seq::new(
        fns.len(),
        |i: int| (fns[i].name.key(), ast_token(AstToken::TraitFn, fns[i].span)),
    )
}

/// One entry for each field, under its name.
pub open spec fn struct_fields_entries(fields: Seq<StructField>) -> Seq<(KeyView, TokenType)> {
    Seq::new(
        fields.len(),
        |i: int|
            (fields[i].name.key(), ast_token(AstToken::StructField, fields[i].span)),
    )
}

/// One entry for each variant, under its name.
pub open spec fn enum_variants_entries(variants: Seq<EnumVariant>) -> Seq<
    (KeyView, TokenType),
> {
    Seq::new(
        variants.len(),
        |i: int|
            (
                variants[i].name.key(),
                ast_token(AstToken::EnumVariant, variants[i].span),
            ),
    )
}

/// One entry for each storage field, under its name.
pub open spec fn storage_fields_entries(fields: Seq<StorageField>) -> Seq<
    (KeyView, TokenType),
> {
    Seq::new(
        fields.len(),
        |i: int|
            (fields[i].name.key(), ast_token(AstToken::StorageField, fields[i].span)),
    )
}

/// One entry for each step of the path to a storage field that is assigned
/// to, under its name.
pub open spec fn reassign_descriptors_entries(
    fields: Seq<StorageReassignDescriptor>,
) -> Seq<(KeyView, TokenType)> {
    Seq::new(
        fields.len(),
        |i: int|
            (
                fields[i].name.key(),
                ast_token(AstToken::Reassignment, fields[i].span),
            ),
    )
}

/// The entries of an access to storage: one for each field on the way, all
/// of them referring to the access.
pub open spec fn storage_access_entries(
    fields: Seq<StorageAccessDescriptor>,
    token: TokenType,
) -> Seq<(KeyView, TokenType)> {
    Seq::new(fields.len(), |i: int| (fields[i].name.key(), token))
}

/// The entries of a node.
pub open spec fn node_entries(node: AstNode) -> Seq<(KeyView, TokenType)>
    decreases node,
{
    match node.content {
        AstNodeContent::ReturnStatement(statement) => expression_entries(statement.expr),
        AstNodeContent::Declaration(declaration) => declaration_entries(declaration),
        AstNodeContent::Expression(expression) => expression_entries(expression),
        AstNodeContent::ImplicitReturnExpression(expression) => expression_entries(
            expression,
        ),
        AstNodeContent::WhileLoop(while_loop) => while_loop_entries(while_loop),
        AstNodeContent::UseStatement => Seq::empty(),
        AstNodeContent::IncludeStatement => Seq::empty(),
    }
}

/// The entries of a list of nodes: those of each node, in the order of the
/// list.
pub open spec fn nodes_entries(nodes: Seq<AstNode>) -> Seq<(KeyView, TokenType)>
    decreases nodes,
{
    if nodes.len() == 0 {
        Seq::empty()
    } else {
        nodes_entries(nodes.drop_last()) + node_entries(nodes.last())
    }
}

/// The entries of a loop: those of its condition, then those of its body.
pub open spec fn while_loop_entries(while_loop: WhileLoop) -> Seq<(KeyView, TokenType)>
    decreases while_loop,
{
    expression_entries(while_loop.condition) + nodes_entries(while_loop.body.contents@)
}

/// The entries of a function: its name, then its parameters, then its
/// body.
pub open spec fn function_entries(function: FunctionDeclaration) -> Seq<(KeyView, TokenType)>
    decreases function,
{
    seq![
        (function.name.key(), ast_token(AstToken::FunctionDeclaration, function.span)),
    ] + parameters_entries(function.parameters@) + nodes_entries(function.body.contents@)
}

/// The entries of the methods of an implementation: those of each function,
/// in order.
pub open spec fn methods_entries(methods: Seq<FunctionDeclaration>) -> Seq<
    (KeyView, TokenType),
>
    decreases methods,
{
    if methods.len() == 0 {
        Seq::empty()
    } else {
        methods_entries(methods.drop_last()) + function_entries(methods.last())
    }
}

/// The entries of a declaration.
pub open spec fn declaration_entries(declaration: Declaration) -> Seq<(KeyView, TokenType)>
    decreases declaration,
{
    match declaration {
        Declaration::VariableDeclaration(variable) => seq![
            (variable.name.key(), ast_token(AstToken::Declaration, variable.span)),
        ] + expression_entries(variable.body),
        Declaration::ConstantDeclaration(constant) => seq![
            (constant.name.key(), ast_token(AstToken::Declaration, constant.span)),
        ] + expression_entries(constant.value),
        Declaration::FunctionDeclaration(function) => function_entries(function),
        Declaration::TraitDeclaration(trait_decl) => seq![
            (trait_decl.name.key(), ast_token(AstToken::Declaration, trait_decl.span)),
        ] + trait_fns_entries(trait_decl.interface_surface@),
        Declaration::StructDeclaration(struct_decl) => seq![
            (
                struct_decl.name.key(),
                ast_token(AstToken::Declaration, struct_decl.span),
            ),
        ] + struct_fields_entries(struct_decl.fields@),
        Declaration::EnumDeclaration(enum_decl) => seq![
            (enum_decl.name.key(), ast_token(AstToken::Declaration, enum_decl.span)),
        ] + enum_variants_entries(enum_decl.variants@),
        Declaration::Reassignment(reassignment) => seq![
            (
                reassignment.lhs_base_name.key(),
                ast_token(AstToken::Reassignment, reassignment.span),
            ),
        ] + expression_entries(reassignment.rhs),
        Declaration::ImplTrait(impl_trait) => call_path_entries(
            impl_trait.trait_name,
            ast_token(AstToken::Declaration, impl_trait.span),
        ) + methods_entries(impl_trait.methods@),
        Declaration::AbiDeclaration(abi_decl) => seq![
            (abi_decl.name.key(), ast_token(AstToken::Declaration, abi_decl.span)),
        ] + trait_fns_entries(abi_decl.interface_surface@),
        Declaration::GenericTypeForFunctionScope { name } => seq![
            (name.key(), ast_token(AstToken::Declaration, name.span)),
        ],
        Declaration::StorageDeclaration(storage_decl) => storage_fields_entries(
            storage_decl.fields@,
        ),
        Declaration::StorageReassignment(storage_reassignment) => reassign_descriptors_entries(
            storage_reassignment.fields@,
        ) + expression_entries(storage_reassignment.rhs),
    }
}

/// The entries of a list of expressions, in the order of the list.
pub open spec fn expressions_entries(expressions: Seq<Expression>) -> Seq<
    (KeyView, TokenType),
>
    decreases expressions,
{
    if expressions.len() == 0 {
        Seq::empty()
    } else {
        expressions_entries(expressions.drop_last()) + expression_entries(expressions.last())
    }
}

/// The entries of values given by name, as the fields of a struct literal
/// are: for each, the name, which refers to the value, then those of the
/// value.
pub open spec fn struct_expression_fields_entries(fields: Seq<StructExpressionField>) -> Seq<
    (KeyView, TokenType),
>
    decreases fields,
{
    if fields.len() == 0 {
        Seq::empty()
    } else {
        struct_expression_fields_entries(fields.drop_last()) + seq![
            (
                fields.last().name.key(),
                ast_token(AstToken::Expression, fields.last().value.span),
            ),
        ] + expression_entries(fields.last().value)
    }
}

/// The entries of an intrinsic function: those of its argument, where it has
/// one that is an expression.
pub open spec fn intrinsic_function_entries(kind: IntrinsicFunctionKind) -> Seq<
    (KeyView, TokenType),
>
    decreases kind,
{
    match kind {
        IntrinsicFunctionKind::SizeOfVal { exp } => expression_entries(*exp),
        IntrinsicFunctionKind::SizeOfType => Seq::empty(),
        IntrinsicFunctionKind::IsRefType => Seq::empty(),
        IntrinsicFunctionKind::GetStorageKey => Seq::empty(),
    }
}

/// The entries of an expression. Every identifier in it refers to the
/// expression that it is part of; a literal, a bare parameter, an assembly
/// block, an enum instantiation and an abi name have none.
pub open spec fn expression_entries(expression: Expression) -> Seq<(KeyView, TokenType)>
    decreases expression,
{
    let token = ast_token(AstToken::Expression, expression.span);
    match expression.kind {
        ExpressionKind::Literal => Seq::empty(),
        ExpressionKind::FunctionApplication {
            call_path,
            contract_call_params,
            arguments,
        } => call_path_entries(call_path, token) + struct_expression_fields_entries(
            contract_call_params@,
        ) + expressions_entries(arguments@),
        ExpressionKind::LazyOperator { lhs, rhs } => expression_entries(*lhs)
            + expression_entries(*rhs),
        ExpressionKind::VariableExpression { name } => seq![(name.key(), token)],
        ExpressionKind::Tuple { fields } => expressions_entries(fields@),
        ExpressionKind::Array { contents } => expressions_entries(contents@),
        ExpressionKind::ArrayIndex { prefix, index } => expression_entries(*prefix)
            + expression_entries(*index),
        ExpressionKind::StructExpression { struct_name, fields } => seq![
            (struct_name.key(), token),
        ] + struct_expression_fields_entries(fields@),
        ExpressionKind::CodeBlock(code_block) => nodes_entries(code_block.contents@),
        ExpressionKind::FunctionParameter => Seq::empty(),
        ExpressionKind::IfExp { condition, then_branch, else_branch } => expression_entries(
            *condition,
        ) + expression_entries(*then_branch) + (match else_branch {
            Some(otherwise) => expression_entries(*otherwise),
            None => Seq::empty(),
        }),
        ExpressionKind::AsmExpression => Seq::empty(),
        ExpressionKind::SubfieldExpression { prefix, field_to_access } => expression_entries(
            *prefix,
        ).push((field_to_access.key(), token)),
        ExpressionKind::TupleElemAccess { prefix } => expression_entries(*prefix),
        ExpressionKind::EnumInstantiation => Seq::empty(),
        ExpressionKind::AbiCast { abi_name, address } => call_path_entries(abi_name, token)
            + expression_entries(*address),
        ExpressionKind::StorageAccess(storage_access) => storage_access_entries(
            storage_access.fields@,
            token,
        ),
        ExpressionKind::IntrinsicFunction(kind) => intrinsic_function_entries(kind),
        ExpressionKind::AbiName => Seq::empty(),
        ExpressionKind::EnumTag { exp } => expression_entries(*exp),
        ExpressionKind::UnsafeDowncast { exp, variant } => expression_entries(*exp).push(
            (variant.name.key(), token),
        ),
    }
}

proof fn lemma_one_plain(entry: (KeyView, TokenType))
    requires
        entry.1 is Token,
    ensures
        all_of_pass(seq![entry], false),
{
}

proof fn lemma_push_plain(entries: Seq<(KeyView, TokenType)>, entry: (KeyView, TokenType))
    requires
        all_of_pass(entries, false),
        entry.1 is Token,
    ensures
        all_of_pass(entries.push(entry), false),
{
    lemma_one_plain(entry);
    lemma_all_of_pass_concat(entries, seq![entry], false);
    assert(entries.push(entry) =~= entries + seq![entry]);
}

proof fn lemma_call_path_entries_plain(path: CallPath, token: TokenType)
    requires
        token is Token,
    ensures
        all_of_pass(call_path_entries(path, token), false),
{
    lemma_push_plain(idents_entries(path.prefixes@, token), (path.suffix.key(), token));
}

/// Every entry of a node comes from the syntactic tree.
pub proof fn lemma_node_entries_plain(node: AstNode)
    ensures
        all_of_pass(node_entries(node), false),
    decreases node,
{
    match node.content {
        AstNodeContent::ReturnStatement(statement) => {
            lemma_expression_entries_plain(statement.expr);
        },
        AstNodeContent::Declaration(declaration) => {
            lemma_declaration_entries_plain(declaration);
        },
        AstNodeContent::Expression(expression) => {
            lemma_expression_entries_plain(expression);
        },
        AstNodeContent::ImplicitReturnExpression(expression) => {
            lemma_expression_entries_plain(expression);
        },
        AstNodeContent::WhileLoop(while_loop) => {
            lemma_expression_entries_plain(while_loop.condition);
            lemma_nodes_entries_plain(while_loop.body.contents@);
            lemma_all_of_pass_concat(
                expression_entries(while_loop.condition),
                nodes_entries(while_loop.body.contents@),
                false,
            );
        },
        AstNodeContent::UseStatement => {},
        AstNodeContent::IncludeStatement => {},
    }
}

/// Every entry of a list of nodes comes from the syntactic tree.
pub proof fn lemma_nodes_entries_plain(nodes: Seq<AstNode>)
    ensures
        all_of_pass(nodes_entries(nodes), false),
    decreases nodes,
{
    if nodes.len() > 0 {
        lemma_nodes_entries_plain(nodes.drop_last());
        lemma_node_entries_plain(nodes.last());
        lemma_all_of_pass_concat(
            nodes_entries(nodes.drop_last()),
            node_entries(nodes.last()),
            false,
        );
    }
}

proof fn lemma_function_entries_plain(function: FunctionDeclaration)
    ensures
        all_of_pass(function_entries(function), false),
    decreases function,
{
    let name = (
        function.name.key(),
        ast_token(AstToken::FunctionDeclaration, function.span),
    );
    lemma_one_plain(name);
    lemma_nodes_entries_plain(function.body.contents@);
    lemma_all_of_pass_concat(seq![name], parameters_entries(function.parameters@), false);
    lemma_all_of_pass_concat(
        seq![name] + parameters_entries(function.parameters@),
        nodes_entries(function.body.contents@),
        false,
    );
}

proof fn lemma_methods_entries_plain(methods: Seq<FunctionDeclaration>)
    ensures
        all_of_pass(methods_entries(methods), false),
    decreases methods,
{
    if methods.len() > 0 {
        let last = methods.last();
        lemma_methods_entries_plain(methods.drop_last());
        lemma_function_entries_plain(last);
        lemma_all_of_pass_concat(
            methods_entries(methods.drop_last()),
            function_entries(last),
            false,
        );
    }
}

proof fn lemma_declaration_entries_plain(declaration: Declaration)
    ensures
        all_of_pass(declaration_entries(declaration), false),
    decreases declaration,
{
    match declaration {
        Declaration::VariableDeclaration(variable) => {
            let name = (
                variable.name.key(),
                ast_token(AstToken::Declaration, variable.span),
            );
            lemma_one_plain(name);
            lemma_expression_entries_plain(variable.body);
            lemma_all_of_pass_concat(seq![name], expression_entries(variable.body), false);
        },
        Declaration::ConstantDeclaration(constant) => {
            let name = (
                constant.name.key(),
                ast_token(AstToken::Declaration, constant.span),
            );
            lemma_one_plain(name);
            lemma_expression_entries_plain(constant.value);
            lemma_all_of_pass_concat(seq![name], expression_entries(constant.value), false);
        },
        Declaration::FunctionDeclaration(function) => {
            lemma_function_entries_plain(function);
        },
        Declaration::TraitDeclaration(trait_decl) => {
            let name = (
                trait_decl.name.key(),
                ast_token(AstToken::Declaration, trait_decl.span),
            );
            lemma_one_plain(name);
            lemma_all_of_pass_concat(
                seq![name],
                trait_fns_entries(trait_decl.interface_surface@),
                false,
            );
        },
        Declaration::StructDeclaration(struct_decl) => {
            let name = (
                struct_decl.name.key(),
                ast_token(AstToken::Declaration, struct_decl.span),
            );
            lemma_one_plain(name);
            lemma_all_of_pass_concat(seq![name], struct_fields_entries(struct_decl.fields@), false);
        },
        Declaration::EnumDeclaration(enum_decl) => {
            let name = (
                enum_decl.name.key(),
                ast_token(AstToken::Declaration, enum_decl.span),
            );
            lemma_one_plain(name);
            lemma_all_of_pass_concat(seq![name], enum_variants_entries(enum_decl.variants@), false);
        },
        Declaration::Reassignment(reassignment) => {
            let target = (
                reassignment.lhs_base_name.key(),
                ast_token(AstToken::Reassignment, reassignment.span),
            );
            lemma_one_plain(target);
            lemma_expression_entries_plain(reassignment.rhs);
            lemma_all_of_pass_concat(seq![target], expression_entries(reassignment.rhs), false);
        },
        Declaration::ImplTrait(impl_trait) => {
            let token = ast_token(AstToken::Declaration, impl_trait.span);
            lemma_call_path_entries_plain(impl_trait.trait_name, token);
            lemma_methods_entries_plain(impl_trait.methods@);
            lemma_all_of_pass_concat(
                call_path_entries(impl_trait.trait_name, token),
                methods_entries(impl_trait.methods@),
                false,
            );
        },
        Declaration::AbiDeclaration(abi_decl) => {
            let name = (
                abi_decl.name.key(),
                ast_token(AstToken::Declaration, abi_decl.span),
            );
            lemma_one_plain(name);
            lemma_all_of_pass_concat(
                seq![name],
                trait_fns_entries(abi_decl.interface_surface@),
                false,
            );
        },
        Declaration::GenericTypeForFunctionScope { name } => {},
        Declaration::StorageDeclaration(storage_decl) => {},
        Declaration::StorageReassignment(storage_reassignment) => {
            lemma_expression_entries_plain(storage_reassignment.rhs);
            lemma_all_of_pass_concat(
                reassign_descriptors_entries(storage_reassignment.fields@),
                expression_entries(storage_reassignment.rhs),
                false,
            );
        },
    }
}

proof fn lemma_expressions_entries_plain(expressions: Seq<Expression>)
    ensures
        all_of_pass(expressions_entries(expressions), false),
    decreases expressions,
{
    if expressions.len() > 0 {
        lemma_expressions_entries_plain(expressions.drop_last());
        lemma_expression_entries_plain(expressions.last());
        lemma_all_of_pass_concat(
            expressions_entries(expressions.drop_last()),
            expression_entries(expressions.last()),
            false,
        );
    }
}

proof fn lemma_struct_expression_fields_entries_plain(fields: Seq<StructExpressionField>)
    ensures
        all_of_pass(struct_expression_fields_entries(fields), false),
    decreases fields,
{
    if fields.len() > 0 {
        let last = fields.last();
        let name = (last.name.key(), ast_token(AstToken::Expression, last.value.span));
        lemma_struct_expression_fields_entries_plain(fields.drop_last());
        lemma_expression_entries_plain(last.value);
        lemma_one_plain(name);
        lemma_all_of_pass_concat(
            struct_expression_fields_entries(fields.drop_last()),
            seq![name],
            false,
        );
        lemma_all_of_pass_concat(
            struct_expression_fields_entries(fields.drop_last()) + seq![name],
            expression_entries(last.value),
            false,
        );
    }
}

proof fn lemma_expression_entries_plain(expression: Expression)
    ensures
        all_of_pass(expression_entries(expression), false),
    decreases expression,
{
    let token = ast_token(AstToken::Expression, expression.span);
    match expression.kind {
        ExpressionKind::Literal => {},
        ExpressionKind::FunctionApplication { call_path, contract_call_params, arguments } => {
            let path = call_path_entries(call_path, token);
            let params = struct_expression_fields_entries(contract_call_params@);
            lemma_call_path_entries_plain(call_path, token);
            lemma_struct_expression_fields_entries_plain(contract_call_params@);
            lemma_expressions_entries_plain(arguments@);
            lemma_all_of_pass_concat(path, params, false);
            lemma_all_of_pass_concat(path + params, expressions_entries(arguments@), false);
        },
        ExpressionKind::LazyOperator { lhs, rhs } => {
            lemma_expression_entries_plain(*lhs);
            lemma_expression_entries_plain(*rhs);
            lemma_all_of_pass_concat(expression_entries(*lhs), expression_entries(*rhs), false);
        },
        ExpressionKind::VariableExpression { name } => {
            lemma_one_plain((name.key(), token));
        },
        ExpressionKind::Tuple { fields } => {
            lemma_expressions_entries_plain(fields@);
        },
        ExpressionKind::Array { contents } => {
            lemma_expressions_entries_plain(contents@);
        },
        ExpressionKind::ArrayIndex { prefix, index } => {
            lemma_expression_entries_plain(*prefix);
            lemma_expression_entries_plain(*index);
            lemma_all_of_pass_concat(expression_entries(*prefix), expression_entries(*index), false);
        },
        ExpressionKind::StructExpression { struct_name, fields } => {
            lemma_one_plain((struct_name.key(), token));
            lemma_struct_expression_fields_entries_plain(fields@);
            lemma_all_of_pass_concat(
                seq![(struct_name.key(), token)],
                struct_expression_fields_entries(fields@),
                false,
            );
        },
        ExpressionKind::CodeBlock(code_block) => {
            lemma_nodes_entries_plain(code_block.contents@);
        },
        ExpressionKind::FunctionParameter => {},
        ExpressionKind::IfExp { condition, then_branch, else_branch } => {
            let last = match else_branch {
                Some(otherwise) => expression_entries(*otherwise),
                None => Seq::empty(),
            };
            lemma_expression_entries_plain(*condition);
            lemma_expression_entries_plain(*then_branch);
            match else_branch {
                Some(otherwise) => {
                    lemma_expression_entries_plain(*otherwise);
                },
                None => {},
            }
            lemma_all_of_pass_concat(
                expression_entries(*condition),
                expression_entries(*then_branch),
                false,
            );
            lemma_all_of_pass_concat(
                expression_entries(*condition) + expression_entries(*then_branch),
                last,
                false,
            );
        },
        ExpressionKind::AsmExpression => {},
        ExpressionKind::SubfieldExpression { prefix, field_to_access } => {
            lemma_expression_entries_plain(*prefix);
            lemma_push_plain(expression_entries(*prefix), (field_to_access.key(), token));
        },
        ExpressionKind::TupleElemAccess { prefix } => {
            lemma_expression_entries_plain(*prefix);
        },
        ExpressionKind::EnumInstantiation => {},
        ExpressionKind::AbiCast { abi_name, address } => {
            lemma_call_path_entries_plain(abi_name, token);
            lemma_expression_entries_plain(*address);
            lemma_all_of_pass_concat(
                call_path_entries(abi_name, token),
                expression_entries(*address),
                false,
            );
        },
        ExpressionKind::StorageAccess(storage_access) => {},
        ExpressionKind::IntrinsicFunction(kind) => {
            match kind {
                IntrinsicFunctionKind::SizeOfVal { exp } => {
                    lemma_expression_entries_plain(*exp);
                },
                _ => {},
            }
            assert(all_of_pass(intrinsic_function_entries(kind), false));
        },
        ExpressionKind::AbiName => {},
        ExpressionKind::EnumTag { exp } => {
            lemma_expression_entries_plain(*exp);
        },
        ExpressionKind::UnsafeDowncast { exp, variant } => {
            lemma_expression_entries_plain(*exp);
            lemma_push_plain(expression_entries(*exp), (variant.name.key(), token));
        },
    }
}

} // verus!
