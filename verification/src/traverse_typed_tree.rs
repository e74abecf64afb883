//! The walker over the typed tree: it visits every node and inserts an entry
//! for each identifier that the node bears.

use crate::ident::{to_ident_key, CallPath, Ident, KeyView, Span};
use crate::token::{
    insert_all, lemma_insert_all_concat, lemma_insert_all_first, lemma_insert_all_push, TokenMap,
    TokenType, TypedAstToken,
};
use crate::typed_entries::{
    arguments_entries, call_path_entries, declaration_entries, enum_variants_entries,
    expression_entries, expressions_entries, function_entries, idents_entries,
    intrinsic_function_entries, methods_entries, node_entries, nodes_entries, parameters_entries,
    reassign_descriptors_entries, storage_access_entries, storage_fields_entries,
    struct_expression_fields_entries, struct_fields_entries, trait_fns_entries, typed_token,
    while_loop_entries,
};
use crate::typed_tree::{
    TypeCheckedStorageAccessDescriptor, TypeCheckedStorageReassignDescriptor,
    TypedArgument, TypedAstNode, TypedAstNodeContent, TypedDeclaration, TypedEnumVariant,
    TypedExpression, TypedExpressionVariant, TypedFunctionDeclaration, TypedFunctionParameter,
    TypedIntrinsicFunctionKind, TypedStorageField, TypedStructExpressionField, TypedStructField,
    TypedTraitFn, TypedWhileLoop,
};
use vstd::prelude::*;

verus! {

fn typed(kind: TypedAstToken, node: Span) -> (token: TokenType)
    ensures
        token == typed_token(kind, node),
{
    TokenType::TypedToken { kind, node }
}

fn insert_idents(idents: &Vec<Ident>, token: TokenType, tokens: &mut TokenMap)
    ensures
        final(tokens)@ == insert_all(old(tokens)@, idents_entries(idents@, token)),
{
    let ghost start = tokens@;
    let ghost all = idents_entries(idents@, token);
    let mut i: usize = 0;
    while i < idents.len()
        invariant
            i <= idents.len(),
            all == idents_entries(idents@, token),
            tokens@ == insert_all(start, all.take(i as int)),
        decreases idents.len() - i,
    {
        tokens.insert(to_ident_key(&idents[i]), token);
        proof {
            assert(all.take(i + 1) =~= all.take(i as int).push(all[i as int]));
            lemma_insert_all_push(start, all.take(i as int), all[i as int]);
        }
        i += 1;
    }
    proof {
        assert(all.take(idents.len() as int) =~= all);
    }
}

fn insert_call_path(path: &CallPath, token: TokenType, tokens: &mut TokenMap)
    ensures
        final(tokens)@ == insert_all(old(tokens)@, call_path_entries(*path, token)),
{
    let ghost start = tokens@;
    insert_idents(&path.prefixes, token, tokens);
    tokens.insert(to_ident_key(&path.suffix), token);
    proof {
        lemma_insert_all_push(
            start,
            idents_entries(path.prefixes@, token),
            (path.suffix.key(), token),
        );
    }
}

fn insert_parameters(parameters: &Vec<TypedFunctionParameter>, tokens: &mut TokenMap)
    ensures
        final(tokens)@ == insert_all(old(tokens)@, parameters_entries(parameters@)),
{
    let ghost start = tokens@;
    let ghost all = parameters_entries(parameters@);
    let mut i: usize = 0;
    while i < parameters.len()
        invariant
            i <= parameters.len(),
            all == parameters_entries(parameters@),
            tokens@ == insert_all(start, all.take(i as int)),
        decreases parameters.len() - i,
    {
        let parameter = &parameters[i];
        tokens.insert(
            to_ident_key(&parameter.name),
            typed(TypedAstToken::TypedFunctionParameter, parameter.span),
        );
        proof {
            assert(all.take(i + 1) =~= all.take(i as int).push(all[i as int]));
            lemma_insert_all_push(start, all.take(i as int), all[i as int]);
        }
        i += 1;
    }
    proof {
        assert(all.take(parameters.len() as int) =~= all);
    }
}

fn insert_trait_fns(fns: &Vec<TypedTraitFn>, tokens: &mut TokenMap)
    ensures
        final(tokens)@ == insert_all(old(tokens)@, trait_fns_entries(fns@)),
{
    let ghost start = tokens@;
    let ghost all = trait_fns_entries(fns@);
    let mut i: usize = 0;
    while i < fns.len()
        invariant
            i <= fns.len(),
            all == trait_fns_entries(fns@),
            tokens@ == insert_all(start, all.take(i as int)),
        decreases fns.len() - i,
    {
        let trait_fn = &fns[i];
        tokens.insert(
            to_ident_key(&trait_fn.name),
            typed(TypedAstToken::TypedTraitFn, trait_fn.span),
        );
        proof {
            assert(all.take(i + 1) =~= all.take(i as int).push(all[i as int]));
            lemma_insert_all_push(start, all.take(i as int), all[i as int]);
        }
        i += 1;
    }
    proof {
        assert(all.take(fns.len() as int) =~= all);
    }
}

fn insert_struct_fields(fields: &Vec<TypedStructField>, tokens: &mut TokenMap)
    ensures
        final(tokens)@ == insert_all(old(tokens)@, struct_fields_entries(fields@)),
{
    let ghost start = tokens@;
    let ghost all = struct_fields_entries(fields@);
    let mut i: usize = 0;
    while i < fields.len()
        invariant
            i <= fields.len(),
            all == struct_fields_entries(fields@),
            tokens@ == insert_all(start, all.take(i as int)),
        decreases fields.len() - i,
    {
        let field = &fields[i];
        tokens.insert(
            to_ident_key(&field.name),
            typed(TypedAstToken::TypedStructField, field.span),
        );
        proof {
            assert(all.take(i + 1) =~= all.take(i as int).push(all[i as int]));
            lemma_insert_all_push(start, all.take(i as int), all[i as int]);
        }
        i += 1;
    }
    proof {
        assert(all.take(fields.len() as int) =~= all);
    }
}

fn insert_enum_variants(variants: &Vec<TypedEnumVariant>, tokens: &mut TokenMap)
    ensures
        final(tokens)@ == insert_all(old(tokens)@, enum_variants_entries(variants@)),
{
    let ghost start = tokens@;
    let ghost all = enum_variants_entries(variants@);
    let mut i: usize = 0;
    while i < variants.len()
        invariant
            i <= variants.len(),
            all == enum_variants_entries(variants@),
            tokens@ == insert_all(start, all.take(i as int)),
        decreases variants.len() - i,
    {
        let variant = &variants[i];
        tokens.insert(
            to_ident_key(&variant.name),
            typed(TypedAstToken::TypedEnumVariant, variant.span),
        );
        proof {
            assert(all.take(i + 1) =~= all.take(i as int).push(all[i as int]));
            lemma_insert_all_push(start, all.take(i as int), all[i as int]);
        }
        i += 1;
    }
    proof {
        assert(all.take(variants.len() as int) =~= all);
    }
}

fn insert_storage_fields(fields: &Vec<TypedStorageField>, tokens: &mut TokenMap)
    ensures
        final(tokens)@ == insert_all(old(tokens)@, storage_fields_entries(fields@)),
{
    let ghost start = tokens@;
    let ghost all = storage_fields_entries(fields@);
    let mut i: usize = 0;
    while i < fields.len()
        invariant
            i <= fields.len(),
            all == storage_fields_entries(fields@),
            tokens@ == insert_all(start, all.take(i as int)),
        decreases fields.len() - i,
    {
        let field = &fields[i];
        tokens.insert(
            to_ident_key(&field.name),
            typed(TypedAstToken::TypedStorageField, field.span),
        );
        proof {
            assert(all.take(i + 1) =~= all.take(i as int).push(all[i as int]));
            lemma_insert_all_push(start, all.take(i as int), all[i as int]);
        }
        i += 1;
    }
    proof {
        assert(all.take(fields.len() as int) =~= all);
    }
}

fn insert_reassign_descriptors(
    fields: &Vec<TypeCheckedStorageReassignDescriptor>,
    tokens: &mut TokenMap,
)
    ensures
        final(tokens)@ == insert_all(old(tokens)@, reassign_descriptors_entries(fields@)),
{
    let ghost start = tokens@;
    let ghost all = reassign_descriptors_entries(fields@);
    let mut i: usize = 0;
    while i < fields.len()
        invariant
            i <= fields.len(),
            all == reassign_descriptors_entries(fields@),
            tokens@ == insert_all(start, all.take(i as int)),
        decreases fields.len() - i,
    {
        let field = &fields[i];
        tokens.insert(
            to_ident_key(&field.name),
            typed(TypedAstToken::TypeCheckedStorageReassignDescriptor, field.span),
        );
        proof {
            assert(all.take(i + 1) =~= all.take(i as int).push(all[i as int]));
            lemma_insert_all_push(start, all.take(i as int), all[i as int]);
        }
        i += 1;
    }
    proof {
        assert(all.take(fields.len() as int) =~= all);
    }
}

fn insert_storage_access(
    fields: &Vec<TypeCheckedStorageAccessDescriptor>,
    token: TokenType,
    tokens: &mut TokenMap,
)
    ensures
        final(tokens)@ == insert_all(old(tokens)@, storage_access_entries(fields@, token)),
{
    let ghost start = tokens@;
    let ghost all = storage_access_entries(fields@, token);
    let mut i: usize = 0;
    while i < fields.len()
        invariant
            i <= fields.len(),
            all == storage_access_entries(fields@, token),
            tokens@ == insert_all(start, all.take(i as int)),
        decreases fields.len() - i,
    {
        tokens.insert(to_ident_key(&fields[i].name), token);
        proof {
            assert(all.take(i + 1) =~= all.take(i as int).push(all[i as int]));
            lemma_insert_all_push(start, all.take(i as int), all[i as int]);
        }
        i += 1;
    }
    proof {
        assert(all.take(fields.len() as int) =~= all);
    }
}

/// Visits `node` and inserts the entries of every identifier in it, in the
/// order in which the walk meets them. An entry that is already under a key
/// is replaced.
pub fn traverse_node(node: &TypedAstNode, tokens: &mut TokenMap)
    ensures
        final(tokens)@ == insert_all(old(tokens)@, node_entries(*node)),
    decreases node,
{
    match &node.content {
        TypedAstNodeContent::ReturnStatement(return_statement) => {
            handle_expression(&return_statement.expr, tokens)
        },
        TypedAstNodeContent::Declaration(declaration) => handle_declaration(declaration, tokens),
        TypedAstNodeContent::Expression(expression) => handle_expression(expression, tokens),
        TypedAstNodeContent::ImplicitReturnExpression(expression) => {
            handle_expression(expression, tokens)
        },
        TypedAstNodeContent::WhileLoop(while_loop) => handle_while_loop(while_loop, tokens),
        TypedAstNodeContent::SideEffect => (),
    }
}

/// Visits the nodes of `nodes` in order.
pub fn traverse_nodes(nodes: &Vec<TypedAstNode>, tokens: &mut TokenMap)
    ensures
        final(tokens)@ == insert_all(old(tokens)@, nodes_entries(nodes@)),
    decreases nodes,
{
    let ghost start = tokens@;
    let mut i: usize = 0;
    while i < nodes.len()
        invariant
            i <= nodes.len(),
            tokens@ == insert_all(start, nodes_entries(nodes@.take(i as int))),
        decreases nodes.len() - i,
    {
        traverse_node(&nodes[i], tokens);
        proof {
            let next = nodes@.take(i + 1);
            assert(next.drop_last() =~= nodes@.take(i as int));
            assert(next.last() == nodes@[i as int]);
            lemma_insert_all_concat(
                start,
                nodes_entries(nodes@.take(i as int)),
                node_entries(nodes@[i as int]),
            );
        }
        i += 1;
    }
    proof {
        assert(nodes@.take(nodes.len() as int) =~= nodes@);
    }
}

fn handle_function(function: &TypedFunctionDeclaration, tokens: &mut TokenMap)
    ensures
        final(tokens)@ == insert_all(old(tokens)@, function_entries(*function)),
    decreases function,
{
    let ghost start = tokens@;
    let ghost name = (
        function.name.key(),
        typed_token(TypedAstToken::TypedFunctionDeclaration, function.span),
    );
    tokens.insert(
        to_ident_key(&function.name),
        typed(TypedAstToken::TypedFunctionDeclaration, function.span),
    );
    traverse_nodes(&function.body.contents, tokens);
    insert_parameters(&function.parameters, tokens);
    proof {
        let body = nodes_entries(function.body.contents@);
        lemma_insert_all_first(start, name, body);
        lemma_insert_all_concat(start, seq![name] + body, parameters_entries(function.parameters@));
    }
}

fn handle_methods(methods: &Vec<TypedFunctionDeclaration>, tokens: &mut TokenMap)
    ensures
        final(tokens)@ == insert_all(old(tokens)@, methods_entries(methods@)),
    decreases methods,
{
    let ghost start = tokens@;
    let mut i: usize = 0;
    while i < methods.len()
        invariant
            i <= methods.len(),
            tokens@ == insert_all(start, methods_entries(methods@.take(i as int))),
        decreases methods.len() - i,
    {
        handle_function(&methods[i], tokens);
        proof {
            let next = methods@.take(i + 1);
            assert(next.drop_last() =~= methods@.take(i as int));
            assert(next.last() == methods@[i as int]);
            lemma_insert_all_concat(
                start,
                methods_entries(methods@.take(i as int)),
                function_entries(methods@[i as int]),
            );
        }
        i += 1;
    }
    proof {
        assert(methods@.take(methods.len() as int) =~= methods@);
    }
}

/// Inserts the entries of a declaration: its own name, then what it
/// declares, part by part.
pub fn handle_declaration(declaration: &TypedDeclaration, tokens: &mut TokenMap)
    ensures
        final(tokens)@ == insert_all(old(tokens)@, declaration_entries(*declaration)),
    decreases declaration,
{
    let ghost start = tokens@;
    match declaration {
        TypedDeclaration::VariableDeclaration(variable) => {
            let token = typed(TypedAstToken::TypedDeclaration, variable.span);
            tokens.insert(to_ident_key(&variable.name), token);
            handle_expression(&variable.body, tokens);
            proof {
                lemma_insert_all_first(
                    start,
                    (variable.name.key(), token),
                    expression_entries(variable.body),
                );
            }
        },
        TypedDeclaration::ConstantDeclaration(const_decl) => {
            let token = typed(TypedAstToken::TypedDeclaration, const_decl.span);
            tokens.insert(to_ident_key(&const_decl.name), token);
            handle_expression(&const_decl.value, tokens);
            proof {
                lemma_insert_all_first(
                    start,
                    (const_decl.name.key(), token),
                    expression_entries(const_decl.value),
                );
            }
        },
        TypedDeclaration::FunctionDeclaration(func) => {
            handle_function(func, tokens);
        },
        TypedDeclaration::TraitDeclaration(trait_decl) => {
            let token = typed(TypedAstToken::TypedDeclaration, trait_decl.span);
            tokens.insert(to_ident_key(&trait_decl.name), token);
            insert_trait_fns(&trait_decl.interface_surface, tokens);
            proof {
                lemma_insert_all_first(
                    start,
                    (trait_decl.name.key(), token),
                    trait_fns_entries(trait_decl.interface_surface@),
                );
            }
        },
        TypedDeclaration::StructDeclaration(struct_dec) => {
            let token = typed(TypedAstToken::TypedDeclaration, struct_dec.span);
            tokens.insert(to_ident_key(&struct_dec.name), token);
            insert_struct_fields(&struct_dec.fields, tokens);
            proof {
                lemma_insert_all_first(
                    start,
                    (struct_dec.name.key(), token),
                    struct_fields_entries(struct_dec.fields@),
                );
            }
        },
        TypedDeclaration::EnumDeclaration(enum_decl) => {
            let token = typed(TypedAstToken::TypedDeclaration, enum_decl.span);
            tokens.insert(to_ident_key(&enum_decl.name), token);
            insert_enum_variants(&enum_decl.variants, tokens);
            proof {
                lemma_insert_all_first(
                    start,
                    (enum_decl.name.key(), token),
                    enum_variants_entries(enum_decl.variants@),
                );
            }
        },
        TypedDeclaration::Reassignment(reassignment) => {
            handle_expression(&reassignment.rhs, tokens);
            let token = typed(TypedAstToken::TypedReassignment, reassignment.span);
            tokens.insert(to_ident_key(&reassignment.lhs_base_name), token);
            proof {
                lemma_insert_all_push(
                    start,
                    expression_entries(reassignment.rhs),
                    (reassignment.lhs_base_name.key(), token),
                );
            }
        },
        TypedDeclaration::ImplTrait(impl_trait) => {
            let token = typed(TypedAstToken::TypedDeclaration, impl_trait.span);
            insert_call_path(&impl_trait.trait_name, token, tokens);
            handle_methods(&impl_trait.methods, tokens);
            proof {
                lemma_insert_all_concat(
                    start,
                    call_path_entries(impl_trait.trait_name, token),
                    methods_entries(impl_trait.methods@),
                );
            }
        },
        TypedDeclaration::AbiDeclaration(abi_decl) => {
            let token = typed(TypedAstToken::TypedDeclaration, abi_decl.span);
            tokens.insert(to_ident_key(&abi_decl.name), token);
            insert_trait_fns(&abi_decl.interface_surface, tokens);
            proof {
                lemma_insert_all_first(
                    start,
                    (abi_decl.name.key(), token),
                    trait_fns_entries(abi_decl.interface_surface@),
                );
            }
        },
        TypedDeclaration::GenericTypeForFunctionScope { name } => {
            let token = typed(TypedAstToken::TypedDeclaration, name.span);
            tokens.insert(to_ident_key(name), token);
            proof {
                lemma_insert_all_first(start, (name.key(), token), Seq::empty());
                assert(seq![(name.key(), token)] + Seq::empty() =~= seq![(name.key(), token)]);
            }
        },
        TypedDeclaration::ErrorRecovery => {},
        TypedDeclaration::StorageDeclaration(storage_decl) => {
            insert_storage_fields(&storage_decl.fields, tokens);
        },
        TypedDeclaration::StorageReassignment(storage_reassignment) => {
            insert_reassign_descriptors(&storage_reassignment.fields, tokens);
            handle_expression(&storage_reassignment.rhs, tokens);
            proof {
                lemma_insert_all_concat(
                    start,
                    reassign_descriptors_entries(storage_reassignment.fields@),
                    expression_entries(storage_reassignment.rhs),
                );
            }
        },
    }
}

fn handle_expressions(expressions: &Vec<TypedExpression>, tokens: &mut TokenMap)
    ensures
        final(tokens)@ == insert_all(old(tokens)@, expressions_entries(expressions@)),
    decreases expressions,
{
    let ghost start = tokens@;
    let mut i: usize = 0;
    while i < expressions.len()
        invariant
            i <= expressions.len(),
            tokens@ == insert_all(start, expressions_entries(expressions@.take(i as int))),
        decreases expressions.len() - i,
    {
        handle_expression(&expressions[i], tokens);
        proof {
            let next = expressions@.take(i + 1);
            assert(next.drop_last() =~= expressions@.take(i as int));
            assert(next.last() == expressions@[i as int]);
            lemma_insert_all_concat(
                start,
                expressions_entries(expressions@.take(i as int)),
                expression_entries(expressions@[i as int]),
            );
        }
        i += 1;
    }
    proof {
        assert(expressions@.take(expressions.len() as int) =~= expressions@);
    }
}

fn handle_arguments(arguments: &Vec<TypedArgument>, tokens: &mut TokenMap)
    ensures
        final(tokens)@ == insert_all(old(tokens)@, arguments_entries(arguments@)),
    decreases arguments,
{
    let ghost start = tokens@;
    let mut i: usize = 0;
    while i < arguments.len()
        invariant
            i <= arguments.len(),
            tokens@ == insert_all(start, arguments_entries(arguments@.take(i as int))),
        decreases arguments.len() - i,
    {
        let argument = &arguments[i];
        let ghost before = tokens@;
        let token = typed(TypedAstToken::TypedExpression, argument.value.span);
        tokens.insert(to_ident_key(&argument.name), token);
        handle_expression(&argument.value, tokens);
        proof {
            let next = arguments@.take(i + 1);
            let done = arguments_entries(arguments@.take(i as int));
            let name = (argument.name.key(), token);
            assert(next.drop_last() =~= arguments@.take(i as int));
            assert(next.last() == arguments@[i as int]);
            lemma_insert_all_push(start, done, name);
            assert(done.push(name) =~= done + seq![name]);
            lemma_insert_all_concat(start, done + seq![name], expression_entries(argument.value));
        }
        i += 1;
    }
    proof {
        assert(arguments@.take(arguments.len() as int) =~= arguments@);
    }
}

fn handle_struct_expression_fields(
    fields: &Vec<TypedStructExpressionField>,
    tokens: &mut TokenMap,
)
    ensures
        final(tokens)@ == insert_all(old(tokens)@, struct_expression_fields_entries(fields@)),
    decreases fields,
{
    let ghost start = tokens@;
    let mut i: usize = 0;
    while i < fields.len()
        invariant
            i <= fields.len(),
            tokens@ == insert_all(start, struct_expression_fields_entries(fields@.take(i as int))),
        decreases fields.len() - i,
    {
        let field = &fields[i];
        let token = typed(TypedAstToken::TypedExpression, field.value.span);
        tokens.insert(to_ident_key(&field.name), token);
        handle_expression(&field.value, tokens);
        proof {
            let next = fields@.take(i + 1);
            let done = struct_expression_fields_entries(fields@.take(i as int));
            let name = (field.name.key(), token);
            assert(next.drop_last() =~= fields@.take(i as int));
            assert(next.last() == fields@[i as int]);
            lemma_insert_all_push(start, done, name);
            assert(done.push(name) =~= done + seq![name]);
            lemma_insert_all_concat(start, done + seq![name], expression_entries(field.value));
        }
        i += 1;
    }
    proof {
        assert(fields@.take(fields.len() as int) =~= fields@);
    }
}

/// Inserts the entries of an expression and of the expressions in it.
pub fn handle_expression(expression: &TypedExpression, tokens: &mut TokenMap)
    ensures
        final(tokens)@ == insert_all(old(tokens)@, expression_entries(*expression)),
    decreases expression,
{
    let ghost start = tokens@;
    let token = typed(TypedAstToken::TypedExpression, expression.span);
    match &expression.expression {
        TypedExpressionVariant::Literal => {},
        TypedExpressionVariant::FunctionApplication {
            call_path,
            contract_call_params,
            arguments,
            function_body,
        } => {
            insert_call_path(call_path, token, tokens);
            handle_expressions(contract_call_params, tokens);
            handle_arguments(arguments, tokens);
            traverse_nodes(&function_body.contents, tokens);
            proof {
                let path = call_path_entries(*call_path, token);
                let params = expressions_entries(contract_call_params@);
                let args = arguments_entries(arguments@);
                lemma_insert_all_concat(start, path, params);
                lemma_insert_all_concat(start, path + params, args);
                lemma_insert_all_concat(
                    start,
                    path + params + args,
                    nodes_entries(function_body.contents@),
                );
            }
        },
        TypedExpressionVariant::LazyOperator { lhs, rhs } => {
            handle_expression(lhs, tokens);
            handle_expression(rhs, tokens);
            proof {
                lemma_insert_all_concat(start, expression_entries(**lhs), expression_entries(**rhs));
            }
        },
        TypedExpressionVariant::VariableExpression { name } => {
            tokens.insert(to_ident_key(name), token);
            proof {
                lemma_insert_all_first(start, (name.key(), token), Seq::empty());
                assert(seq![(name.key(), token)] + Seq::empty() =~= seq![(name.key(), token)]);
            }
        },
        TypedExpressionVariant::Tuple { fields } => {
            handle_expressions(fields, tokens);
        },
        TypedExpressionVariant::Array { contents } => {
            handle_expressions(contents, tokens);
        },
        TypedExpressionVariant::ArrayIndex { prefix, index } => {
            handle_expression(prefix, tokens);
            handle_expression(index, tokens);
            proof {
                lemma_insert_all_concat(
                    start,
                    expression_entries(**prefix),
                    expression_entries(**index),
                );
            }
        },
        TypedExpressionVariant::StructExpression { struct_name, fields } => {
            tokens.insert(to_ident_key(struct_name), token);
            handle_struct_expression_fields(fields, tokens);
            proof {
                lemma_insert_all_first(
                    start,
                    (struct_name.key(), token),
                    struct_expression_fields_entries(fields@),
                );
            }
        },
        TypedExpressionVariant::CodeBlock(code_block) => {
            traverse_nodes(&code_block.contents, tokens);
        },
        TypedExpressionVariant::FunctionParameter => {},
        TypedExpressionVariant::IfExp { condition, then_branch, else_branch } => {
            handle_expression(condition, tokens);
            handle_expression(then_branch, tokens);
            if let Some(otherwise) = else_branch {
                handle_expression(otherwise, tokens);
            }
            proof {
                let first = expression_entries(**condition);
                let second = expression_entries(**then_branch);
                let third = match else_branch {
                    Some(otherwise) => expression_entries(**otherwise),
                    None => Seq::empty(),
                };
                lemma_insert_all_concat(start, first, second);
                lemma_insert_all_concat(start, first + second, third);
            }
        },
        TypedExpressionVariant::AsmExpression => {},
        TypedExpressionVariant::StructFieldAccess { prefix, field_to_access } => {
            handle_expression(prefix, tokens);
            tokens.insert(to_ident_key(&field_to_access.name), token);
            proof {
                lemma_insert_all_push(
                    start,
                    expression_entries(**prefix),
                    (field_to_access.name.key(), token),
                );
            }
        },
        TypedExpressionVariant::TupleElemAccess { prefix } => {
            handle_expression(prefix, tokens);
        },
        TypedExpressionVariant::EnumInstantiation => {},
        TypedExpressionVariant::AbiCast { abi_name, address } => {
            insert_call_path(abi_name, token, tokens);
            handle_expression(address, tokens);
            proof {
                lemma_insert_all_concat(
                    start,
                    call_path_entries(*abi_name, token),
                    expression_entries(**address),
                );
            }
        },
        TypedExpressionVariant::StorageAccess(storage_access) => {
            insert_storage_access(&storage_access.fields, token, tokens);
        },
        TypedExpressionVariant::IntrinsicFunction(kind) => {
            handle_intrinsic_function(kind, tokens);
        },
        TypedExpressionVariant::AbiName => {},
        TypedExpressionVariant::EnumTag { exp } => {
            handle_expression(exp, tokens);
        },
        TypedExpressionVariant::UnsafeDowncast { exp, variant } => {
            handle_expression(exp, tokens);
            tokens.insert(to_ident_key(&variant.name), token);
            proof {
                lemma_insert_all_push(
                    start,
                    expression_entries(**exp),
                    (variant.name.key(), token),
                );
            }
        },
    }
}

/// Inserts the entries of the argument of an intrinsic function, if it has
/// one that is an expression.
pub fn handle_intrinsic_function(kind: &TypedIntrinsicFunctionKind, tokens: &mut TokenMap)
    ensures
        final(tokens)@ == insert_all(old(tokens)@, intrinsic_function_entries(*kind)),
    decreases kind,
{
    match kind {
        TypedIntrinsicFunctionKind::SizeOfVal { exp } => {
            handle_expression(exp, tokens);
        },
        TypedIntrinsicFunctionKind::SizeOfType => {},
        TypedIntrinsicFunctionKind::IsRefType => {},
        TypedIntrinsicFunctionKind::GetStorageKey => {},
    }
}

/// Inserts the entries of a loop: those of its condition, then those of its
/// body.
pub fn handle_while_loop(while_loop: &TypedWhileLoop, tokens: &mut TokenMap)
    ensures
        final(tokens)@ == insert_all(old(tokens)@, while_loop_entries(*while_loop)),
    decreases while_loop,
{
    let ghost start = tokens@;
    handle_expression(&while_loop.condition, tokens);
    traverse_nodes(&while_loop.body.contents, tokens);
    proof {
        lemma_insert_all_concat(
            start,
            expression_entries(while_loop.condition),
            nodes_entries(while_loop.body.contents@),
        );
    }
}

} // verus!
