//! Tuple expressions: their syntax tree and their parser.
//!
//! A tuple is written between parentheses. It is empty, or it has a first
//! expression, a comma, and then further expressions, each but the last
//! followed by a comma; the last may be followed by one too. Blanks may stand
//! before every expression, comma and closing parenthesis. An expression in a
//! tuple is a name, a number or a tuple.

use crate::ident::Span;
use vstd::prelude::*;

verus! {

/// Something between parentheses, with the span from the opening to the
/// closing one.
#[derive(Debug)]
pub struct Parens<T> {
    pub inner: T,
    pub span: Span,
}

/// A comma, with its span.
#[derive(Debug)]
pub struct CommaToken {
    pub span: Span,
}

/// Values with a separator after each, and possibly a last value without.
#[derive(Debug)]
pub struct Punctuated {
    pub value_separator_pairs: Vec<(Expr, CommaToken)>,
    pub final_value_opt: Option<Box<Expr>>,
}

/// An expression as it may stand in a tuple.
#[derive(Debug)]
pub enum Expr {
    Name { span: Span },
    Number { span: Span },
    Tuple(ExprTuple),
}

/// A tuple expression: what stands between its parentheses, and the span of
/// the whole.
#[derive(Debug)]
pub struct ExprTuple {
    pub elems: Parens<Option<(Box<Expr>, CommaToken, Punctuated)>>,
}

/// What an expression is in contracts.
pub enum ExprModel {
    Name { span: Span },
    Number { span: Span },
    Tuple(TupleModel),
}

/// What a tuple is in contracts: its elements, if it has any, and its span.
pub struct TupleModel {
    pub elems: Option<ElemsModel>,
    pub span: Span,
}

/// The elements of a tuple that is not empty: the first with its comma, the
/// further ones that have a comma, and the last one if it has none.
pub struct ElemsModel {
    pub head: Box<ExprModel>,
    pub head_token: Span,
    pub pairs: Seq<(ExprModel, Span)>,
    pub final_value: Option<Box<ExprModel>>,
}

/// What a list of values with their commas is in contracts.
pub open spec fn pairs_model(pairs: Seq<(Expr, CommaToken)>) -> Seq<(ExprModel, Span)>
    decreases pairs,
{
    if pairs.len() == 0 {
        Seq::empty()
    } else {
        pairs_model(pairs.drop_last()).push((pairs.last().0.model(), pairs.last().1.span))
    }
}

impl Expr {
    /// What the expression is in contracts.
    pub open spec fn model(&self) -> ExprModel
        decreases self,
    {
        match self {
            Expr::Name { span } => ExprModel::Name { span: *span },
            Expr::Number { span } => ExprModel::Number { span: *span },
            Expr::Tuple(tuple) => ExprModel::Tuple(tuple.model()),
        }
    }

    /// The span of the expression.
    pub fn span(&self) -> (span: Span)
        ensures
            span == self.model().span(),
    {
        match self {
            Expr::Name { span } => *span,
            Expr::Number { span } => *span,
            Expr::Tuple(tuple) => tuple.span(),
        }
    }
}

impl ExprModel {
    /// The span of the expression.
    pub open spec fn span(&self) -> Span {
        match *self {
            ExprModel::Name { span } => span,
            ExprModel::Number { span } => span,
            ExprModel::Tuple(tuple) => tuple.span,
        }
    }
}

impl ExprTuple {
    /// What the tuple is in contracts.
    pub open spec fn model(&self) -> TupleModel
        decreases self,
    {
        TupleModel {
            elems: match self.elems.inner {
                Some((head, head_token, tail)) => Some(
                    ElemsModel {
                        head: Box::new(head.model()),
                        head_token: head_token.span,
                        pairs: pairs_model(tail.value_separator_pairs@),
                        final_value: match tail.final_value_opt {
                            Some(last) => Some(Box::new(last.model())),
                            None => None,
                        },
                    },
                ),
                None => None,
            },
            span: self.elems.span,
        }
    }

    /// The span of the tuple, from its opening to its closing parenthesis.
    pub fn span(&self) -> (span: Span)
        ensures
            span == self.model().span,
    {
        self.elems.span
    }
}

/// The classes of bytes that the parser scans runs of.
#[derive(Clone, Copy, Debug, PartialEq, Eq, Structural)]
pub enum ByteClass {
    /// Space, tab, line feed and carriage return.
    Blank,
    /// Letters, digits and the underscore.
    NamePart,
    /// Decimal digits.
    Digit,
}

/// Whether `byte` is a decimal digit.
pub open spec fn is_digit(byte: u8) -> bool {
    0x30 <= byte <= 0x39
}

/// Whether a name can begin with `byte`: a letter or the underscore.
pub open spec fn is_name_start(byte: u8) -> bool {
    (0x41 <= byte <= 0x5a) || (0x61 <= byte <= 0x7a) || byte == 0x5f
}

/// Whether `byte` belongs to `class`.
pub open spec fn in_class(class: ByteClass, byte: u8) -> bool {
    match class {
        ByteClass::Blank => byte == 0x20 || byte == 0x09 || byte == 0x0a || byte == 0x0d,
        ByteClass::NamePart => is_name_start(byte) || is_digit(byte),
        ByteClass::Digit => is_digit(byte),
    }
}

/// The end of the run of bytes of `class` that begins at `pos`: the first
/// position from `pos` on that holds no byte of the class.
pub open spec fn run_end(input: Seq<u8>, pos: int, class: ByteClass) -> int
    decreases input.len() - pos,
{
    if 0 <= pos < input.len() && in_class(class, input[pos]) {
        run_end(input, pos + 1, class)
    } else {
        pos
    }
}

/// A run ends at or after its beginning and within the input; every byte of
/// it is of the class, and the byte at its end, if there is one, is not.
pub proof fn lemma_run_end_bounds(input: Seq<u8>, pos: int, class: ByteClass)
    requires
        0 <= pos <= input.len(),
    ensures
        pos <= run_end(input, pos, class) <= input.len(),
        forall|i: int| pos <= i < run_end(input, pos, class) ==> in_class(class, input[i]),
        run_end(input, pos, class) < input.len() ==> !in_class(
            class,
            input[run_end(input, pos, class)],
        ),
    decreases input.len() - pos,
{
    if pos < input.len() && in_class(class, input[pos]) {
        lemma_run_end_bounds(input, pos + 1, class);
    }
}

/// The span of `start..end` in the source `source_id`.
pub open spec fn span_of(start: int, end: int, source_id: u64) -> Span {
    Span { start: start as usize, end: end as usize, source_id }
}

/// The expression that begins at `pos`, with the position after it: a name
/// where a name can begin, a number where a digit stands, else a tuple.
pub open spec fn parse_expr(input: Seq<u8>, pos: int, source_id: u64) -> Option<(ExprModel, int)>
    decreases input.len() - pos, 1int,
{
    if 0 <= pos < input.len() && is_name_start(input[pos]) {
        let end = run_end(input, pos + 1, ByteClass::NamePart);
        Some((ExprModel::Name { span: span_of(pos, end, source_id) }, end))
    } else if 0 <= pos < input.len() && is_digit(input[pos]) {
        let end = run_end(input, pos + 1, ByteClass::Digit);
        Some((ExprModel::Number { span: span_of(pos, end, source_id) }, end))
    } else {
        match parse_tuple(input, pos, source_id) {
            Some((tuple, end)) => Some((ExprModel::Tuple(tuple), end)),
            None => None,
        }
    }
}

/// An expression after blanks, then a comma after blanks, from `pos` on; with
/// the position after the comma.
pub open spec fn parse_pair(input: Seq<u8>, pos: int, source_id: u64) -> Option<
    ((ExprModel, Span), int),
>
    decreases input.len() - pos, 2int,
{
    if 0 <= pos <= input.len() {
        let at = run_end(input, pos, ByteClass::Blank);
        proof {
            lemma_run_end_bounds(input, pos, ByteClass::Blank);
        }
        match parse_expr(input, at, source_id) {
            Some((value, after)) => {
                let comma = run_end(input, after, ByteClass::Blank);
                if 0 <= comma < input.len() && input[comma] == 0x2c {
                    Some(((value, span_of(comma, comma + 1, source_id)), comma + 1))
                } else {
                    None
                }
            },
            None => None,
        }
    } else {
        None
    }
}

/// As many pairs of an expression and a comma as follow one another from
/// `pos` on, with the position after the last.
pub open spec fn parse_pairs(input: Seq<u8>, pos: int, source_id: u64) -> (Seq<(ExprModel, Span)>, int)
    decreases input.len() - pos, 3int,
{
    match parse_pair(input, pos, source_id) {
        Some((pair, next)) => if pos < next <= input.len() {
            let rest = parse_pairs(input, next, source_id);
            (seq![pair] + rest.0, rest.1)
        } else {
            (Seq::empty(), pos)
        },
        None => (Seq::empty(), pos),
    }
}

/// The elements of a tuple that is not empty, from `pos` on: the first
/// expression and its comma, the pairs that follow, and a last expression if
/// one follows them; with the position after the last of these.
pub open spec fn parse_elems(input: Seq<u8>, pos: int, source_id: u64) -> Option<(ElemsModel, int)>
    decreases input.len() - pos, 4int,
{
    match parse_pair(input, pos, source_id) {
        Some((first, next)) => if 0 <= pos < next <= input.len() {
            let pairs = parse_pairs(input, next, source_id);
            let last = if next <= pairs.1 <= input.len() {
                proof {
                    lemma_run_end_bounds(input, pairs.1, ByteClass::Blank);
                }
                parse_expr(input, run_end(input, pairs.1, ByteClass::Blank), source_id)
            } else {
                None
            };
            Some(
                (
                    ElemsModel {
                        head: Box::new(first.0),
                        head_token: first.1,
                        pairs: pairs.0,
                        final_value: match last {
                            Some((value, _)) => Some(Box::new(value)),
                            None => None,
                        },
                    },
                    match last {
                        Some((_, end)) => end,
                        None => pairs.1,
                    },
                ),
            )
        } else {
            None
        },
        None => None,
    }
}

/// The tuple that begins at `pos`, with the position after its closing
/// parenthesis.
pub open spec fn parse_tuple(input: Seq<u8>, pos: int, source_id: u64) -> Option<(TupleModel, int)>
    decreases input.len() - pos, 0int,
{
    if 0 <= pos < input.len() && input[pos] == 0x28 {
        let elems = parse_elems(input, pos + 1, source_id);
        let after = match elems {
            Some((_, end)) => end,
            None => pos + 1,
        };
        let close = run_end(input, after, ByteClass::Blank);
        if 0 <= close < input.len() && input[close] == 0x29 {
            Some(
                (
                    TupleModel {
                        elems: match elems {
                            Some((found, _)) => Some(found),
                            None => None,
                        },
                        span: span_of(pos, close + 1, source_id),
                    },
                    close + 1,
                ),
            )
        } else {
            None
        }
    } else {
        None
    }
}

fn byte_in_class(class: ByteClass, byte: u8) -> (res: bool)
    ensures
        res == in_class(class, byte),
{
    let letter = (0x41 <= byte && byte <= 0x5a) || (0x61 <= byte && byte <= 0x7a) || byte == 0x5f;
    let digit = 0x30 <= byte && byte <= 0x39;
    match class {
        ByteClass::Blank => byte == 0x20 || byte == 0x09 || byte == 0x0a || byte == 0x0d,
        ByteClass::NamePart => letter || digit,
        ByteClass::Digit => digit,
    }
}

fn scan(input: &[u8], pos: usize, class: ByteClass) -> (end: usize)
    requires
        pos <= input@.len(),
    ensures
        end == run_end(input@, pos as int, class),
        pos <= end <= input@.len(),
{
    let mut i: usize = pos;
    while i < input.len() && byte_in_class(class, input[i])
        invariant
            pos <= i <= input@.len(),
            run_end(input@, pos as int, class) == run_end(input@, i as int, class),
        decreases input@.len() - i,
    {
        i += 1;
    }
    i
}

fn span_between(start: usize, end: usize, source_id: u64) -> (span: Span)
    ensures
        span == span_of(start as int, end as int, source_id),
{
    Span { start, end, source_id }
}

/// Parses the expression that begins at `pos`. Gives the expression and the
/// position after it, or `None` where no expression begins there.
pub fn expr(input: &[u8], pos: usize, source_id: u64) -> (res: Option<(Expr, usize)>)
    ensures
        match res {
            Some((found, end)) => parse_expr(input@, pos as int, source_id) == Some(
                (found.model(), end as int),
            ) && pos < end <= input@.len(),
            None => parse_expr(input@, pos as int, source_id) is None,
        },
    decreases input@.len() - pos, 1int,
{
    if pos < input.len() && byte_in_class(ByteClass::NamePart, input[pos]) && !byte_in_class(
        ByteClass::Digit,
        input[pos],
    ) {
        let end = scan(input, pos + 1, ByteClass::NamePart);
        Some((Expr::Name { span: span_between(pos, end, source_id) }, end))
    } else if pos < input.len() && byte_in_class(ByteClass::Digit, input[pos]) {
        let end = scan(input, pos + 1, ByteClass::Digit);
        Some((Expr::Number { span: span_between(pos, end, source_id) }, end))
    } else {
        match expr_tuple(input, pos, source_id) {
            Some((tuple, end)) => Some((Expr::Tuple(tuple), end)),
            None => None,
        }
    }
}

/// What stands where a pair of an expression and a comma is looked for.
enum PairOutcome {
    /// An expression with its comma, and the position after the comma.
    Pair(Expr, CommaToken, usize),
    /// An expression that no comma follows, and the position after it.
    Lone(Expr, usize),
    /// No expression.
    Nothing,
}

fn pair(input: &[u8], pos: usize, source_id: u64) -> (res: PairOutcome)
    requires
        pos <= input@.len(),
    ensures
        match res {
            PairOutcome::Pair(value, comma, next) => parse_pair(input@, pos as int, source_id)
                == Some(((value.model(), comma.span), next as int)) && pos < next <= input@.len(),
            PairOutcome::Lone(value, end) => parse_pair(input@, pos as int, source_id) is None
                && parse_expr(
                input@,
                run_end(input@, pos as int, ByteClass::Blank),
                source_id,
            ) == Some((value.model(), end as int)) && pos < end <= input@.len(),
            PairOutcome::Nothing => parse_pair(input@, pos as int, source_id) is None
                && parse_expr(
                input@,
                run_end(input@, pos as int, ByteClass::Blank),
                source_id,
            ) is None,
        },
    decreases input@.len() - pos, 2int,
{
    let at = scan(input, pos, ByteClass::Blank);
    match expr(input, at, source_id) {
        Some((value, after)) => {
            let comma = scan(input, after, ByteClass::Blank);
            if comma < input.len() && input[comma] == 0x2c {
                PairOutcome::Pair(
                    value,
                    CommaToken { span: span_between(comma, comma + 1, source_id) },
                    comma + 1,
                )
            } else {
                PairOutcome::Lone(value, after)
            }
        },
        None => PairOutcome::Nothing,
    }
}

fn elems(input: &[u8], pos: usize, source_id: u64) -> (res: Option<
    ((Box<Expr>, CommaToken, Punctuated), usize),
>)
    requires
        pos <= input@.len(),
    ensures
        match res {
            Some((found, end)) => parse_elems(input@, pos as int, source_id) == Some(
                (
                    ElemsModel {
                        head: Box::new(found.0.model()),
                        head_token: found.1.span,
                        pairs: pairs_model(found.2.value_separator_pairs@),
                        final_value: match found.2.final_value_opt {
                            Some(last) => Some(Box::new(last.model())),
                            None => None,
                        },
                    },
                    end as int,
                ),
            ) && pos < end <= input@.len(),
            None => parse_elems(input@, pos as int, source_id) is None,
        },
    decreases input@.len() - pos, 4int,
{
    let (head, head_token, next) = match pair(input, pos, source_id) {
        PairOutcome::Pair(value, comma, next) => (value, comma, next),
        PairOutcome::Lone(_, _) => {
            return None;
        },
        PairOutcome::Nothing => {
            return None;
        },
    };
    let mut pairs: Vec<(Expr, CommaToken)> = Vec::new();
    let mut last: Option<Box<Expr>> = None;
    let mut cur: usize = next;
    let mut end: usize = next;
    let mut more = true;
    while more
        invariant
            pos < next <= cur <= input@.len(),
            more ==> parse_pairs(input@, next as int, source_id) == (
                pairs_model(pairs@) + parse_pairs(input@, cur as int, source_id).0,
                parse_pairs(input@, cur as int, source_id).1,
            ),
            more ==> last is None,
            !more ==> parse_pairs(input@, next as int, source_id) == (
                pairs_model(pairs@),
                cur as int,
            ),
            !more ==> cur <= end <= input@.len(),
            !more ==> (match last {
                Some(value) => parse_expr(
                    input@,
                    run_end(input@, cur as int, ByteClass::Blank),
                    source_id,
                ) == Some((value.model(), end as int)),
                None => end == cur && parse_expr(
                    input@,
                    run_end(input@, cur as int, ByteClass::Blank),
                    source_id,
                ) is None,
            }),
        decreases input@.len() - cur + (if more { 1int } else { 0int }),
    {
        let ghost before = pairs@;
        let ghost from = cur as int;
        match pair(input, cur, source_id) {
            PairOutcome::Pair(value, comma, after) => {
                pairs.push((value, comma));
                cur = after;
                proof {
                    let added = (value.model(), comma.span);
                    let rest = parse_pairs(input@, after as int, source_id);
                    assert(pairs@.drop_last() =~= before);
                    assert(pairs_model(pairs@) == pairs_model(before).push(added));
                    assert(parse_pairs(input@, from, source_id) == (seq![added] + rest.0, rest.1));
                    assert(pairs_model(before) + (seq![added] + rest.0) =~= pairs_model(pairs@)
                        + rest.0);
                }
            },
            PairOutcome::Lone(value, after) => {
                last = Some(Box::new(value));
                end = after;
                more = false;
                proof {
                    lemma_run_end_bounds(input@, from, ByteClass::Blank);
                    assert(pairs_model(before) + Seq::empty() =~= pairs_model(before));
                }
            },
            PairOutcome::Nothing => {
                end = cur;
                more = false;
                proof {
                    assert(pairs_model(before) + Seq::empty() =~= pairs_model(before));
                }
            },
        }
    }
    Some(
        (
            (
                Box::new(head),
                head_token,
                Punctuated { value_separator_pairs: pairs, final_value_opt: last },
            ),
            end,
        ),
    )
}

/// Parses the tuple that begins at `pos`. Gives the tuple and the position
/// after its closing parenthesis, or `None` where no tuple begins there. The
/// spans in the tuple are positions in `input`, in the source `source_id`.
pub fn expr_tuple(input: &[u8], pos: usize, source_id: u64) -> (res: Option<(ExprTuple, usize)>)
    ensures
        match res {
            Some((tuple, end)) => parse_tuple(input@, pos as int, source_id) == Some(
                (tuple.model(), end as int),
            ) && pos < end <= input@.len() && tuple.model().span == span_of(
                pos as int,
                end as int,
                source_id,
            ),
            None => parse_tuple(input@, pos as int, source_id) is None,
        },
    decreases input@.len() - pos, 0int,
{
    if pos >= input.len() || input[pos] != 0x28 {
        return None;
    }
    let (inner, after) = match elems(input, pos + 1, source_id) {
        Some((found, end)) => (Some(found), end),
        None => (None, pos + 1),
    };
    let close = scan(input, after, ByteClass::Blank);
    if close < input.len() && input[close] == 0x29 {
        Some(
            (
                ExprTuple {
                    elems: Parens { inner, span: span_between(pos, close + 1, source_id) },
                },
                close + 1,
            ),
        )
    } else {
        None
    }
}

} // verus!
