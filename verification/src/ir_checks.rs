//! Checks of the IR of a test file against directives that are written in
//! the file itself: where in the file the directives for the IR and those for
//! the assembly stand, which test files a run takes, and what a run of the
//! directives amounts to.

use vstd::prelude::*;

verus! {

/// A compiled regular expression. The library hands it on and never looks
/// inside.
#[verifier::external_type_specification]
#[verifier::external_body]
pub struct ExRegex(regex::Regex);

/// Calls `regex::Regex::is_match`. Nothing is stated of what it answers.
#[verifier::external_body]
fn regex_is_match(filter: &regex::Regex, text: &str) -> (res: bool) {
    filter.is_match(text)
}

/// What `filecheck` says of the directives in the text `directives`: whether
/// the checker built from them is empty, or what is wrong with a directive.
pub uninterp spec fn filecheck_is_empty(directives: Seq<char>) -> Result<bool, Seq<char>>;

/// What the checker built from the directives in `directives` returns when it
/// explains the text `text`: whether the text matches and the explanation, or
/// what is wrong with a directive.
pub uninterp spec fn filecheck_explain(directives: Seq<char>, text: Seq<char>) -> Result<
    (bool, Seq<char>),
    Seq<char>,
>;

/// The text of what was asked of the directives alone.
pub open spec fn state_text(state: Result<bool, String>) -> Result<bool, Seq<char>> {
    match state {
        Ok(empty) => Ok(empty),
        Err(reason) => Err(reason@),
    }
}

/// The text of an explanation.
pub open spec fn explanation_text(explained: Result<(bool, String), String>) -> Result<
    (bool, Seq<char>),
    Seq<char>,
> {
    match explained {
        Ok((matched, report)) => Ok((matched, report@)),
        Err(reason) => Err(reason@),
    }
}

/// Whether the explainer takes the text: it is not empty, and its last
/// character is one of ASCII.
pub open spec fn explainable(text: Seq<char>) -> bool {
    text.len() > 0 && text.last() <= '\u{7f}'
}

/// Builds a checker from the directives in `directives` with
/// `filecheck::CheckerBuilder::text` and asks `filecheck::Checker::is_empty`.
/// The contract names the answer; a directive that is wrong in itself comes
/// back as the text of the builder's error.
#[verifier::external_body]
fn directives_state(directives: &str) -> (res: Result<bool, String>)
    ensures
        state_text(res) == filecheck_is_empty(directives@),
{
    match filecheck::CheckerBuilder::new().text(directives) {
        Ok(builder) => Ok(builder.finish().is_empty()),
        Err(error) => Err(error.to_string()),
    }
}

/// Builds a checker from the directives in `directives` and calls
/// `filecheck::Checker::explain` on `text`, without variables. The contract
/// names the result. The explainer lays the text out line by line and cuts
/// the last line one byte before its end, and it counts back from the end of
/// the first line: the precondition keeps away the texts on which that cut
/// falls into a character or there is no first line.
#[verifier::external_body]
fn explain(directives: &str, text: &str) -> (res: Result<(bool, String), String>)
    requires
        explainable(text@),
    ensures
        explanation_text(res) == filecheck_explain(directives@, text@),
{
    match filecheck::CheckerBuilder::new().text(directives) {
        Ok(builder) => match builder.finish().explain(text, filecheck::NO_VARIABLES) {
            Ok(explained) => Ok(explained),
            Err(error) => Err(error.to_string()),
        },
        Err(error) => Err(error.to_string()),
    }
}

/// The bytes of `::check-ir::`, the tag that the directives for the IR begin
/// at.
pub open spec fn ir_tag() -> Seq<u8> {
    seq![0x3au8, 0x3a, 0x63, 0x68, 0x65, 0x63, 0x6b, 0x2d, 0x69, 0x72, 0x3a, 0x3a]
}

/// The bytes of `::check-asm::`, the tag that the directives for the
/// assembly begin at.
pub open spec fn asm_tag() -> Seq<u8> {
    seq![0x3au8, 0x3a, 0x63, 0x68, 0x65, 0x63, 0x6b, 0x2d, 0x61, 0x73, 0x6d, 0x3a, 0x3a]
}

/// Whether `needle` stands in `haystack` at `at`.
pub open spec fn occurs_at(haystack: Seq<u8>, needle: Seq<u8>, at: int) -> bool {
    0 <= at && at + needle.len() <= haystack.len() && haystack.subrange(
        at,
        at + needle.len(),
    ) == needle
}

/// The first place from `from` on at which `needle` stands in `haystack`.
pub open spec fn first_occurrence_from(haystack: Seq<u8>, needle: Seq<u8>, from: int) -> Option<int>
    decreases haystack.len() - from,
{
    if from < 0 || from + needle.len() > haystack.len() {
        None
    } else if occurs_at(haystack, needle, from) {
        Some(from)
    } else {
        proof {
            assert(needle.len() == 0 ==> haystack.subrange(from, from) =~= needle);
        }
        first_occurrence_from(haystack, needle, from + 1)
    }
}

/// The first place at which `needle` stands in `haystack`.
pub open spec fn first_occurrence(haystack: Seq<u8>, needle: Seq<u8>) -> Option<int> {
    first_occurrence_from(haystack, needle, 0)
}

/// `first_occurrence_from` gives a place at which the needle stands and
/// before which, from `from` on, it does not; and gives none only where it
/// stands nowhere from `from` on.
pub proof fn lemma_first_occurrence_is_least(haystack: Seq<u8>, needle: Seq<u8>, from: int)
    requires
        0 <= from,
    ensures
        match first_occurrence_from(haystack, needle, from) {
            Some(at) => from <= at && occurs_at(haystack, needle, at) && forall|j: int|
                from <= j < at ==> !occurs_at(haystack, needle, j),
            None => forall|j: int| from <= j ==> !occurs_at(haystack, needle, j),
        },
    decreases haystack.len() - from,
{
    if from + needle.len() > haystack.len() {
    } else if occurs_at(haystack, needle, from) {
    } else {
        assert(needle.len() == 0 ==> haystack.subrange(from, from) =~= needle);
        lemma_first_occurrence_is_least(haystack, needle, from + 1);
    }
}

fn matches_at(haystack: &[u8], needle: &[u8], at: usize) -> (res: bool)
    requires
        at + needle@.len() <= haystack@.len(),
    ensures
        res == occurs_at(haystack@, needle@, at as int),
{
    let total = haystack.len();
    let mut i: usize = 0;
    while i < needle.len()
        invariant
            i <= needle@.len(),
            at + needle@.len() <= haystack@.len() == total,
            forall|j: int| 0 <= j < i ==> haystack@[at + j] == needle@[j],
        decreases needle@.len() - i,
    {
        if haystack[at + i] != needle[i] {
            proof {
                let part = haystack@.subrange(at as int, at + needle@.len());
                assert(part[i as int] == haystack@[at + i]);
            }
            return false;
        }
        i += 1;
    }
    proof {
        assert(haystack@.subrange(at as int, at + needle@.len()) =~= needle@);
    }
    true
}

/// The first place at which `needle` stands in `haystack`, if it stands in
/// it at all. An empty needle stands at the beginning.
pub fn find(haystack: &[u8], needle: &[u8]) -> (res: Option<usize>)
    ensures
        match res {
            Some(at) => first_occurrence(haystack@, needle@) == Some(at as int),
            None => first_occurrence(haystack@, needle@) is None,
        },
{
    if needle.len() > haystack.len() {
        return None;
    }
    let last = haystack.len() - needle.len();
    let mut at: usize = 0;
    while at < last
        invariant
            at <= last,
            last == haystack@.len() - needle@.len(),
            first_occurrence(haystack@, needle@) == first_occurrence_from(
                haystack@,
                needle@,
                at as int,
            ),
        decreases last - at,
    {
        if matches_at(haystack, needle, at) {
            return Some(at);
        }
        at += 1;
    }
    if matches_at(haystack, needle, at) {
        Some(at)
    } else {
        proof {
            assert(first_occurrence_from(haystack@, needle@, at + 1) is None);
        }
        None
    }
}

/// Where the directives of a test file stand, as byte ranges of the file.
#[derive(Clone, Copy, Debug)]
pub struct CheckSections {
    pub ir_begin: usize,
    pub ir_end: usize,
    /// The range of the directives for the assembly, if the file has any.
    pub assembly: Option<(usize, usize)>,
}

/// Where the directives of the file `input` stand. Those for the IR begin at
/// the IR tag, or at the beginning of a file without one; those for the
/// assembly begin at the assembly tag, if there is one. Each part ends where
/// the other begins, if that is after its own beginning, else at the end of
/// the file.
pub open spec fn sections_of(input: Seq<u8>) -> CheckSections {
    let ir_begin = match first_occurrence(input, ir_tag()) {
        Some(at) => at,
        None => 0,
    };
    let asm_begin = first_occurrence(input, asm_tag());
    CheckSections {
        ir_begin: ir_begin as usize,
        ir_end: (match asm_begin {
            Some(at) => if at > ir_begin {
                at
            } else {
                input.len() as int
            },
            None => input.len() as int,
        }) as usize,
        assembly: match asm_begin {
            Some(at) => Some(
                (
                    at as usize,
                    (if ir_begin > at {
                        ir_begin
                    } else {
                        input.len() as int
                    }) as usize,
                ),
            ),
            None => None,
        },
    }
}

/// Finds where the directives of the file `input` stand. Both ranges lie
/// within the file.
pub fn check_sections(input: &[u8]) -> (sections: CheckSections)
    ensures
        sections == sections_of(input@),
        sections.ir_begin <= sections.ir_end <= input@.len(),
        sections.assembly matches Some(range) ==> range.0 <= range.1 <= input@.len(),
{
    let ir: [u8; 12] = [0x3a, 0x3a, 0x63, 0x68, 0x65, 0x63, 0x6b, 0x2d, 0x69, 0x72, 0x3a, 0x3a];
    let assembly: [u8; 13] = [
        0x3a,
        0x3a,
        0x63,
        0x68,
        0x65,
        0x63,
        0x6b,
        0x2d,
        0x61,
        0x73,
        0x6d,
        0x3a,
        0x3a,
    ];
    proof {
        assert(ir@ =~= ir_tag());
        assert(assembly@ =~= asm_tag());
        lemma_first_occurrence_is_least(input@, ir_tag(), 0);
        lemma_first_occurrence_is_least(input@, asm_tag(), 0);
    }
    let ir_begin = match find(input, ir.as_slice()) {
        Some(at) => at,
        None => 0,
    };
    let asm_begin = find(input, assembly.as_slice());
    let ir_end = match asm_begin {
        Some(at) => if at > ir_begin {
            at
        } else {
            input.len()
        },
        None => input.len(),
    };
    let asm_range = match asm_begin {
        Some(at) => Some(
            (
                at,
                if ir_begin > at {
                    ir_begin
                } else {
                    input.len()
                },
            ),
        ),
        None => None,
    };
    CheckSections { ir_begin, ir_end, assembly: asm_range }
}

/// Whether a run takes a test file, given what the filter answered for its
/// path: `None` where no filter was asked, because none is given or because
/// the path is no text. A file that no filter was asked about is taken; of
/// the others, those that the filter matches.
pub fn selected_by(answer: Option<bool>) -> (res: bool)
    ensures
        res == (answer != Some(false)),
{
    match answer {
        Some(matched) => matched,
        None => true,
    }
}

/// Whether a run takes the test file at `path`. It takes every file where no
/// filter is given, and every file whose path is no text; of the others,
/// those that the filter matches.
pub fn is_selected(path: Option<&str>, filter: Option<&regex::Regex>) -> (res: bool)
    ensures
        (path is None || filter is None) ==> res,
{
    let answer = match path {
        Some(text) => match filter {
            Some(pattern) => Some(regex_is_match(pattern, text)),
            None => None,
        },
        None => None,
    };
    selected_by(answer)
}

/// Whether a directory entry is a test file: a regular file with the
/// extension `sw`.
pub fn is_test_file(is_file: bool, extension: Option<&String>) -> (res: bool)
    ensures
        res == (is_file && extension is Some && extension->Some_0@ == "sw"@),
{
    match extension {
        Some(text) => is_file && *text == "sw".to_owned(),
        None => false,
    }
}

/// Why the IR of a test file does not pass.
#[derive(Debug)]
pub enum IrCheckError {
    /// The file holds no directive for the IR.
    MissingDirectives,
    /// The directives do not match the IR; the text explains where.
    CheckFailed(String),
    /// A directive is wrong in itself; the text says how.
    DirectiveError(String),
    /// The IR is empty or ends in a character beyond ASCII, so that the
    /// directives cannot be explained on it.
    OutputNotExplainable,
}

/// What an error of the check is in contracts.
pub enum IrCheckErrorView {
    MissingDirectives,
    CheckFailed(Seq<char>),
    DirectiveError(Seq<char>),
    OutputNotExplainable,
}

impl View for IrCheckError {
    type V = IrCheckErrorView;

    open spec fn view(&self) -> IrCheckErrorView {
        match *self {
            IrCheckError::MissingDirectives => IrCheckErrorView::MissingDirectives,
            IrCheckError::CheckFailed(report) => IrCheckErrorView::CheckFailed(report@),
            IrCheckError::DirectiveError(reason) => IrCheckErrorView::DirectiveError(reason@),
            IrCheckError::OutputNotExplainable => IrCheckErrorView::OutputNotExplainable,
        }
    }
}

/// What the check of an IR amounts to in contracts.
pub open spec fn outcome_view(outcome: Result<(), IrCheckError>) -> Result<(), IrCheckErrorView> {
    match outcome {
        Ok(()) => Ok(()),
        Err(error) => Err(error@),
    }
}

/// What the check of the IR text `ir_output` against the directives in
/// `directives` gives. A directive that is wrong in itself is reported
/// first; then the lack of any directive; then an IR that cannot be
/// explained; and then what the explanation says: the IR passes where it
/// matches, and fails with the explanation where it does not.
pub open spec fn ir_check_outcome(directives: Seq<char>, ir_output: Seq<char>) -> Result<
    (),
    IrCheckErrorView,
> {
    match filecheck_is_empty(directives) {
        Err(reason) => Err(IrCheckErrorView::DirectiveError(reason)),
        Ok(true) => Err(IrCheckErrorView::MissingDirectives),
        Ok(false) => if !explainable(ir_output) {
            Err(IrCheckErrorView::OutputNotExplainable)
        } else {
            match filecheck_explain(directives, ir_output) {
                Ok((true, _)) => Ok(()),
                Ok((false, report)) => Err(IrCheckErrorView::CheckFailed(report)),
                Err(reason) => Err(IrCheckErrorView::DirectiveError(reason)),
            }
        },
    }
}

/// What a run of the directives amounts to. `has_directives` says whether
/// the file holds any directive for the IR; `explained` is what the run
/// returned: whether the IR matched and the explanation, or what is wrong
/// with a directive.
pub fn ir_verdict(has_directives: bool, explained: Result<(bool, String), String>) -> (res: Result<
    (),
    IrCheckError,
>)
    ensures
        !has_directives ==> res == Err::<(), IrCheckError>(IrCheckError::MissingDirectives),
        has_directives ==> res == (match explained {
            Ok((true, _)) => Ok::<(), IrCheckError>(()),
            Ok((false, report)) => Err(IrCheckError::CheckFailed(report)),
            Err(reason) => Err(IrCheckError::DirectiveError(reason)),
        }),
{
    if !has_directives {
        return Err(IrCheckError::MissingDirectives);
    }
    match explained {
        Ok((true, _)) => Ok(()),
        Ok((false, report)) => Err(IrCheckError::CheckFailed(report)),
        Err(reason) => Err(IrCheckError::DirectiveError(reason)),
    }
}

/// What is wrong with the directives in `directives`, if one of them is
/// wrong in itself.
pub fn directives_error(directives: &str) -> (res: Option<String>)
    ensures
        match res {
            Some(reason) => filecheck_is_empty(directives@) == Err::<bool, Seq<char>>(reason@),
            None => filecheck_is_empty(directives@) is Ok,
        },
{
    match directives_state(directives) {
        Ok(_) => None,
        Err(reason) => Some(reason),
    }
}

/// Checks the IR text `ir_output` against the directives in `directives`.
pub fn check_ir(directives: &str, ir_output: &str) -> (res: Result<(), IrCheckError>)
    ensures
        outcome_view(res) == ir_check_outcome(directives@, ir_output@),
{
    match directives_state(directives) {
        Err(reason) => Err(IrCheckError::DirectiveError(reason)),
        Ok(true) => Err(IrCheckError::MissingDirectives),
        Ok(false) => {
            let length = ir_output.unicode_len();
            if length == 0 || ir_output.get_char(length - 1) > '\u{7f}' {
                return Err(IrCheckError::OutputNotExplainable);
            }
            ir_verdict(true, explain(directives, ir_output))
        },
    }
}

} // verus!
