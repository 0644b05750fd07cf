//! Splicing generated setup statements into the configuration guard that opens
//! a test function's body.
use crate::tokens::{empty_stream, push_ident, stream_text, stream_tokens, tokens_text};
use cairo_lang_macro::TokenStream;
use vstd::prelude::*;

verus! {

/// A statement inside the configuration guard's block.
pub struct BlockStatement {
    /// The statement's source text.
    pub text: String,
    /// Whether the statement is a `return`.
    pub is_return: bool,
}

/// What splicing reads of a statement of the function body.
pub enum StatementShape {
    /// An expression statement holding an `if` whose condition is a plain
    /// function call: the segments of the called path and the `if` block.
    IfCall { path: Vec<String>, block: Vec<BlockStatement> },
    /// Any other statement.
    Other,
}

/// A statement of the function body: its source text and its shape.
pub struct StatementSyntax {
    pub text: String,
    pub shape: StatementShape,
}

/// A snapshot of the annotated function: the parts that are copied through as
/// text, and the statements of its body.
pub struct FunctionSyntax {
    pub attributes: String,
    pub visibility: String,
    pub declaration: String,
    pub statements: Vec<StatementSyntax>,
}

/// Splicing refuses a configuration guard that does not end with a `return`.
#[derive(Debug, PartialEq, Eq, Structural)]
pub enum SpliceError {
    GuardWithoutReturn,
}

pub type BlockView = Seq<(Seq<char>, bool)>;

pub enum ShapeView {
    IfCall { path: Seq<Seq<char>>, block: BlockView },
    Other,
}

pub struct StatementView {
    pub text: Seq<char>,
    pub shape: ShapeView,
}

pub struct FunctionView {
    pub attributes: Seq<char>,
    pub visibility: Seq<char>,
    pub declaration: Seq<char>,
    pub statements: Seq<StatementView>,
}

pub open spec fn strings_view(v: Seq<String>) -> Seq<Seq<char>> {
    v.map_values(|s: String| s@)
}

impl View for BlockStatement {
    type V = (Seq<char>, bool);

    open spec fn view(&self) -> (Seq<char>, bool) {
        (self.text@, self.is_return)
    }
}

pub open spec fn block_view(v: Seq<BlockStatement>) -> BlockView {
    v.map_values(|b: BlockStatement| b@)
}

impl View for StatementSyntax {
    type V = StatementView;

    open spec fn view(&self) -> StatementView {
        StatementView {
            text: self.text@,
            shape: match self.shape {
                StatementShape::IfCall { path, block } => ShapeView::IfCall {
                    path: strings_view(path@),
                    block: block_view(block@),
                },
                StatementShape::Other => ShapeView::Other,
            },
        }
    }
}

pub open spec fn statements_view(v: Seq<StatementSyntax>) -> Seq<StatementView> {
    v.map_values(|s: StatementSyntax| s@)
}

impl View for FunctionSyntax {
    type V = FunctionView;

    open spec fn view(&self) -> FunctionView {
        FunctionView {
            attributes: self.attributes@,
            visibility: self.visibility@,
            declaration: self.declaration@,
            statements: statements_view(self.statements@),
        }
    }
}

/// The path of the query that tells a configuration pass from a real run:
/// `snforge_std::_internals::_is_config_run`.
pub open spec fn sentinel_path() -> Seq<Seq<char>> {
    seq!["snforge_std"@, "_internals"@, "_is_config_run"@]
}

/// The block of the configuration guard that opens the body, if the first
/// statement is one: an `if` on a call of the sentinel path.
pub open spec fn existing_guard(stmts: Seq<StatementView>) -> Option<BlockView> {
    if stmts.len() > 0 {
        match stmts[0].shape {
            ShapeView::IfCall { path, block } => if path == sentinel_path() {
                Some(block)
            } else {
                None
            },
            ShapeView::Other => None,
        }
    } else {
        None
    }
}

/// The body opens with a configuration guard whose last statement is not a `return`.
pub open spec fn guard_is_malformed(stmts: Seq<StatementView>) -> bool {
    match existing_guard(stmts) {
        Some(block) => block.len() == 0 || !block.last().1,
        None => false,
    }
}

/// The statements that earlier attributes put into the guard: its block
/// without the final `return`.
pub open spec fn previous_content(stmts: Seq<StatementView>) -> BlockView {
    match existing_guard(stmts) {
        Some(block) => block.drop_last(),
        None => Seq::empty(),
    }
}

/// Every statement after the guard, or every statement when there is none.
pub open spec fn remainder(stmts: Seq<StatementView>) -> Seq<StatementView> {
    if existing_guard(stmts) is Some {
        stmts.drop_first()
    } else {
        stmts
    }
}

pub open spec fn return_statement() -> (Seq<char>, bool) {
    ("return;"@, true)
}

pub open spec fn generated_block(generated: Seq<Seq<char>>) -> BlockView {
    generated.map_values(|t: Seq<char>| (t, false))
}

/// The lines of a block, each followed by a line break.
pub open spec fn block_text(block: BlockView) -> Seq<char>
    decreases block.len(),
{
    if block.len() == 0 {
        Seq::empty()
    } else {
        block_text(block.drop_last()) + block.last().0 + "\n"@
    }
}

/// The configuration guard holding `block`.
pub open spec fn guard_statement(block: BlockView) -> StatementView {
    StatementView {
        text: "if snforge_std::_internals::_is_config_run() {\n"@ + block_text(block) + "}"@,
        shape: ShapeView::IfCall { path: sentinel_path(), block },
    }
}

/// The function after one attribute's statements are spliced in: one guard
/// holding the earlier statements, the new ones and a `return`, followed by the
/// rest of the body unchanged.
pub open spec fn spliced(f: FunctionView, generated: Seq<Seq<char>>) -> FunctionView {
    FunctionView {
        attributes: f.attributes,
        visibility: f.visibility,
        declaration: f.declaration,
        statements: seq![
            guard_statement(
                previous_content(f.statements) + generated_block(generated) + seq![return_statement()],
            ),
        ] + remainder(f.statements),
    }
}

fn sentinel_segment(i: usize) -> (r: String)
    requires
        i < 3,
    ensures
        r@ == sentinel_path()[i as int],
{
    if i == 0 {
        String::from_str("snforge_std")
    } else if i == 1 {
        String::from_str("_internals")
    } else {
        String::from_str("_is_config_run")
    }
}

fn is_sentinel_path(path: &Vec<String>) -> (r: bool)
    ensures
        r == (strings_view(path@) == sentinel_path()),
{
    if path.len() != 3 {
        assert(strings_view(path@).len() != sentinel_path().len());
        return false;
    }
    let mut i: usize = 0;
    while i < 3
        invariant
            path@.len() == 3,
            i <= 3,
            forall|j: int| 0 <= j < i ==> path@[j]@ == sentinel_path()[j],
        decreases 3 - i,
    {
        let expected = sentinel_segment(i);
        if path[i] != expected {
            assert(strings_view(path@)[i as int] != sentinel_path()[i as int]);
            return false;
        }
        i = i + 1;
    }
    assert(strings_view(path@) =~= sentinel_path());
    true
}

fn sentinel_path_vec() -> (r: Vec<String>)
    ensures
        strings_view(r@) == sentinel_path(),
{
    let mut r: Vec<String> = Vec::new();
    let mut i: usize = 0;
    while i < 3
        invariant
            i <= 3,
            strings_view(r@) == sentinel_path().subrange(0, i as int),
        decreases 3 - i,
    {
        let s = sentinel_segment(i);
        let ghost before = r@;
        r.push(s);
        assert(strings_view(r@) =~= strings_view(before).push(s@));
        i = i + 1;
        assert(strings_view(r@) =~= sentinel_path().subrange(0, i as int));
    }
    assert(sentinel_path().subrange(0, 3) =~= sentinel_path());
    r
}

fn guard_text(block: &Vec<BlockStatement>) -> (r: String)
    ensures
        r@ == "if snforge_std::_internals::_is_config_run() {\n"@ + block_text(block_view(block@)) + "}"@,
{
    let mut r = String::from_str("if snforge_std::_internals::_is_config_run() {\n");
    let mut i: usize = 0;
    while i < block.len()
        invariant
            i <= block@.len(),
            r@ == "if snforge_std::_internals::_is_config_run() {\n"@ + block_text(
                block_view(block@.subrange(0, i as int)),
            ),
        decreases block.len() - i,
    {
        r.append(block[i].text.as_str());
        r.append("\n");
        proof {
            let next = block_view(block@.subrange(0, i + 1));
            assert(next.drop_last() =~= block_view(block@.subrange(0, i as int)));
        }
        i = i + 1;
    }
    assert(block@.subrange(0, block@.len() as int) =~= block@);
    r.append("}");
    r
}

/// Splices `config_statements` into the configuration guard at the start of
/// `func`'s body, creating the guard when the body does not open with one.
/// Statements that earlier attributes put into the guard stay first, the new
/// ones follow, and the guard ends with a single `return`. Everything outside
/// the guard is kept as it is, in order.
pub fn append_config_statements(func: FunctionSyntax, config_statements: &Vec<String>) -> (r: Result<
    FunctionSyntax,
    SpliceError,
>)
    ensures
        r is Err <==> guard_is_malformed(func@.statements),
        r matches Ok(out) ==> out@ == spliced(func@, strings_view(config_statements@)),
{
    let FunctionSyntax { attributes, visibility, declaration, mut statements } = func;
    let ghost stmts = statements_view(statements@);
    let mut block: Vec<BlockStatement> = Vec::new();
    let mut first_is_guard = false;
    if statements.len() > 0 {
        first_is_guard = match &statements[0].shape {
            StatementShape::IfCall { path, block: _ } => is_sentinel_path(path),
            StatementShape::Other => false,
        };
    }
    if first_is_guard {
        let first = statements.remove(0);
        match first.shape {
            StatementShape::IfCall { path: _, block: b } => {
                block = b;
            },
            StatementShape::Other => {},
        }
        assert(existing_guard(stmts) == Some(block_view(block@)));
        match block.pop() {
            Some(last) => {
                if !last.is_return {
                    return Err(SpliceError::GuardWithoutReturn);
                }
            },
            None => {
                return Err(SpliceError::GuardWithoutReturn);
            },
        }
        assert(block_view(block@) =~= previous_content(stmts));
        assert(statements_view(statements@) =~= remainder(stmts));
    } else {
        assert(existing_guard(stmts) is None);
        assert(block_view(block@) =~= previous_content(stmts));
        assert(statements_view(statements@) =~= remainder(stmts));
    }
    let ghost previous = block_view(block@);
    let mut i: usize = 0;
    while i < config_statements.len()
        invariant
            i <= config_statements@.len(),
            block_view(block@) == previous + generated_block(
                strings_view(config_statements@.subrange(0, i as int)),
            ),
        decreases config_statements.len() - i,
    {
        let text = config_statements[i].clone();
        let ghost before = block@;
        block.push(BlockStatement { text, is_return: false });
        proof {
            assert(block_view(block@) =~= block_view(before).push((config_statements@[i as int]@, false)));
            assert(generated_block(strings_view(config_statements@.subrange(0, i + 1)))
                =~= generated_block(strings_view(config_statements@.subrange(0, i as int))).push(
                (config_statements@[i as int]@, false),
            ));
            assert(block_view(block@) =~= previous + generated_block(
                strings_view(config_statements@.subrange(0, i + 1)),
            ));
        }
        i = i + 1;
    }
    assert(config_statements@.subrange(0, config_statements@.len() as int) =~= config_statements@);
    block.push(BlockStatement { text: String::from_str("return;"), is_return: true });
    let ghost full = block_view(block@);
    assert(full =~= previous + generated_block(strings_view(config_statements@)) + seq![
        return_statement(),
    ]);
    let text = guard_text(&block);
    let path = sentinel_path_vec();
    let guard = StatementSyntax { text, shape: StatementShape::IfCall { path, block } };
    let ghost rest = statements_view(statements@);
    statements.insert(0, guard);
    assert(statements_view(statements@) =~= seq![guard_statement(full)] + rest);
    Ok(FunctionSyntax { attributes, visibility, declaration, statements })
}

/// The setup statements that register a configuration value: serialize the
/// value's expression into a buffer and hand the buffer to the cheatcode.
pub open spec fn config_cheatcode_statements(value: Seq<char>, cheatcode_name: Seq<char>) -> Seq<Seq<char>> {
    seq![
        "let mut data = array![];"@,
        value + ".serialize(ref data);"@,
        "starknet::testing::cheatcode::<'"@ + cheatcode_name + "'>(data.span());"@,
    ]
}

/// Builds the setup statements that register the configuration value whose
/// Cairo expression is `value` through the cheatcode `cheatcode_name`.
pub fn config_cheatcode_statements_for(value: &TokenStream, cheatcode_name: &str) -> (r: Vec<String>)
    ensures
        strings_view(r@) == config_cheatcode_statements(
            tokens_text(stream_tokens(*value)),
            cheatcode_name@,
        ),
{
    let first = String::from_str("let mut data = array![];");
    let second = stream_text(value).concat(".serialize(ref data);");
    let third = String::from_str("starknet::testing::cheatcode::<'").concat(cheatcode_name).concat(
        "'>(data.span());",
    );
    let r = vec![first, second, third];
    assert(strings_view(r@) =~= config_cheatcode_statements(
        tokens_text(stream_tokens(*value)),
        cheatcode_name@,
    ));
    r
}

/// Splices the statements that register `value` through `cheatcode_name` into
/// the configuration guard of `func`.
pub fn with_config_cheatcodes(func: FunctionSyntax, value: &TokenStream, cheatcode_name: &str) -> (r:
    Result<FunctionSyntax, SpliceError>)
    ensures
        r is Err <==> guard_is_malformed(func@.statements),
        r matches Ok(out) ==> out@ == spliced(
            func@,
            config_cheatcode_statements(tokens_text(stream_tokens(*value)), cheatcode_name@),
        ),
{
    let statements = config_cheatcode_statements_for(value, cheatcode_name);
    append_config_statements(func, &statements)
}

/// The tokens of each statement, each followed by a line break.
pub open spec fn statement_tokens(stmts: Seq<StatementView>) -> Seq<Seq<char>>
    decreases stmts.len(),
{
    if stmts.len() == 0 {
        Seq::empty()
    } else {
        statement_tokens(stmts.drop_last()) + seq![stmts.last().text, "\n"@]
    }
}

/// The tokens a function is emitted as: attributes, visibility and
/// declaration, then the body's statements between braces.
pub open spec fn function_tokens(f: FunctionView) -> Seq<Seq<char>> {
    seq![f.attributes, "\n"@, f.visibility, " "@, f.declaration, " {\n"@] + statement_tokens(
        f.statements,
    ) + seq!["}\n"@]
}

impl FunctionSyntax {
    /// Emits the function as a token stream for the compiler.
    pub fn to_token_stream(&self) -> (r: TokenStream)
        ensures
            stream_tokens(r) == function_tokens(self@),
    {
        let mut r = empty_stream();
        push_ident(&mut r, self.attributes.as_str());
        push_ident(&mut r, "\n");
        push_ident(&mut r, self.visibility.as_str());
        push_ident(&mut r, " ");
        push_ident(&mut r, self.declaration.as_str());
        push_ident(&mut r, " {\n");
        let ghost head = stream_tokens(r);
        let mut i: usize = 0;
        while i < self.statements.len()
            invariant
                i <= self.statements@.len(),
                stream_tokens(r) == head + statement_tokens(
                    statements_view(self.statements@.subrange(0, i as int)),
                ),
            decreases self.statements.len() - i,
        {
            push_ident(&mut r, self.statements[i].text.as_str());
            push_ident(&mut r, "\n");
            proof {
                let next = statements_view(self.statements@.subrange(0, i + 1));
                assert(next.drop_last() =~= statements_view(self.statements@.subrange(0, i as int)));
            }
            i = i + 1;
        }
        assert(self.statements@.subrange(0, self.statements@.len() as int) =~= self.statements@);
        push_ident(&mut r, "}\n");
        assert(stream_tokens(r) =~= function_tokens(self@));
        r
    }
}

/// A body that opens with no configuration guard gains exactly one, holding the
/// new statements and a `return`; the statements already in the body follow it unchanged.
pub proof fn lemma_first_application(f: FunctionView, generated: Seq<Seq<char>>)
    requires
        existing_guard(f.statements) is None,
    ensures
        spliced(f, generated).statements == seq![
            guard_statement(generated_block(generated) + seq![return_statement()]),
        ] + f.statements,
        existing_guard(spliced(f, generated).statements) == Some(
            generated_block(generated) + seq![return_statement()],
        ),
{
    assert(previous_content(f.statements) + generated_block(generated) =~= generated_block(
        generated,
    ));
}

/// Two stacked attributes, the second reading the first one's output, leave one
/// guard that holds the earlier statements, the first attribute's statements,
/// then the second's, and one `return`; the rest of the body is unchanged.
pub proof fn lemma_stacked_attributes_accumulate(
    f: FunctionView,
    first: Seq<Seq<char>>,
    second: Seq<Seq<char>>,
)
    requires
        !guard_is_malformed(f.statements),
    ensures
        !guard_is_malformed(spliced(f, first).statements),
        existing_guard(spliced(spliced(f, first), second).statements) == Some(
            previous_content(f.statements) + generated_block(first) + generated_block(second)
                + seq![return_statement()],
        ),
        remainder(spliced(spliced(f, first), second).statements) == remainder(f.statements),
        spliced(spliced(f, first), second).statements.len() == remainder(f.statements).len() + 1,
{
    let f1 = spliced(f, first);
    let b1 = previous_content(f.statements) + generated_block(first) + seq![return_statement()];
    assert(existing_guard(f1.statements) == Some(b1));
    assert(b1.drop_last() =~= previous_content(f.statements) + generated_block(first));
    assert(remainder(f1.statements) =~= remainder(f.statements));
    let f2 = spliced(f1, second);
    assert(remainder(f2.statements) =~= remainder(f1.statements));
}

/// Splicing keeps every statement outside the guard, in order, and the
/// function's attributes, visibility and declaration.
pub proof fn lemma_outside_guard_preserved(f: FunctionView, generated: Seq<Seq<char>>)
    ensures
        remainder(spliced(f, generated).statements) == remainder(f.statements),
        spliced(f, generated).attributes == f.attributes,
        spliced(f, generated).visibility == f.visibility,
        spliced(f, generated).declaration == f.declaration,
{
    assert(remainder(spliced(f, generated).statements) =~= remainder(f.statements));
}

/// An opening `if` on a call of another three-segment path is no configuration
/// guard: a new guard is put in front of it and it stays in the body.
pub proof fn lemma_foreign_condition_not_guard(f: FunctionView, generated: Seq<Seq<char>>)
    requires
        f.statements.len() > 0,
        f.statements[0].shape matches ShapeView::IfCall { path, block } && path.len() == 3 && path
            != sentinel_path(),
    ensures
        existing_guard(f.statements) is None,
        spliced(f, generated).statements == seq![
            guard_statement(generated_block(generated) + seq![return_statement()]),
        ] + f.statements,
{
    lemma_first_application(f, generated);
}

} // verus!
