//! The statements that write the records of a task.

use vstd::prelude::*;

use crate::error::{AppError, AppErrorView};
use crate::model::prompt::{self, MediaPrompt, MediaPromptView};
use crate::text;

verus! {

/// The most rows that one statement inserts.
pub const ROWS_PER_STATEMENT: usize = 100;

/// What a statement begins with.
pub const INSERT_HEAD: &'static str = "INSERT INTO tb_media_prompt (task_id, scene_index, storyboard_index, prompt_type, prompt_content, status, error_message, llm_error_code, llm_response_snippet, llm_duration_ms, token_usage, llm_retries) VALUES ";

/// The placeholders of one row.
pub const INSERT_ROW: &'static str = "(?, ?, ?, ?, ?, ?, ?, ?, ?, ?, ?, ?)";

/// What stands between the placeholders of two rows.
pub const ROW_SEPARATOR: &'static str = ", ";

/// A value bound to a placeholder.
#[derive(Debug, Clone)]
pub enum SqlValue {
    BigInt(Option<i64>),
    Int(Option<i32>),
    TinyInt(i8),
    Text(Option<String>),
}

/// The contents of a [`SqlValue`].
#[verifier::ext_equal]
pub enum SqlValueView {
    BigInt(Option<i64>),
    Int(Option<i32>),
    TinyInt(i8),
    Text(Option<Seq<char>>),
}

impl View for SqlValue {
    type V = SqlValueView;

    open spec fn view(&self) -> SqlValueView {
        match *self {
            SqlValue::BigInt(v) => SqlValueView::BigInt(v),
            SqlValue::Int(v) => SqlValueView::Int(v),
            SqlValue::TinyInt(v) => SqlValueView::TinyInt(v),
            SqlValue::Text(v) => SqlValueView::Text(text::opt_text(v)),
        }
    }
}

/// One statement, with the values bound to its placeholders in their order.
#[derive(Debug, Clone)]
pub struct InsertStatement {
    pub sql: String,
    pub values: Vec<SqlValue>,
}

/// The contents of an [`InsertStatement`].
#[verifier::ext_equal]
pub struct InsertView {
    pub sql: Seq<char>,
    pub values: Seq<SqlValueView>,
}

/// The contents of a list of values.
pub open spec fn value_views(values: Seq<SqlValue>) -> Seq<SqlValueView> {
    values.map_values(|v: SqlValue| v@)
}

impl View for InsertStatement {
    type V = InsertView;

    open spec fn view(&self) -> InsertView {
        InsertView { sql: self.sql@, values: value_views(self.values@) }
    }
}

/// The contents of a list of statements.
pub open spec fn insert_views(statements: Seq<InsertStatement>) -> Seq<InsertView> {
    statements.map_values(|s: InsertStatement| s@)
}

/// The values of a record, in the order of the columns.
pub open spec fn row_values(p: MediaPromptView) -> Seq<SqlValueView> {
    seq![
        SqlValueView::BigInt(Some(p.task_id)),
        SqlValueView::Int(Some(p.scene_index)),
        SqlValueView::Int(p.storyboard_index),
        SqlValueView::Text(Some(prompt::stored_name(p.prompt_type))),
        SqlValueView::Text(p.prompt_content),
        SqlValueView::TinyInt(prompt::status_number(p.status)),
        SqlValueView::Text(p.error_message),
        SqlValueView::Text(p.llm_error_code),
        SqlValueView::Text(p.llm_response_snippet),
        SqlValueView::BigInt(p.llm_duration_ms),
        SqlValueView::Int(p.token_usage),
        SqlValueView::Int(p.llm_retries),
    ]
}

/// The values of records, one record after the other.
pub open spec fn all_values(prompts: Seq<MediaPromptView>) -> Seq<SqlValueView>
    decreases prompts.len(),
{
    if prompts.len() == 0 {
        Seq::empty()
    } else {
        all_values(prompts.drop_last()) + row_values(prompts.last())
    }
}

/// The text of the statement that inserts `n` rows.
pub open spec fn insert_sql(n: nat) -> Seq<char> {
    INSERT_HEAD@ + text::joined(Seq::new(n, |i: int| INSERT_ROW@), ROW_SEPARATOR@)
}

/// The statement that inserts these records.
pub open spec fn insert_statement(prompts: Seq<MediaPromptView>) -> InsertView {
    InsertView { sql: insert_sql(prompts.len()), values: all_values(prompts) }
}

/// How many of this many records the next statement inserts.
pub open spec fn next_rows(n: nat) -> nat {
    if n <= ROWS_PER_STATEMENT {
        n
    } else {
        ROWS_PER_STATEMENT as nat
    }
}

/// The statements that insert these records, in order, each as many rows as it may.
pub open spec fn insert_statements(prompts: Seq<MediaPromptView>) -> Seq<InsertView>
    decreases prompts.len(),
{
    if prompts.len() == 0 {
        Seq::empty()
    } else {
        let n = next_rows(prompts.len()) as int;
        seq![insert_statement(prompts.take(n))] + insert_statements(prompts.skip(n))
    }
}

/// Appends the values of a record.
fn push_row(values: &mut Vec<SqlValue>, p: &MediaPrompt)
    ensures
        value_views(final(values)@) == value_views(old(values)@) + row_values(p@),
{
    let ghost before = value_views(values@);
    values.push(SqlValue::BigInt(Some(p.task_id)));
    values.push(SqlValue::Int(Some(p.scene_index)));
    values.push(SqlValue::Int(p.storyboard_index));
    values.push(SqlValue::Text(Some(p.prompt_type.as_str().to_owned())));
    values.push(SqlValue::Text(text::copy_opt(&p.prompt_content)));
    values.push(SqlValue::TinyInt(p.status.code()));
    values.push(SqlValue::Text(text::copy_opt(&p.error_message)));
    values.push(SqlValue::Text(text::copy_opt(&p.llm_error_code)));
    values.push(SqlValue::Text(text::copy_opt(&p.llm_response_snippet)));
    values.push(SqlValue::BigInt(p.llm_duration_ms));
    values.push(SqlValue::Int(p.token_usage));
    values.push(SqlValue::Int(p.llm_retries));
    assert(value_views(values@) =~= before + row_values(p@));
}

/// The statement that inserts the records from number `from` up to number `to`.
fn build_insert(prompts: &[MediaPrompt], from: usize, to: usize) -> (r: InsertStatement)
    requires
        from < to <= prompts@.len(),
    ensures
        r@ == insert_statement(prompt::prompt_views(prompts@).subrange(from as int, to as int)),
{
    let ghost rows = prompt::prompt_views(prompts@).subrange(from as int, to as int);
    let mut params: Vec<&str> = Vec::new();
    let mut values: Vec<SqlValue> = Vec::new();
    let mut i: usize = from;
    assert(value_views(values@) =~= all_values(rows.take(0)));
    while i < to
        invariant
            from <= i <= to <= prompts@.len(),
            rows == prompt::prompt_views(prompts@).subrange(from as int, to as int),
            params@.len() == i - from,
            forall|k: int| 0 <= k < params@.len() ==> (#[trigger] params@[k])@ == INSERT_ROW@,
            value_views(values@) == all_values(rows.take(i - from)),
        decreases to - i,
    {
        params.push(INSERT_ROW);
        push_row(&mut values, &prompts[i]);
        proof {
            let next = rows.take(i - from + 1);
            assert(next.drop_last() =~= rows.take(i - from));
            assert(next.last() == prompts@[i as int]@);
        }
        i += 1;
    }
    assert(rows.take(to - from) =~= rows);
    let mut sql: String = INSERT_HEAD.to_owned();
    let list: String = text::join(params.as_slice(), ROW_SEPARATOR);
    assert(params@.map_values(|p: &str| p@) =~= Seq::new(rows.len(), |k: int| INSERT_ROW@));
    sql.append(list.as_str());
    InsertStatement { sql, values }
}

/// The statements that write these records. They belong in one transaction, and where there are
/// none, nothing is to be done.
pub fn batch_insert_prompts(prompts: &[MediaPrompt]) -> (r: Vec<InsertStatement>)
    ensures
        insert_views(r@) == insert_statements(prompt::prompt_views(prompts@)),
{
    let ghost rows = prompt::prompt_views(prompts@);
    let mut statements: Vec<InsertStatement> = Vec::new();
    let mut from: usize = 0;
    assert(rows.skip(0) =~= rows);
    while from < prompts.len()
        invariant
            from <= prompts@.len(),
            rows == prompt::prompt_views(prompts@),
            insert_views(statements@) + insert_statements(rows.skip(from as int))
                == insert_statements(rows),
        decreases prompts@.len() - from,
    {
        let left: usize = prompts.len() - from;
        let n: usize = if left <= ROWS_PER_STATEMENT {
            left
        } else {
            ROWS_PER_STATEMENT
        };
        let statement: InsertStatement = build_insert(prompts, from, from + n);
        let ghost before = insert_views(statements@);
        statements.push(statement);
        proof {
            let here = rows.skip(from as int);
            assert(here.take(n as int) =~= rows.subrange(from as int, from + n));
            assert(here.skip(n as int) =~= rows.skip(from + n));
            assert(insert_views(statements@) =~= before + seq![statement@]);
            assert(insert_views(statements@) + insert_statements(rows.skip(from + n)) =~= before
                + insert_statements(here));
        }
        from += n;
    }
    assert(insert_views(statements@) + insert_statements(rows.skip(from as int))
        =~= insert_views(statements@));
    statements
}

/// What a transaction asks to be done next.
#[derive(Debug)]
pub enum InsertAction {
    Begin,
    Execute(InsertStatement),
    Commit,
    /// Nothing more: the transaction has ended in this way. It is undone unless it was committed.
    Finish(Result<(), AppError>),
}

/// The contents of an [`InsertAction`].
#[verifier::ext_equal]
pub enum InsertActionView {
    Begin,
    Execute(InsertView),
    Commit,
    Finish(Option<AppErrorView>),
}

impl View for InsertAction {
    type V = InsertActionView;

    open spec fn view(&self) -> InsertActionView {
        match *self {
            InsertAction::Begin => InsertActionView::Begin,
            InsertAction::Execute(statement) => InsertActionView::Execute(statement@),
            InsertAction::Commit => InsertActionView::Commit,
            InsertAction::Finish(Ok(_)) => InsertActionView::Finish(None),
            InsertAction::Finish(Err(e)) => InsertActionView::Finish(Some(e@)),
        }
    }
}

/// How far a transaction has come.
#[derive(Debug, Clone, Copy, PartialEq, Eq, Structural)]
pub enum InsertStage {
    /// Its statements are being executed, or are about to be.
    Executing,
    Committing,
    Finished,
}

/// What is left of a transaction.
#[verifier::ext_equal]
pub struct InsertState {
    /// The statements that were not executed yet.
    pub rest: Seq<InsertView>,
    pub stage: InsertStage,
}

/// The transaction that writes these records, and what it asks for first.
pub open spec fn insert_start(prompts: Seq<MediaPromptView>) -> (InsertState, InsertActionView) {
    let rest = insert_statements(prompts);
    if rest.len() == 0 {
        (InsertState { rest, stage: InsertStage::Finished }, InsertActionView::Finish(None))
    } else {
        (InsertState { rest, stage: InsertStage::Executing }, InsertActionView::Begin)
    }
}

/// A transaction after the last action succeeded (`None`) or failed, and what it asks for then.
pub open spec fn insert_step(s: InsertState, failure: Option<AppErrorView>) -> (
    InsertState,
    InsertActionView,
) {
    match failure {
        Some(e) => (
            InsertState { stage: InsertStage::Finished, ..s },
            InsertActionView::Finish(Some(e)),
        ),
        None => match s.stage {
            InsertStage::Executing => if s.rest.len() > 0 {
                (
                    InsertState { rest: s.rest.drop_first(), ..s },
                    InsertActionView::Execute(s.rest[0]),
                )
            } else {
                (InsertState { stage: InsertStage::Committing, ..s }, InsertActionView::Commit)
            },
            _ => (
                InsertState { stage: InsertStage::Finished, ..s },
                InsertActionView::Finish(None),
            ),
        },
    }
}

/// A transaction that writes the records of a task.
#[derive(Debug)]
pub struct InsertTransaction {
    rest: Vec<InsertStatement>,
    stage: InsertStage,
}

impl View for InsertTransaction {
    type V = InsertState;

    closed spec fn view(&self) -> InsertState {
        InsertState { rest: insert_views(self.rest@), stage: self.stage }
    }
}

/// What an outcome says of a failure.
pub open spec fn failure_view(outcome: Result<(), AppError>) -> Option<AppErrorView> {
    match outcome {
        Ok(_) => None,
        Err(e) => Some(e@),
    }
}

impl InsertTransaction {
    /// Begins to write these records. Where there are none, there is nothing to do.
    pub fn start(prompts: &[MediaPrompt]) -> (r: (InsertTransaction, InsertAction))
        ensures
            (r.0@, r.1@) == insert_start(prompt::prompt_views(prompts@)),
    {
        let rest: Vec<InsertStatement> = batch_insert_prompts(prompts);
        if rest.len() == 0 {
            (
                InsertTransaction { rest, stage: InsertStage::Finished },
                InsertAction::Finish(Ok(())),
            )
        } else {
            (InsertTransaction { rest, stage: InsertStage::Executing }, InsertAction::Begin)
        }
    }

    /// Takes what came of the last action, and says what is to be done next.
    pub fn step(self, outcome: Result<(), AppError>) -> (r: (InsertTransaction, InsertAction))
        ensures
            (r.0@, r.1@) == insert_step(self@, failure_view(outcome)),
    {
        let mut rest: Vec<InsertStatement> = self.rest;
        let ghost before = insert_views(rest@);
        match outcome {
            Err(e) => (
                InsertTransaction { rest, stage: InsertStage::Finished },
                InsertAction::Finish(Err(e)),
            ),
            Ok(()) => match self.stage {
                InsertStage::Executing => {
                    if rest.len() > 0 {
                        let first: InsertStatement = rest.remove(0);
                        assert(insert_views(rest@) =~= before.drop_first());
                        assert(first@ == before[0]);
                        (
                            InsertTransaction { rest, stage: InsertStage::Executing },
                            InsertAction::Execute(first),
                        )
                    } else {
                        (
                            InsertTransaction { rest, stage: InsertStage::Committing },
                            InsertAction::Commit,
                        )
                    }
                },
                _ => (
                    InsertTransaction { rest, stage: InsertStage::Finished },
                    InsertAction::Finish(Ok(())),
                ),
            },
        }
    }
}

/// What the transaction that writes these records asks for, one after the other, where nothing
/// fails.
pub open spec fn insert_plan(prompts: Seq<MediaPromptView>) -> Seq<InsertActionView> {
    if prompts.len() == 0 {
        seq![InsertActionView::Finish(None)]
    } else {
        seq![InsertActionView::Begin] + insert_statements(prompts).map_values(
            |s: InsertView| InsertActionView::Execute(s),
        ) + seq![InsertActionView::Commit, InsertActionView::Finish(None)]
    }
}

/// A transaction after `n` actions succeeded, and what it asks for then.
pub open spec fn insert_after(prompts: Seq<MediaPromptView>, n: nat) -> (
    InsertState,
    InsertActionView,
)
    decreases n,
{
    if n == 0 {
        insert_start(prompts)
    } else {
        insert_step(insert_after(prompts, (n - 1) as nat).0, None)
    }
}

proof fn insert_after_keeps(prompts: Seq<MediaPromptView>, n: nat)
    requires
        prompts.len() > 0,
        n <= insert_statements(prompts).len() + 2,
    ensures
        ({
            let all = insert_statements(prompts);
            let (s, action) = insert_after(prompts, n);
            &&& all.len() > 0
            &&& n <= all.len() ==> s == (InsertState {
                rest: all.skip(n as int),
                stage: InsertStage::Executing,
            })
            &&& n == all.len() + 1 ==> s.stage is Committing
            &&& n == all.len() + 2 ==> s.stage is Finished
            &&& action == insert_plan(prompts)[n as int]
        }),
    decreases n,
{
    let all = insert_statements(prompts);
    if n == 0 {
        assert(all.skip(0) =~= all);
    } else {
        let before = (n - 1) as nat;
        insert_after_keeps(prompts, before);
        if n <= all.len() {
            assert(all.skip(before as int).drop_first() =~= all.skip(n as int));
        }
    }
}

/// A transaction of which nothing fails begins, executes every statement in order, commits, and
/// then ends well.
pub proof fn transaction_commits_after_every_statement(prompts: Seq<MediaPromptView>, n: nat)
    requires
        n < insert_plan(prompts).len(),
    ensures
        insert_after(prompts, n).1 == insert_plan(prompts)[n as int],
        n == insert_plan(prompts).len() - 1 ==> insert_after(prompts, n).0.stage is Finished,
{
    if prompts.len() > 0 {
        insert_after_keeps(prompts, n);
    }
}

/// A failure ends a transaction with that error, whatever was asked for last, and nothing is
/// committed after it.
pub proof fn transaction_fails_with_its_cause(s: InsertState, e: AppErrorView)
    ensures
        insert_step(s, Some(e)).0.stage is Finished,
        insert_step(s, Some(e)).1 == InsertActionView::Finish(Some(e)),
{
}

/// The values of several statements, one statement after the other.
pub open spec fn joined_values(statements: Seq<InsertView>) -> Seq<SqlValueView>
    decreases statements.len(),
{
    if statements.len() == 0 {
        Seq::empty()
    } else {
        statements[0].values + joined_values(statements.drop_first())
    }
}

proof fn all_values_of_two(a: Seq<MediaPromptView>, b: Seq<MediaPromptView>)
    ensures
        all_values(a + b) == all_values(a) + all_values(b),
    decreases b.len(),
{
    if b.len() == 0 {
        assert(a + b =~= a);
        assert(all_values(a) + all_values(b) =~= all_values(a));
    } else {
        assert((a + b).drop_last() =~= a + b.drop_last());
        all_values_of_two(a, b.drop_last());
        assert(all_values(a + b) =~= all_values(a) + all_values(b));
    }
}

/// Cutting the records into statements loses none, repeats none and keeps their order.
pub proof fn statements_hold_each_record_once(prompts: Seq<MediaPromptView>)
    ensures
        joined_values(insert_statements(prompts)) == all_values(prompts),
    decreases prompts.len(),
{
    if prompts.len() > 0 {
        let n = next_rows(prompts.len()) as int;
        let first = insert_statement(prompts.take(n));
        let rest = insert_statements(prompts.skip(n));
        statements_hold_each_record_once(prompts.skip(n));
        assert((seq![first] + rest).drop_first() =~= rest);
        all_values_of_two(prompts.take(n), prompts.skip(n));
        assert(prompts.take(n) + prompts.skip(n) =~= prompts);
    }
}

/// There is a statement for every hundred records, and one for what is left of them.
pub proof fn statement_count(prompts: Seq<MediaPromptView>)
    ensures
        insert_statements(prompts).len() == (prompts.len() + ROWS_PER_STATEMENT - 1)
            / ROWS_PER_STATEMENT as int,
    decreases prompts.len(),
{
    if prompts.len() > 0 {
        statement_count(prompts.skip(next_rows(prompts.len()) as int));
    }
}

/// How many placeholders a text holds.
pub open spec fn placeholders(sql: Seq<char>) -> nat
    decreases sql.len(),
{
    if sql.len() == 0 {
        0
    } else {
        placeholders(sql.drop_last()) + if sql.last() == '?' {
            1nat
        } else {
            0nat
        }
    }
}

proof fn placeholders_of_two(a: Seq<char>, b: Seq<char>)
    ensures
        placeholders(a + b) == placeholders(a) + placeholders(b),
    decreases b.len(),
{
    if b.len() == 0 {
        assert(a + b =~= a);
    } else {
        assert((a + b).drop_last() =~= a + b.drop_last());
        placeholders_of_two(a, b.drop_last());
    }
}

proof fn no_placeholders(s: Seq<char>)
    requires
        forall|i: int| 0 <= i < s.len() ==> s[i] != '?',
    ensures
        placeholders(s) == 0,
    decreases s.len(),
{
    if s.len() > 0 {
        no_placeholders(s.drop_last());
    }
}

proof fn placeholders_of_rows(n: nat)
    ensures
        placeholders(text::joined(Seq::new(n, |i: int| INSERT_ROW@), ROW_SEPARATOR@)) == 12 * n,
    decreases n,
{
    let rows = Seq::new(n, |i: int| INSERT_ROW@);
    assert(placeholders(INSERT_ROW@) == 12) by {
        reveal_strlit("(?, ?, ?, ?, ?, ?, ?, ?, ?, ?, ?, ?)");
        reveal_with_fuel(placeholders, 37);
    }
    assert(placeholders(ROW_SEPARATOR@) == 0) by {
        reveal_strlit(", ");
        no_placeholders(ROW_SEPARATOR@);
    }
    if n > 1 {
        let less = (n - 1) as nat;
        let front = text::joined(rows.drop_last(), ROW_SEPARATOR@);
        placeholders_of_rows(less);
        assert(rows.drop_last() =~= Seq::new(less, |i: int| INSERT_ROW@));
        placeholders_of_two(front, ROW_SEPARATOR@);
        placeholders_of_two(front + ROW_SEPARATOR@, INSERT_ROW@);
    }
}

proof fn all_values_len(prompts: Seq<MediaPromptView>)
    ensures
        all_values(prompts).len() == 12 * prompts.len(),
    decreases prompts.len(),
{
    if prompts.len() > 0 {
        all_values_len(prompts.drop_last());
    }
}

/// A statement has as many placeholders as values.
pub proof fn each_placeholder_has_a_value(prompts: Seq<MediaPromptView>)
    ensures
        placeholders(insert_statement(prompts).sql) == insert_statement(prompts).values.len(),
{
    let n = prompts.len();
    let rows = text::joined(Seq::new(n, |i: int| INSERT_ROW@), ROW_SEPARATOR@);
    assert(placeholders(INSERT_HEAD@) == 0) by {
        reveal_strlit(
            "INSERT INTO tb_media_prompt (task_id, scene_index, storyboard_index, prompt_type, prompt_content, status, error_message, llm_error_code, llm_response_snippet, llm_duration_ms, token_usage, llm_retries) VALUES ",
        );
        no_placeholders(INSERT_HEAD@);
    }
    placeholders_of_rows(n);
    placeholders_of_two(INSERT_HEAD@, rows);
    all_values_len(prompts);
}

proof fn values_of_record(prompts: Seq<MediaPromptView>, i: int)
    requires
        0 <= i < prompts.len(),
    ensures
        ({
            let values = all_values(prompts);
            let p = prompts[i];
            &&& values.len() == 12 * prompts.len()
            &&& values[12 * i] == SqlValueView::BigInt(Some(p.task_id))
            &&& values[12 * i + 1] == SqlValueView::Int(Some(p.scene_index))
            &&& values[12 * i + 2] == SqlValueView::Int(p.storyboard_index)
            &&& values[12 * i + 3] == SqlValueView::Text(Some(prompt::stored_name(p.prompt_type)))
            &&& values[12 * i + 4] == SqlValueView::Text(p.prompt_content)
            &&& values[12 * i + 5] == SqlValueView::TinyInt(prompt::status_number(p.status))
            &&& values[12 * i + 6] == SqlValueView::Text(p.error_message)
            &&& values[12 * i + 7] == SqlValueView::Text(p.llm_error_code)
            &&& values[12 * i + 8] == SqlValueView::Text(p.llm_response_snippet)
            &&& values[12 * i + 9] == SqlValueView::BigInt(p.llm_duration_ms)
            &&& values[12 * i + 10] == SqlValueView::Int(p.token_usage)
            &&& values[12 * i + 11] == SqlValueView::Int(p.llm_retries)
        }),
    decreases prompts.len(),
{
    all_values_len(prompts);
    all_values_len(prompts.drop_last());
    if i < prompts.len() - 1 {
        values_of_record(prompts.drop_last(), i);
    }
}

/// All the statements together bind twelve values for each record, one record after the other: for
/// each of the columns that a statement names, in their order, what the record holds there, whatever
/// the record's status.
pub proof fn columns_hold_what_the_record_holds(prompts: Seq<MediaPromptView>, i: int)
    requires
        0 <= i < prompts.len(),
    ensures
        ({
            let values = joined_values(insert_statements(prompts));
            let p = prompts[i];
            &&& values.len() == 12 * prompts.len()
            &&& values[12 * i] == SqlValueView::BigInt(Some(p.task_id))
            &&& values[12 * i + 1] == SqlValueView::Int(Some(p.scene_index))
            &&& values[12 * i + 2] == SqlValueView::Int(p.storyboard_index)
            &&& values[12 * i + 3] == SqlValueView::Text(Some(prompt::stored_name(p.prompt_type)))
            &&& values[12 * i + 4] == SqlValueView::Text(p.prompt_content)
            &&& values[12 * i + 5] == SqlValueView::TinyInt(prompt::status_number(p.status))
            &&& values[12 * i + 6] == SqlValueView::Text(p.error_message)
            &&& values[12 * i + 7] == SqlValueView::Text(p.llm_error_code)
            &&& values[12 * i + 8] == SqlValueView::Text(p.llm_response_snippet)
            &&& values[12 * i + 9] == SqlValueView::BigInt(p.llm_duration_ms)
            &&& values[12 * i + 10] == SqlValueView::Int(p.token_usage)
            &&& values[12 * i + 11] == SqlValueView::Int(p.llm_retries)
        }),
{
    statements_hold_each_record_once(prompts);
    values_of_record(prompts, i);
}

/// The record number `i` stands in the statement number `i / 100`, as its row number `i % 100`.
pub proof fn each_statement_holds_a_hundred_records(prompts: Seq<MediaPromptView>, i: int)
    requires
        0 <= i < prompts.len(),
    ensures
        0 <= i / 100 < insert_statements(prompts).len(),
        ({
            let values = insert_statements(prompts)[i / 100].values;
            let row = 12 * (i % 100);
            let p = prompts[i];
            let left = prompts.len() - 100 * (i / 100);
            &&& values.len() == 12 * (if left < 100 {
                left
            } else {
                100
            })
            &&& values[row] == SqlValueView::BigInt(Some(p.task_id))
            &&& values[row + 1] == SqlValueView::Int(Some(p.scene_index))
            &&& values[row + 2] == SqlValueView::Int(p.storyboard_index)
            &&& values[row + 3] == SqlValueView::Text(Some(prompt::stored_name(p.prompt_type)))
            &&& values[row + 4] == SqlValueView::Text(p.prompt_content)
            &&& values[row + 5] == SqlValueView::TinyInt(prompt::status_number(p.status))
            &&& values[row + 6] == SqlValueView::Text(p.error_message)
            &&& values[row + 7] == SqlValueView::Text(p.llm_error_code)
            &&& values[row + 8] == SqlValueView::Text(p.llm_response_snippet)
            &&& values[row + 9] == SqlValueView::BigInt(p.llm_duration_ms)
            &&& values[row + 10] == SqlValueView::Int(p.token_usage)
            &&& values[row + 11] == SqlValueView::Int(p.llm_retries)
        }),
    decreases prompts.len(),
{
    let n = next_rows(prompts.len()) as int;
    let first = insert_statement(prompts.take(n));
    let rest = insert_statements(prompts.skip(n));
    assert(insert_statements(prompts) == seq![first] + rest);
    if i < n {
        assert(i / 100 == 0 && i % 100 == i);
        values_of_record(prompts.take(n), i);
    } else {
        each_statement_holds_a_hundred_records(prompts.skip(n), i - n);
        assert(prompts.skip(n)[i - n] == prompts[i]);
        assert((i - 100) / 100 == i / 100 - 1 && (i - 100) % 100 == i % 100);
        assert(insert_statements(prompts)[i / 100] == rest[i / 100 - 1]);
    }
}

/// Records that are written alike are the same record.
pub proof fn written_records_can_be_told_apart(a: MediaPromptView, b: MediaPromptView)
    requires
        joined_values(insert_statements(seq![a])) == joined_values(insert_statements(seq![b])),
    ensures
        a == b,
{
    let va = joined_values(insert_statements(seq![a]));
    let vb = joined_values(insert_statements(seq![b]));
    columns_hold_what_the_record_holds(seq![a], 0);
    columns_hold_what_the_record_holds(seq![b], 0);
    assert(va[3] == vb[3] && va[5] == vb[5]);
    if a.prompt_type != b.prompt_type {
        prompt::stored_names_are_distinct(a.prompt_type, b.prompt_type);
    }
}

/// A statement names the columns, and has one group of twelve placeholders for each of its rows. A
/// further row adds a comma and a group.
pub proof fn statements_have_a_group_for_each_row(prompts: Seq<MediaPromptView>, p: MediaPromptView)
    ensures
        insert_statement(seq![p]).sql
            == "INSERT INTO tb_media_prompt (task_id, scene_index, storyboard_index, prompt_type, prompt_content, status, error_message, llm_error_code, llm_response_snippet, llm_duration_ms, token_usage, llm_retries) VALUES "@
            + "(?, ?, ?, ?, ?, ?, ?, ?, ?, ?, ?, ?)"@,
        prompts.len() > 0 ==> insert_statement(prompts.push(p)).sql == insert_statement(prompts).sql
            + ", "@ + "(?, ?, ?, ?, ?, ?, ?, ?, ?, ?, ?, ?)"@,
{
    let n = prompts.len();
    let rows = Seq::new(n + 1, |i: int| INSERT_ROW@);
    let one = Seq::new(1, |i: int| INSERT_ROW@);
    reveal_with_fuel(text::joined, 2);
    assert(one[0] == INSERT_ROW@);
    assert(rows.drop_last() =~= Seq::new(n, |i: int| INSERT_ROW@));
    assert(seq![p].len() == 1);
    if n > 0 {
        assert(insert_statement(prompts.push(p)).sql =~= insert_statement(prompts).sql + ", "@
            + "(?, ?, ?, ?, ?, ?, ?, ?, ?, ?, ?, ?)"@);
    }
}

/// The text of each statement is that of a statement with as many rows.
pub proof fn statement_texts_fit_their_rows(prompts: Seq<MediaPromptView>, k: int)
    requires
        0 <= k < insert_statements(prompts).len(),
    ensures
        100 * k < prompts.len(),
        ({
            let left = prompts.len() - 100 * k;
            insert_statements(prompts)[k] == insert_statement(
                prompts.subrange(
                    100 * k,
                    if left < 100 {
                        prompts.len() as int
                    } else {
                        100 * k + 100
                    },
                ),
            )
        }),
    decreases prompts.len(),
{
    let n = next_rows(prompts.len()) as int;
    let rest = insert_statements(prompts.skip(n));
    let left = prompts.len() - 100 * k;
    let end = if left < 100 {
        prompts.len() as int
    } else {
        100 * k + 100
    };
    if k == 0 {
        assert(prompts.take(n) =~= prompts.subrange(0, end));
    } else {
        assert(insert_statements(prompts)[k] == rest[k - 1]);
        statement_texts_fit_their_rows(prompts.skip(n), k - 1);
        assert(prompts.skip(n).subrange(100 * (k - 1), end - n) =~= prompts.subrange(100 * k, end));
    }
}

/// A transaction with records to write begins, executes statement after statement in their order,
/// commits, and only then ends well. One without records ends well at once.
pub proof fn transactions_do_one_thing_after_the_other(prompts: Seq<MediaPromptView>, n: nat)
    ensures
        ({
            let all = insert_statements(prompts);
            let action = insert_after(prompts, n).1;
            &&& prompts.len() == 0 ==> action == InsertActionView::Finish(None)
            &&& prompts.len() > 0 ==> {
                &&& n == 0 ==> action == InsertActionView::Begin
                &&& 1 <= n <= all.len() ==> action == InsertActionView::Execute(all[n - 1])
                &&& n == all.len() + 1 ==> action == InsertActionView::Commit
                &&& n >= all.len() + 2 ==> action == InsertActionView::Finish(None)
            }
        }),
    decreases n,
{
    let all = insert_statements(prompts);
    if prompts.len() > 0 {
        if n <= all.len() + 2 {
            insert_after_keeps(prompts, n);
        } else {
            finished_transactions_stay_so(prompts, n);
        }
    } else if n > 0 {
        finished_transactions_stay_so(prompts, n);
    }
}

proof fn finished_transactions_stay_so(prompts: Seq<MediaPromptView>, n: nat)
    requires
        if prompts.len() == 0 {
            n >= 0
        } else {
            n >= insert_statements(prompts).len() + 2
        },
    ensures
        insert_after(prompts, n).0.stage is Finished,
        insert_after(prompts, n).1 == InsertActionView::Finish(None),
    decreases n,
{
    if prompts.len() == 0 {
        if n > 0 {
            finished_transactions_stay_so(prompts, (n - 1) as nat);
        }
    } else if n == insert_statements(prompts).len() + 2 {
        insert_after_keeps(prompts, n);
    } else {
        finished_transactions_stay_so(prompts, (n - 1) as nat);
    }
}

/// The contents of a value are the value.
pub proof fn sql_value_contents(v: SqlValue)
    ensures
        v matches SqlValue::BigInt(n) ==> v@ == SqlValueView::BigInt(n),
        v matches SqlValue::Int(n) ==> v@ == SqlValueView::Int(n),
        v matches SqlValue::TinyInt(n) ==> v@ == SqlValueView::TinyInt(n),
        v matches SqlValue::Text(Some(s)) ==> v@ == SqlValueView::Text(Some(s@)),
        v matches SqlValue::Text(None) ==> v@ == SqlValueView::Text(None),
{
}

/// The contents of statements are their texts and values.
pub proof fn statement_contents(statements: Seq<InsertStatement>, k: int, j: int)
    requires
        0 <= k < statements.len(),
        0 <= j < statements[k].values@.len(),
    ensures
        insert_views(statements).len() == statements.len(),
        insert_views(statements)[k] == statements[k]@,
        statements[k]@.sql == statements[k].sql@,
        statements[k]@.values.len() == statements[k].values@.len(),
        statements[k]@.values[j] == statements[k].values@[j]@,
{
}

/// The contents of an action are what it asks for.
pub proof fn action_contents(a: InsertAction)
    ensures
        a is Begin ==> a@ is Begin,
        a matches InsertAction::Execute(s) ==> a@ == InsertActionView::Execute(s@),
        a is Commit ==> a@ is Commit,
        a matches InsertAction::Finish(Ok(_)) ==> a@ == InsertActionView::Finish(None),
        a matches InsertAction::Finish(Err(e)) ==> a@ == InsertActionView::Finish(Some(e@)),
{
}

/// An outcome fails where it is an error, and with that error.
pub proof fn failed_outcomes(outcome: Result<(), AppError>)
    ensures
        outcome is Ok ==> failure_view(outcome) is None,
        outcome matches Err(e) ==> failure_view(outcome) == Some(e@),
{
}

} // verus!
