//! The table provisioner: system columns, statement synthesis, request
//! validation, and the steps of the transaction that creates a table.

use vstd::prelude::*;
use crate::schema::{
    column_list, column_views, is_identifier, render_columns, valid_identifier, same_text,
    ColumnSchema, ColumnView, DataType, TableSchema, TableView,
};

verus! {

/// Why an operation failed.
#[derive(Debug)]
pub enum Error {
    /// The engine rejected a statement; carries the engine's text.
    DieselError(String),
    /// No connection could be had; carries the pool's text.
    PoolError(String),
    /// A table or column name is not a plain identifier.
    InvalidIdentifier(String),
    /// A requested column takes the name of a system column.
    ReservedColumnName(String),
}

pub enum ErrorView {
    DieselError(Seq<char>),
    PoolError(Seq<char>),
    InvalidIdentifier(Seq<char>),
    ReservedColumnName(Seq<char>),
}

impl View for Error {
    type V = ErrorView;

    open spec fn view(&self) -> ErrorView {
        match self {
            Error::DieselError(m) => ErrorView::DieselError(m@),
            Error::PoolError(m) => ErrorView::PoolError(m@),
            Error::InvalidIdentifier(m) => ErrorView::InvalidIdentifier(m@),
            Error::ReservedColumnName(m) => ErrorView::ReservedColumnName(m@),
        }
    }
}

/// The identity column put first in every table.
pub open spec fn id_column() -> ColumnView {
    ColumnView {
        name: "id"@,
        data_type: DataType::Integer,
        primary_key: Some(true),
        auto_increment: Some(true),
        unique: Some(true),
        not_null: Some(true),
        default: None,
    }
}

/// A timestamp column that defaults to the time of insertion.
pub open spec fn timestamp_column(name: Seq<char>) -> ColumnView {
    ColumnView {
        name,
        data_type: DataType::TimeStamp,
        primary_key: Some(false),
        auto_increment: Some(false),
        unique: Some(false),
        not_null: Some(true),
        default: Some("CURRENT_TIMESTAMP"@),
    }
}

pub open spec fn created_at_column() -> ColumnView {
    timestamp_column("created_at"@)
}

pub open spec fn updated_at_column() -> ColumnView {
    timestamp_column("updated_at"@)
}

/// The columns of a created table: `id`, the requested ones in order,
/// `created_at`, `updated_at`.
pub open spec fn full_columns(user: Seq<ColumnView>) -> Seq<ColumnView> {
    seq![id_column()] + user + seq![created_at_column(), updated_at_column()]
}

/// A name that a requested column may not take.
pub open spec fn is_reserved(name: Seq<char>) -> bool {
    name == id_column().name || name == created_at_column().name || name
        == updated_at_column().name
}

/// What is wrong with one requested column, if anything.
pub open spec fn column_rejection(c: ColumnView) -> Option<ErrorView> {
    if !is_identifier(c.name) {
        Some(ErrorView::InvalidIdentifier(c.name))
    } else if is_reserved(c.name) {
        Some(ErrorView::ReservedColumnName(c.name))
    } else {
        None
    }
}

/// What is wrong with the first faulty column, if any.
pub open spec fn columns_rejection(cols: Seq<ColumnView>) -> Option<ErrorView>
    decreases cols.len(),
{
    if cols.len() == 0 {
        None
    } else {
        match columns_rejection(cols.drop_last()) {
            Some(e) => Some(e),
            None => column_rejection(cols.last()),
        }
    }
}

/// Why a request is refused before any statement runs: the table name is
/// checked first, then the columns in order.
pub open spec fn rejection(t: TableView) -> Option<ErrorView> {
    if !is_identifier(t.name) {
        Some(ErrorView::InvalidIdentifier(t.name))
    } else {
        columns_rejection(t.columns)
    }
}

pub open spec fn create_table_sql(table: Seq<char>, cols: Seq<ColumnView>) -> Seq<char> {
    "CREATE TABLE "@ + table + " ("@ + column_list(cols) + ")"@
}

/// The trigger that refreshes `updated_at` of the updated row. The engine
/// does not fire a trigger again from its own statement.
pub open spec fn trigger_sql(table: Seq<char>) -> Seq<char> {
    "CREATE TRIGGER update_"@ + table + "_updated_at AFTER UPDATE ON "@ + table
        + " FOR EACH ROW BEGIN UPDATE "@ + table
        + " SET updated_at = CURRENT_TIMESTAMP WHERE id = OLD.id; END;"@
}

pub open spec fn drop_table_sql(table: Seq<char>) -> Seq<char> {
    "DROP TABLE "@ + table
}

/// Where a table creation stands.
#[derive(Clone, Copy, Debug, PartialEq, Eq, Structural)]
pub enum Phase {
    Start,
    AwaitingTable,
    AwaitingTrigger,
    Done,
}

/// What the runner of a table creation does next.
#[derive(Debug)]
pub enum Step {
    /// Run this statement inside the transaction and report how it went.
    Execute(String),
    /// Commit the transaction: the table and its trigger are complete.
    Commit,
    /// Roll the transaction back and report this error.
    Rollback(Error),
}

pub enum StepView {
    Execute(Seq<char>),
    Commit,
    Rollback(ErrorView),
}

impl View for Step {
    type V = StepView;

    open spec fn view(&self) -> StepView {
        match self {
            Step::Execute(q) => StepView::Execute(q@),
            Step::Commit => StepView::Commit,
            Step::Rollback(e) => StepView::Rollback(e@),
        }
    }
}

/// One table creation: its two statements, the schema it yields when it
/// commits, and how far it has come.
#[derive(Debug)]
pub struct CreateTableRun {
    pub create_statement: String,
    pub trigger_statement: String,
    pub schema: TableSchema,
    pub phase: Phase,
}

impl CreateTableRun {
    /// The first step: run the `CREATE TABLE` statement.
    pub fn start(&mut self) -> (s: Step)
        requires
            old(self).phase == Phase::Start,
        ensures
            s@ == StepView::Execute(old(self).create_statement@),
            final(self).phase == Phase::AwaitingTable,
            final(self).create_statement == old(self).create_statement,
            final(self).trigger_statement == old(self).trigger_statement,
            final(self).schema == old(self).schema,
    {
        self.phase = Phase::AwaitingTable;
        Step::Execute(self.create_statement.clone())
    }

    /// The step after a statement ran: `Ok`, or the engine's error text.
    /// A failure at either statement rolls the whole creation back, so no
    /// table is left without its trigger; success of both commits.
    pub fn resume(&mut self, outcome: Result<(), String>) -> (s: Step)
        requires
            old(self).phase == Phase::AwaitingTable || old(self).phase == Phase::AwaitingTrigger,
        ensures
            outcome is Err ==> s@ == StepView::Rollback(ErrorView::DieselError(outcome->Err_0@))
                && final(self).phase == Phase::Done,
            outcome is Ok && old(self).phase == Phase::AwaitingTable ==> s@ == StepView::Execute(
                old(self).trigger_statement@,
            ) && final(self).phase == Phase::AwaitingTrigger,
            outcome is Ok && old(self).phase == Phase::AwaitingTrigger ==> s@ == StepView::Commit
                && final(self).phase == Phase::Done,
            final(self).create_statement == old(self).create_statement,
            final(self).trigger_statement == old(self).trigger_statement,
            final(self).schema == old(self).schema,
    {
        match outcome {
            Err(message) => {
                self.phase = Phase::Done;
                Step::Rollback(Error::DieselError(message))
            },
            Ok(()) => {
                if self.phase == Phase::AwaitingTable {
                    self.phase = Phase::AwaitingTrigger;
                    Step::Execute(self.trigger_statement.clone())
                } else {
                    self.phase = Phase::Done;
                    Step::Commit
                }
            },
        }
    }
}

/// The provisioner. It holds the definitions of the three system columns,
/// fixed when it is made.
pub struct CrudService {
    id_col: ColumnSchema,
    created_at_col: ColumnSchema,
    updated_at_col: ColumnSchema,
}

fn timestamp_col(name: &str) -> (r: ColumnSchema)
    ensures
        r@ == timestamp_column(name@),
{
    ColumnSchema {
        name: String::from_str(name),
        data_type: DataType::TimeStamp,
        primary_key: Some(false),
        auto_increment: Some(false),
        unique: Some(false),
        not_null: Some(true),
        default: Some(String::from_str("CURRENT_TIMESTAMP")),
    }
}

impl CrudService {
    #[verifier::type_invariant]
    spec fn inv(&self) -> bool {
        &&& self.id_col@ == id_column()
        &&& self.created_at_col@ == created_at_column()
        &&& self.updated_at_col@ == updated_at_column()
    }

    /// A provisioner with the system columns `id`, `created_at` and
    /// `updated_at`; its invariant keeps them as `id_column`,
    /// `created_at_column` and `updated_at_column` describe.
    pub fn new() -> (r: Self) {
        let id_col = ColumnSchema {
            name: String::from_str("id"),
            data_type: DataType::Integer,
            primary_key: Some(true),
            auto_increment: Some(true),
            unique: Some(true),
            not_null: Some(true),
            default: None,
        };
        CrudService {
            id_col,
            created_at_col: timestamp_col("created_at"),
            updated_at_col: timestamp_col("updated_at"),
        }
    }

    fn column_problem(&self, c: &ColumnSchema) -> (r: Option<Error>)
        ensures
            r matches Some(e) ==> column_rejection(c@) == Some(e@),
            r is None ==> column_rejection(c@) is None,
    {
        proof {
            use_type_invariant(self);
        }
        if !valid_identifier(c.name.as_str()) {
            return Some(Error::InvalidIdentifier(c.name.clone()));
        }
        if same_text(c.name.as_str(), self.id_col.name.as_str()) || same_text(
            c.name.as_str(),
            self.created_at_col.name.as_str(),
        ) || same_text(c.name.as_str(), self.updated_at_col.name.as_str()) {
            return Some(Error::ReservedColumnName(c.name.clone()));
        }
        None
    }

    fn request_problem(&self, schema: &TableSchema) -> (r: Option<Error>)
        ensures
            r matches Some(e) ==> rejection(schema@) == Some(e@),
            r is None ==> rejection(schema@) is None,
    {
        if !valid_identifier(schema.name.as_str()) {
            return Some(Error::InvalidIdentifier(schema.name.clone()));
        }
        let n = schema.columns.len();
        let mut i: usize = 0;
        while i < n
            invariant
                n == schema.columns@.len(),
                i <= n,
                is_identifier(schema@.name),
                columns_rejection(schema@.columns.subrange(0, i as int)) is None,
            decreases n - i,
        {
            let ghost views = schema@.columns;
            assert(views.subrange(0, i + 1).drop_last() =~= views.subrange(0, i as int));
            match self.column_problem(&schema.columns[i]) {
                Some(e) => {
                    assert(columns_rejection(views.subrange(0, i + 1)) == Some(e@));
                    proof {
                        lemma_rejection_prefix(views, i + 1);
                    }
                    return Some(e);
                },
                None => {},
            }
            i = i + 1;
        }
        assert(schema@.columns.subrange(0, n as int) =~= schema@.columns);
        None
    }

    /// Checks the request, then prepares its creation: the `CREATE TABLE`
    /// statement over `id`, the requested columns in order, `created_at` and
    /// `updated_at`; the trigger that keeps `updated_at` current; and the
    /// schema returned once both have committed.
    pub fn create_table(&self, schema: TableSchema) -> (r: Result<CreateTableRun, Error>)
        ensures
            r is Err <==> rejection(schema@) is Some,
            r matches Err(e) ==> rejection(schema@) == Some(e@),
            r matches Ok(run) ==> {
                &&& run.schema@.name == schema@.name
                &&& run.schema@.columns == full_columns(schema@.columns)
                &&& run.create_statement@ == create_table_sql(
                    schema@.name,
                    full_columns(schema@.columns),
                )
                &&& run.trigger_statement@ == trigger_sql(schema@.name)
                &&& run.phase == Phase::Start
            },
    {
        proof {
            use_type_invariant(self);
        }
        match self.request_problem(&schema) {
            Some(e) => {
                return Err(e);
            },
            None => {},
        }
        let ghost user = schema@.columns;
        let TableSchema { name, columns } = schema;
        let mut user_cols = columns;
        let mut cols: Vec<ColumnSchema> = Vec::new();
        cols.push(self.id_col.duplicate());
        cols.append(&mut user_cols);
        cols.push(self.created_at_col.duplicate());
        cols.push(self.updated_at_col.duplicate());
        assert(column_views(cols@) =~= full_columns(user));

        let mut create_statement = String::from_str("CREATE TABLE ");
        create_statement.append(name.as_str());
        create_statement.append(" (");
        let list = render_columns(&cols);
        create_statement.append(list.as_str());
        create_statement.append(")");

        let trigger_statement = trigger_for(name.as_str());
        Ok(
            CreateTableRun {
                create_statement,
                trigger_statement,
                schema: TableSchema { name, columns: cols },
                phase: Phase::Start,
            },
        )
    }

    /// Checks the name and gives the `DROP TABLE` statement. The engine drops
    /// the table's trigger with it.
    pub fn drop_table(&self, table_name: &str) -> (r: Result<String, Error>)
        ensures
            r is Ok <==> is_identifier(table_name@),
            r matches Ok(q) ==> q@ == drop_table_sql(table_name@),
            r matches Err(e) ==> e@ == ErrorView::InvalidIdentifier(table_name@),
    {
        if !valid_identifier(table_name) {
            return Err(Error::InvalidIdentifier(String::from_str(table_name)));
        }
        let mut q = String::from_str("DROP TABLE ");
        q.append(table_name);
        Ok(q)
    }
}

fn trigger_for(table: &str) -> (r: String)
    ensures
        r@ == trigger_sql(table@),
{
    let mut q = String::from_str("CREATE TRIGGER update_");
    q.append(table);
    q.append("_updated_at AFTER UPDATE ON ");
    q.append(table);
    q.append(" FOR EACH ROW BEGIN UPDATE ");
    q.append(table);
    q.append(" SET updated_at = CURRENT_TIMESTAMP WHERE id = OLD.id; END;");
    q
}

/// Once a prefix of the columns is at fault, the whole sequence is, with
/// the same error.
proof fn lemma_rejection_prefix(cols: Seq<ColumnView>, k: int)
    requires
        0 <= k <= cols.len(),
        columns_rejection(cols.subrange(0, k)) is Some,
    ensures
        columns_rejection(cols) == columns_rejection(cols.subrange(0, k)),
    decreases cols.len() - k,
{
    if k < cols.len() {
        assert(cols.subrange(0, k + 1).drop_last() =~= cols.subrange(0, k));
        lemma_rejection_prefix(cols, k + 1);
    } else {
        assert(cols.subrange(0, k) =~= cols);
    }
}

/// The schema of a created table holds `id`, then the `n` requested columns
/// in their order, then `created_at` and `updated_at`: `n + 3` columns.
pub proof fn lemma_column_order(user: Seq<ColumnView>)
    ensures
        full_columns(user).len() == user.len() + 3,
        full_columns(user)[0] == id_column(),
        forall|i: int| 0 <= i < user.len() ==> #[trigger] full_columns(user)[i + 1] == user[i],
        full_columns(user)[user.len() as int + 1] == created_at_column(),
        full_columns(user)[user.len() as int + 2] == updated_at_column(),
{
}

} // verus!
