//! Column and table definitions, and how they render as SQL text.

use vstd::prelude::*;

verus! {

/// The closed set of column types a table definition may use.
#[derive(Clone, Copy, Debug, PartialEq, Eq, Structural)]
pub enum DataType {
    Text,
    Integer,
    Float,
    Boolean,
    TimeStamp,
}

/// The engine-native type name of each data type.
pub open spec fn engine_type(t: DataType) -> Seq<char> {
    match t {
        DataType::Text => "TEXT"@,
        DataType::Integer => "INTEGER"@,
        DataType::Float => "REAL"@,
        DataType::Boolean => "BOOLEAN"@,
        DataType::TimeStamp => "TIMESTAMP"@,
    }
}

impl DataType {
    /// The engine-native name of this type.
    pub fn to_sql(&self) -> (r: &'static str)
        ensures
            r@ == engine_type(*self),
    {
        match self {
            DataType::Text => "TEXT",
            DataType::Integer => "INTEGER",
            DataType::Float => "REAL",
            DataType::Boolean => "BOOLEAN",
            DataType::TimeStamp => "TIMESTAMP",
        }
    }
}


/// One column of a table definition. Absent flags count as `false`; the
/// default, when present, is written into the statement as it stands.
#[derive(Clone, Debug)]
pub struct ColumnSchema {
    pub name: String,
    pub data_type: DataType,
    pub primary_key: Option<bool>,
    pub auto_increment: Option<bool>,
    pub unique: Option<bool>,
    pub not_null: Option<bool>,
    pub default: Option<String>,
}

/// The mathematical value of a column definition.
pub struct ColumnView {
    pub name: Seq<char>,
    pub data_type: DataType,
    pub primary_key: Option<bool>,
    pub auto_increment: Option<bool>,
    pub unique: Option<bool>,
    pub not_null: Option<bool>,
    pub default: Option<Seq<char>>,
}

pub open spec fn text_of(o: Option<String>) -> Option<Seq<char>> {
    match o {
        Some(s) => Some(s@),
        None => None,
    }
}

impl View for ColumnSchema {
    type V = ColumnView;

    open spec fn view(&self) -> ColumnView {
        ColumnView {
            name: self.name@,
            data_type: self.data_type,
            primary_key: self.primary_key,
            auto_increment: self.auto_increment,
            unique: self.unique,
            not_null: self.not_null,
            default: text_of(self.default),
        }
    }
}

/// A table definition: its name and its columns, in order.
#[derive(Debug)]
pub struct TableSchema {
    pub name: String,
    pub columns: Vec<ColumnSchema>,
}

/// The mathematical value of a table definition.
pub struct TableView {
    pub name: Seq<char>,
    pub columns: Seq<ColumnView>,
}

pub open spec fn column_views(cols: Seq<ColumnSchema>) -> Seq<ColumnView> {
    cols.map_values(|c: ColumnSchema| c@)
}

impl View for TableSchema {
    type V = TableView;

    open spec fn view(&self) -> TableView {
        TableView { name: self.name@, columns: column_views(self.columns@) }
    }
}

/// An absent flag reads as `false`.
pub open spec fn is_set(flag: Option<bool>) -> bool {
    flag == Some(true)
}

/// The text of a clause that is emitted only when its flag is set.
pub open spec fn clause(flag: Option<bool>, text: Seq<char>) -> Seq<char> {
    if is_set(flag) {
        text
    } else {
        Seq::empty()
    }
}

pub open spec fn default_clause(default: Option<Seq<char>>) -> Seq<char> {
    match default {
        Some(d) => " DEFAULT "@ + d,
        None => Seq::empty(),
    }
}

/// `<name> <TYPE>[ PRIMARY KEY][ AUTOINCREMENT][ UNIQUE][ NOT NULL][ DEFAULT <d>]`.
pub open spec fn column_sql(c: ColumnView) -> Seq<char> {
    c.name + " "@ + engine_type(c.data_type) + clause(c.primary_key, " PRIMARY KEY"@) + clause(
        c.auto_increment,
        " AUTOINCREMENT"@,
    ) + clause(c.unique, " UNIQUE"@) + clause(c.not_null, " NOT NULL"@) + default_clause(
        c.default,
    )
}

fn flag_set(flag: Option<bool>) -> (r: bool)
    ensures
        r == is_set(flag),
{
    match flag {
        Some(b) => b,
        None => false,
    }
}

fn append_clause(out: &mut String, flag: Option<bool>, text: &str)
    ensures
        final(out)@ == old(out)@ + clause(flag, text@),
{
    if flag_set(flag) {
        out.append(text);
    } else {
        assert(old(out)@ + clause(flag, text@) =~= old(out)@);
    }
}

impl ColumnSchema {
    /// The column-definition fragment of a `CREATE TABLE` statement.
    pub fn to_sql(&self) -> (r: String)
        ensures
            r@ == column_sql(self@),
    {
        let mut out = self.name.clone();
        out.append(" ");
        out.append(self.data_type.to_sql());
        append_clause(&mut out, self.primary_key, " PRIMARY KEY");
        append_clause(&mut out, self.auto_increment, " AUTOINCREMENT");
        append_clause(&mut out, self.unique, " UNIQUE");
        append_clause(&mut out, self.not_null, " NOT NULL");
        match &self.default {
            Some(d) => {
                let ghost before = out@;
                out.append(" DEFAULT ");
                out.append(d.as_str());
                assert(out@ =~= before + default_clause(self@.default));
            },
            None => {
                assert(out@ + default_clause(self@.default) =~= out@);
            },
        }
        out
    }

    /// A copy with the same value.
    pub fn duplicate(&self) -> (r: ColumnSchema)
        ensures
            r@ == self@,
    {
        let default = match &self.default {
            Some(d) => Some(d.clone()),
            None => None,
        };
        ColumnSchema {
            name: self.name.clone(),
            data_type: self.data_type,
            primary_key: self.primary_key,
            auto_increment: self.auto_increment,
            unique: self.unique,
            not_null: self.not_null,
            default,
        }
    }
}

/// Column fragments joined with `, `.
pub open spec fn column_list(cols: Seq<ColumnView>) -> Seq<char>
    decreases cols.len(),
{
    if cols.len() == 0 {
        Seq::empty()
    } else if cols.len() == 1 {
        column_sql(cols[0])
    } else {
        column_list(cols.drop_last()) + ", "@ + column_sql(cols.last())
    }
}

/// The column list of a `CREATE TABLE` statement, in the order given.
pub fn render_columns(cols: &Vec<ColumnSchema>) -> (r: String)
    ensures
        r@ == column_list(column_views(cols@)),
{
    let mut out = String::new();
    let n = cols.len();
    let mut i: usize = 0;
    while i < n
        invariant
            n == cols@.len(),
            i <= n,
            out@ == column_list(column_views(cols@).subrange(0, i as int)),
        decreases n - i,
    {
        let ghost views = column_views(cols@);
        let fragment = cols[i].to_sql();
        assert(views.subrange(0, i + 1).drop_last() =~= views.subrange(0, i as int));
        assert(views.subrange(0, i + 1).last() == cols@[i as int]@);
        if i > 0 {
            out.append(", ");
        } else {
            assert(views.subrange(0, 1) =~= seq![views[0]]);
            assert(out@ =~= Seq::<char>::empty());
        }
        out.append(fragment.as_str());
        i = i + 1;
    }
    assert(column_views(cols@).subrange(0, n as int) =~= column_views(cols@));
    out
}

/// A letter or an underscore.
pub open spec fn ident_start(c: char) -> bool {
    ('a' <= c && c <= 'z') || ('A' <= c && c <= 'Z') || c == '_'
}

/// A letter, a digit or an underscore.
pub open spec fn ident_char(c: char) -> bool {
    ident_start(c) || ('0' <= c && c <= '9')
}

/// A plain SQL identifier: a letter or underscore, then letters, digits and
/// underscores. Only such names are formatted into statements.
pub open spec fn is_identifier(s: Seq<char>) -> bool {
    &&& s.len() > 0
    &&& ident_start(s[0])
    &&& forall|i: int| 0 <= i < s.len() ==> ident_char(#[trigger] s[i])
}

fn char_starts_identifier(c: char) -> (r: bool)
    ensures
        r == ident_start(c),
{
    ('a' <= c && c <= 'z') || ('A' <= c && c <= 'Z') || c == '_'
}

fn char_continues_identifier(c: char) -> (r: bool)
    ensures
        r == ident_char(c),
{
    char_starts_identifier(c) || ('0' <= c && c <= '9')
}

/// Whether `s` is a plain SQL identifier.
pub fn valid_identifier(s: &str) -> (r: bool)
    ensures
        r == is_identifier(s@),
{
    let n = s.unicode_len();
    if n == 0 {
        return false;
    }
    if !char_starts_identifier(s.get_char(0)) {
        return false;
    }
    let mut i: usize = 0;
    while i < n
        invariant
            n == s@.len(),
            i <= n,
            forall|j: int| 0 <= j < i ==> ident_char(#[trigger] s@[j]),
        decreases n - i,
    {
        if !char_continues_identifier(s.get_char(i)) {
            return false;
        }
        i = i + 1;
    }
    true
}

/// Whether two texts are the same, character for character.
pub fn same_text(a: &str, b: &str) -> (r: bool)
    ensures
        r == (a@ == b@),
{
    let n = a.unicode_len();
    if n != b.unicode_len() {
        return false;
    }
    let mut i: usize = 0;
    while i < n
        invariant
            n == a@.len(),
            n == b@.len(),
            i <= n,
            forall|j: int| 0 <= j < i ==> a@[j] == b@[j],
        decreases n - i,
    {
        if a.get_char(i) != b.get_char(i) {
            return false;
        }
        i = i + 1;
    }
    assert(a@ =~= b@);
    true
}

/// A column without flags or default renders as its name, a space and its
/// engine type, and every data type has a non-empty engine type.
pub proof fn lemma_plain_column(c: ColumnView)
    requires
        !is_set(c.primary_key),
        !is_set(c.auto_increment),
        !is_set(c.unique),
        !is_set(c.not_null),
        c.default is None,
    ensures
        column_sql(c) == c.name + " "@ + engine_type(c.data_type),
        engine_type(c.data_type).len() > 0,
{
    reveal_strlit("TEXT");
    reveal_strlit("INTEGER");
    reveal_strlit("REAL");
    reveal_strlit("BOOLEAN");
    reveal_strlit("TIMESTAMP");
    let base = c.name + " "@ + engine_type(c.data_type);
    assert(column_sql(c) =~= base);
}

/// A column with every flag set and a default renders its clauses in the
/// fixed order primary key, autoincrement, unique, not null, default.
pub proof fn lemma_clause_order(c: ColumnView, d: Seq<char>)
    requires
        is_set(c.primary_key),
        is_set(c.auto_increment),
        is_set(c.unique),
        is_set(c.not_null),
        c.default == Some(d),
    ensures
        column_sql(c) == c.name + " "@ + engine_type(c.data_type) + " PRIMARY KEY"@
            + " AUTOINCREMENT"@ + " UNIQUE"@ + " NOT NULL"@ + " DEFAULT "@ + d,
{
    assert(column_sql(c) =~= c.name + " "@ + engine_type(c.data_type) + " PRIMARY KEY"@
        + " AUTOINCREMENT"@ + " UNIQUE"@ + " NOT NULL"@ + " DEFAULT "@ + d);
}

} // verus!
