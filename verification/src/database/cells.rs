//! What goes into a statement of SQL, and what comes out of its rows.
use crate::double::Double;
use crate::text::view_text;
use vstd::prelude::*;

verus! {

/// A value that is bound to a statement.
#[derive(Debug)]
pub enum SqlParam {
    Null,
    Integer(i64),
    Real(Double),
    Text(String),
}

pub enum SqlParamView {
    Null,
    Integer(i64),
    Real(Double),
    Text(Seq<char>),
}

impl View for SqlParam {
    type V = SqlParamView;

    open spec fn view(&self) -> SqlParamView {
        match *self {
            SqlParam::Null => SqlParamView::Null,
            SqlParam::Integer(n) => SqlParamView::Integer(n),
            SqlParam::Real(d) => SqlParamView::Real(d),
            SqlParam::Text(t) => SqlParamView::Text(t@),
        }
    }
}

/// The values in specifications.
pub open spec fn view_params(params: Seq<SqlParam>) -> Seq<SqlParamView> {
    params.map_values(|p: SqlParam| p@)
}

/// A statement of SQL with the values that are bound to it.
#[derive(Debug)]
pub struct Statement {
    pub sql: String,
    pub params: Vec<SqlParam>,
}

#[verifier::ext_equal]
pub struct StatementView {
    pub sql: Seq<char>,
    pub params: Seq<SqlParamView>,
}

impl View for Statement {
    type V = StatementView;

    open spec fn view(&self) -> StatementView {
        StatementView { sql: self.sql@, params: view_params(self.params@) }
    }
}

/// The statements in specifications.
pub open spec fn view_statements(statements: Seq<Statement>) -> Seq<StatementView> {
    statements.map_values(|s: Statement| s@)
}

/// A text, or nothing, as a value that is bound.
pub open spec fn text_or_null(text: Option<Seq<char>>) -> SqlParamView {
    match text {
        Some(t) => SqlParamView::Text(t),
        None => SqlParamView::Null,
    }
}

/// A number, or nothing, as a value that is bound.
pub open spec fn double_or_null(d: Option<Double>) -> SqlParamView {
    match d {
        Some(d) => SqlParamView::Real(d),
        None => SqlParamView::Null,
    }
}

/// A small integer, or nothing, as a value that is bound.
pub open spec fn small_or_null(n: Option<i32>) -> SqlParamView {
    match n {
        Some(n) => SqlParamView::Integer(n as i64),
        None => SqlParamView::Null,
    }
}

pub(crate) fn text_param(text: &str) -> (r: SqlParam)
    ensures
        r@ == SqlParamView::Text(text@),
{
    SqlParam::Text(text.to_owned())
}

pub(crate) fn optional_text_param(text: &Option<String>) -> (r: SqlParam)
    ensures
        r@ == text_or_null(view_text(*text)),
{
    match text {
        Some(t) => SqlParam::Text(t.clone()),
        None => SqlParam::Null,
    }
}

pub(crate) fn optional_double_param(d: Option<Double>) -> (r: SqlParam)
    ensures
        r@ == double_or_null(d),
{
    match d {
        Some(d) => SqlParam::Real(d),
        None => SqlParam::Null,
    }
}

pub(crate) fn optional_small_param(n: Option<i32>) -> (r: SqlParam)
    ensures
        r@ == small_or_null(n),
{
    match n {
        Some(n) => SqlParam::Integer(n as i64),
        None => SqlParam::Null,
    }
}

/// A value of a row.
#[derive(Debug)]
pub enum SqlCell {
    Null,
    /// An integer, with the double that is nearest to it.
    Integer(i64, Double),
    Real(Double),
    Text(String),
    /// A text that is not well formed.
    BadText,
    /// Bytes.
    Other,
}

pub enum SqlCellView {
    Null,
    Integer(i64, Double),
    Real(Double),
    Text(Seq<char>),
    BadText,
    Other,
}

impl View for SqlCell {
    type V = SqlCellView;

    open spec fn view(&self) -> SqlCellView {
        match *self {
            SqlCell::Null => SqlCellView::Null,
            SqlCell::Integer(n, d) => SqlCellView::Integer(n, d),
            SqlCell::Real(d) => SqlCellView::Real(d),
            SqlCell::Text(t) => SqlCellView::Text(t@),
            SqlCell::BadText => SqlCellView::BadText,
            SqlCell::Other => SqlCellView::Other,
        }
    }
}

/// The row in specifications.
pub open spec fn view_row(row: Seq<SqlCell>) -> Seq<SqlCellView> {
    row.map_values(|c: SqlCell| c@)
}

/// The rows in specifications.
pub open spec fn view_rows(rows: Seq<Vec<SqlCell>>) -> Seq<Seq<SqlCellView>> {
    rows.map_values(|row: Vec<SqlCell>| view_row(row@))
}

/// What is read from a column.
#[derive(Debug, Clone, Copy, PartialEq, Eq, Structural)]
pub enum ColumnKind {
    Text,
    OptionalText,
    Integer,
    SmallInteger,
    OptionalSmallInteger,
    Number,
    OptionalNumber,
}

/// Why a value cannot be read.
#[derive(Debug, Clone, Copy, PartialEq, Eq, Structural)]
pub enum CellFault {
    NoSuchColumn,
    WrongType,
    /// It is a text, but not well formed.
    BadText,
    OutOfRange(i64),
}

/// A value of a row that cannot be read.
#[derive(Debug, Clone, Copy, PartialEq, Eq, Structural)]
pub struct CellError {
    pub column: usize,
    pub fault: CellFault,
}

/// Why a cell cannot be read as a column of a kind; nothing where it can.
pub open spec fn cell_fault(kind: ColumnKind, cell: SqlCellView) -> Option<CellFault> {
    match (kind, cell) {
        (ColumnKind::Text, SqlCellView::Text(_)) => None,
        (ColumnKind::Text, SqlCellView::BadText) => Some(CellFault::BadText),
        (ColumnKind::OptionalText, SqlCellView::Text(_)) => None,
        (ColumnKind::OptionalText, SqlCellView::BadText) => Some(CellFault::BadText),
        (ColumnKind::OptionalText, SqlCellView::Null) => None,
        (ColumnKind::Integer, SqlCellView::Integer(_, _)) => None,
        (ColumnKind::SmallInteger, SqlCellView::Integer(n, _)) => small_fault(n),
        (ColumnKind::OptionalSmallInteger, SqlCellView::Integer(n, _)) => small_fault(n),
        (ColumnKind::OptionalSmallInteger, SqlCellView::Null) => None,
        (ColumnKind::Number, SqlCellView::Integer(_, _)) => None,
        (ColumnKind::Number, SqlCellView::Real(_)) => None,
        (ColumnKind::OptionalNumber, SqlCellView::Integer(_, _)) => None,
        (ColumnKind::OptionalNumber, SqlCellView::Real(_)) => None,
        (ColumnKind::OptionalNumber, SqlCellView::Null) => None,
        _ => Some(CellFault::WrongType),
    }
}

/// Why an integer is no small integer.
pub open spec fn small_fault(n: i64) -> Option<CellFault> {
    if i32::MIN <= n <= i32::MAX {
        None
    } else {
        Some(CellFault::OutOfRange(n))
    }
}

/// The first column, from one on, that cannot be read.
pub open spec fn fault_from(
    row: Seq<SqlCellView>,
    kinds: Seq<ColumnKind>,
    from: int,
) -> Option<CellError>
    decreases kinds.len() - from,
{
    if from < 0 || from >= kinds.len() {
        None
    } else if from >= row.len() {
        Some(CellError { column: from as usize, fault: CellFault::NoSuchColumn })
    } else {
        match cell_fault(kinds[from], row[from]) {
            Some(fault) => Some(CellError { column: from as usize, fault }),
            None => fault_from(row, kinds, from + 1),
        }
    }
}

/// The first column of a row that cannot be read.
pub open spec fn row_fault(row: Seq<SqlCellView>, kinds: Seq<ColumnKind>) -> Option<CellError> {
    fault_from(row, kinds, 0)
}

/// Where no column is at fault, each can be read.
pub(crate) proof fn lemma_row_is_sound(row: Seq<SqlCellView>, kinds: Seq<ColumnKind>, from: int)
    requires
        fault_from(row, kinds, from) is None,
        0 <= from <= kinds.len(),
    ensures
        from < kinds.len() ==> kinds.len() <= row.len(),
        forall|i: int|
            from <= i < kinds.len() ==> cell_fault(#[trigger] kinds[i], row[i]) is None,
    decreases kinds.len() - from,
{
    if from < kinds.len() {
        lemma_row_is_sound(row, kinds, from + 1);
    }
}

/// Where each column can be read, none is at fault.
pub(crate) proof fn lemma_sound_row(row: Seq<SqlCellView>, kinds: Seq<ColumnKind>, from: int)
    requires
        kinds.len() <= row.len(),
        0 <= from <= kinds.len(),
        forall|i: int|
            from <= i < kinds.len() ==> cell_fault(#[trigger] kinds[i], row[i]) is None,
    ensures
        fault_from(row, kinds, from) is None,
    decreases kinds.len() - from,
{
    if from < kinds.len() {
        lemma_sound_row(row, kinds, from + 1);
    }
}

fn small_integer_fault(n: i64) -> (r: Option<CellFault>)
    ensures
        r == small_fault(n),
{
    if -2_147_483_648 <= n && n <= 2_147_483_647 {
        None
    } else {
        Some(CellFault::OutOfRange(n))
    }
}

fn fault_of_cell(kind: ColumnKind, cell: &SqlCell) -> (r: Option<CellFault>)
    ensures
        r == cell_fault(kind, cell@),
{
    match kind {
        ColumnKind::Text => match cell {
            SqlCell::Text(_) => None,
            SqlCell::BadText => Some(CellFault::BadText),
            _ => Some(CellFault::WrongType),
        },
        ColumnKind::OptionalText => match cell {
            SqlCell::Text(_) => None,
            SqlCell::BadText => Some(CellFault::BadText),
            SqlCell::Null => None,
            _ => Some(CellFault::WrongType),
        },
        ColumnKind::Integer => match cell {
            SqlCell::Integer(_, _) => None,
            _ => Some(CellFault::WrongType),
        },
        ColumnKind::SmallInteger => match cell {
            SqlCell::Integer(n, _) => small_integer_fault(*n),
            _ => Some(CellFault::WrongType),
        },
        ColumnKind::OptionalSmallInteger => match cell {
            SqlCell::Integer(n, _) => small_integer_fault(*n),
            SqlCell::Null => None,
            _ => Some(CellFault::WrongType),
        },
        ColumnKind::Number => match cell {
            SqlCell::Integer(_, _) => None,
            SqlCell::Real(_) => None,
            _ => Some(CellFault::WrongType),
        },
        ColumnKind::OptionalNumber => match cell {
            SqlCell::Integer(_, _) => None,
            SqlCell::Real(_) => None,
            SqlCell::Null => None,
            _ => Some(CellFault::WrongType),
        },
    }
}

/// The first column of a row that cannot be read.
pub(crate) fn fault_of_row(row: &Vec<SqlCell>, kinds: &Vec<ColumnKind>) -> (r: Option<CellError>)
    ensures
        r == row_fault(view_row(row@), kinds@),
{
    let mut i: usize = 0;
    while i < kinds.len()
        invariant
            i <= kinds@.len(),
            row_fault(view_row(row@), kinds@) == fault_from(view_row(row@), kinds@, i as int),
        decreases kinds.len() - i,
    {
        if i >= row.len() {
            return Some(CellError { column: i, fault: CellFault::NoSuchColumn });
        }
        match fault_of_cell(kinds[i], &row[i]) {
            Some(fault) => {
                return Some(CellError { column: i, fault });
            },
            None => {},
        }
        i += 1;
    }
    None
}

impl SqlCellView {
    /// The text of a cell that holds one.
    pub open spec fn text(self) -> Seq<char> {
        match self {
            SqlCellView::Text(t) => t,
            _ => Seq::empty(),
        }
    }

    /// The text of a cell; nothing where it is empty.
    pub open spec fn optional_text(self) -> Option<Seq<char>> {
        match self {
            SqlCellView::Text(t) => Some(t),
            _ => None,
        }
    }

    /// The integer of a cell that holds one.
    pub open spec fn integer(self) -> i64 {
        match self {
            SqlCellView::Integer(n, _) => n,
            _ => 0,
        }
    }

    /// The small integer of a cell; nothing where it is empty.
    pub open spec fn optional_small(self) -> Option<i32> {
        match self {
            SqlCellView::Integer(n, _) => Some(n as i32),
            _ => None,
        }
    }

    /// The number of a cell; nothing where it is empty.
    pub open spec fn optional_number(self) -> Option<Double> {
        match self {
            SqlCellView::Integer(_, d) => Some(d),
            SqlCellView::Real(d) => Some(d),
            _ => None,
        }
    }

    /// The number of a cell that holds one.
    pub open spec fn number(self) -> Double {
        match self.optional_number() {
            Some(d) => d,
            None => Double { bits: 0 },
        }
    }
}

impl SqlCell {
    pub(crate) fn text(&self) -> (r: String)
        ensures
            r@ == self@.text(),
    {
        match self {
            SqlCell::Text(t) => t.clone(),
            _ => {
                let empty = String::new();
                assert(empty@ =~= Seq::<char>::empty());
                empty
            },
        }
    }

    pub(crate) fn optional_text(&self) -> (r: Option<String>)
        ensures
            view_text(r) == self@.optional_text(),
    {
        match self {
            SqlCell::Text(t) => Some(t.clone()),
            _ => None,
        }
    }

    pub(crate) fn integer(&self) -> (r: i64)
        ensures
            r == self@.integer(),
    {
        match self {
            SqlCell::Integer(n, _) => *n,
            _ => 0,
        }
    }

    pub(crate) fn optional_small(&self) -> (r: Option<i32>)
        requires
            cell_fault(ColumnKind::OptionalSmallInteger, self@) is None,
        ensures
            r == self@.optional_small(),
    {
        match self {
            SqlCell::Integer(n, _) => Some(*n as i32),
            _ => None,
        }
    }

    pub(crate) fn small(&self) -> (r: i32)
        requires
            cell_fault(ColumnKind::SmallInteger, self@) is None,
        ensures
            r == self@.integer(),
    {
        match self {
            SqlCell::Integer(n, _) => *n as i32,
            _ => 0,
        }
    }

    pub(crate) fn optional_number(&self) -> (r: Option<Double>)
        ensures
            r == self@.optional_number(),
    {
        match self {
            SqlCell::Integer(_, d) => Some(*d),
            SqlCell::Real(d) => Some(*d),
            _ => None,
        }
    }

    pub(crate) fn number(&self) -> (r: Double)
        ensures
            r == self@.number(),
    {
        match self.optional_number() {
            Some(d) => d,
            None => Double { bits: 0 },
        }
    }
}

/// Which cells can be read as which columns.
pub proof fn law_readable_cells(cell: SqlCellView)
    ensures
        cell_fault(ColumnKind::Text, cell) is None <==> cell is Text,
        cell_fault(ColumnKind::OptionalText, cell) is None <==> cell is Text || cell is Null,
        cell_fault(ColumnKind::Integer, cell) is None <==> cell is Integer,
        cell_fault(ColumnKind::SmallInteger, cell) is None <==> cell is Integer && i32::MIN
            <= cell->Integer_0 <= i32::MAX,
        cell_fault(ColumnKind::OptionalSmallInteger, cell) is None <==> cell is Null || cell is Integer
            && i32::MIN <= cell->Integer_0 <= i32::MAX,
        cell_fault(ColumnKind::Number, cell) is None <==> cell is Integer || cell is Real,
        cell_fault(ColumnKind::OptionalNumber, cell) is None <==> cell is Integer || cell is Real
            || cell is Null,
{
}

/// Why a cell cannot be read: an integer that is too large, a text that is not well
/// formed, or a value of another type.
pub proof fn law_faults_are_told_apart(kind: ColumnKind, cell: SqlCellView)
    ensures
        match cell_fault(kind, cell) {
            Some(CellFault::OutOfRange(n)) => cell is Integer && cell->Integer_0 == n && (kind
                is SmallInteger || kind is OptionalSmallInteger) && !(i32::MIN <= n <= i32::MAX),
            Some(CellFault::BadText) => cell is BadText && (kind is Text || kind is OptionalText),
            Some(CellFault::NoSuchColumn) => false,
            Some(CellFault::WrongType) => !(cell is BadText && (kind is Text || kind
                is OptionalText)) && !(cell is Integer && (kind is SmallInteger || kind
                is OptionalSmallInteger)),
            None => true,
        },
{
}

/// A row can be read exactly if it has all columns and each can be read; otherwise the
/// first column that cannot is told.
pub proof fn law_first_fault_is_told(row: Seq<SqlCellView>, kinds: Seq<ColumnKind>)
    requires
        kinds.len() <= usize::MAX,
    ensures
        match row_fault(row, kinds) {
            None => kinds.len() <= row.len() && forall|i: int|
                0 <= i < kinds.len() ==> cell_fault(#[trigger] kinds[i], row[i]) is None,
            Some(error) => {
                &&& error.column < kinds.len()
                &&& forall|i: int|
                    0 <= i < error.column ==> i < row.len() && cell_fault(
                        #[trigger] kinds[i],
                        row[i],
                    ) is None
                &&& error.column >= row.len() ==> error.fault is NoSuchColumn
                &&& error.column < row.len() ==> cell_fault(
                    kinds[error.column as int],
                    row[error.column as int],
                ) == Some(error.fault)
            },
        },
{
    lemma_first_fault(row, kinds, 0);
}

proof fn lemma_first_fault(row: Seq<SqlCellView>, kinds: Seq<ColumnKind>, from: int)
    requires
        kinds.len() <= usize::MAX,
        0 <= from <= kinds.len(),
        forall|i: int|
            0 <= i < from ==> i < row.len() && cell_fault(#[trigger] kinds[i], row[i]) is None,
    ensures
        match fault_from(row, kinds, from) {
            None => kinds.len() <= row.len() && forall|i: int|
                0 <= i < kinds.len() ==> cell_fault(#[trigger] kinds[i], row[i]) is None,
            Some(error) => {
                &&& error.column < kinds.len()
                &&& forall|i: int|
                    0 <= i < error.column ==> i < row.len() && cell_fault(
                        #[trigger] kinds[i],
                        row[i],
                    ) is None
                &&& error.column >= row.len() ==> error.fault is NoSuchColumn
                &&& error.column < row.len() ==> cell_fault(
                    kinds[error.column as int],
                    row[error.column as int],
                ) == Some(error.fault)
            },
        },
    decreases kinds.len() - from,
{
    if from < kinds.len() {
        if from < row.len() && cell_fault(kinds[from], row[from]) is None {
            lemma_first_fault(row, kinds, from + 1);
        }
    } else if from > 0 {
        assert(from - 1 < row.len() && cell_fault(kinds[from - 1], row[from - 1]) is None);
    }
}

/// In specifications statements keep their order, their text and the values that are
/// bound.
pub proof fn law_statements_in_specifications(statements: Seq<Statement>, i: int, k: int)
    requires
        0 <= i < statements.len(),
        0 <= k < statements[i].params@.len(),
    ensures
        view_statements(statements).len() == statements.len(),
        view_statements(statements)[i].sql == statements[i].sql@,
        view_statements(statements)[i].params.len() == statements[i].params@.len(),
        view_statements(statements)[i].params[k] == match statements[i].params@[k] {
            SqlParam::Null => SqlParamView::Null,
            SqlParam::Integer(n) => SqlParamView::Integer(n),
            SqlParam::Real(d) => SqlParamView::Real(d),
            SqlParam::Text(t) => SqlParamView::Text(t@),
        },
{
}

/// In specifications rows keep their order, and cells what they hold.
pub proof fn law_rows_in_specifications(rows: Seq<Vec<SqlCell>>, i: int, k: int)
    requires
        0 <= i < rows.len(),
        0 <= k < rows[i]@.len(),
    ensures
        view_rows(rows).len() == rows.len(),
        view_rows(rows)[i] == view_row(rows[i]@),
        view_rows(rows)[i].len() == rows[i]@.len(),
        view_rows(rows)[i][k] == match rows[i]@[k] {
            SqlCell::Null => SqlCellView::Null,
            SqlCell::Integer(n, d) => SqlCellView::Integer(n, d),
            SqlCell::Real(d) => SqlCellView::Real(d),
            SqlCell::Text(t) => SqlCellView::Text(t@),
            SqlCell::BadText => SqlCellView::BadText,
            SqlCell::Other => SqlCellView::Other,
        },
{
}

}
