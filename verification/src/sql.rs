//! SQL values as the database stores them, the statements that carry them, and
//! the typed reading of a result row column by column.
//!
//! The reading rules are those of typed column access in the rusqlite crate
//! (`Row::get` with `FromSql` for `i64`, `i32`, `String`, `Option<String>` and
//! `f64`): which storage classes each type accepts, and which error names the
//! column otherwise.
use vstd::prelude::*;
use vstd::string::*;
use crate::text::{append_int, int_text};

verus! {

/// The storage class of a SQL value.
#[derive(Debug, Clone, Copy, PartialEq, Eq, Structural)]
pub enum SqlType {
    Null,
    Integer,
    Real,
    Text,
    Blob,
}

/// A floating-point number as the database hands it over: either the IEEE-754
/// bit pattern of a 64-bit float (`f64::to_bits`), or an integer that stands for
/// the float nearest to it (what `i as f64` gives), which is how an integer read
/// where a float is expected is taken.
#[derive(Debug, Clone, Copy, PartialEq, Eq, Structural)]
pub enum RealNumber {
    Bits(u64),
    Integer(i64),
}

/// One SQL value, either bound to a statement parameter or read from a column.
///
/// A floating-point value is carried by its IEEE-754 bit pattern; a parameter
/// can also be the float nearest to an integer, converted when it is bound.
/// Text that the database returned but that is not valid UTF-8 is kept as its
/// raw bytes.
#[derive(Debug, Clone, PartialEq)]
pub enum SqlValue {
    Null,
    Integer(i64),
    Real(u64),
    RealFromInteger(i64),
    Text(String),
    Blob(Vec<u8>),
    InvalidUtf8Text(Vec<u8>),
}

/// The mathematical content of a [`SqlValue`].
pub enum SqlValueView {
    Null,
    Integer(i64),
    Real(u64),
    RealFromInteger(i64),
    Text(Seq<char>),
    Blob(Seq<u8>),
    InvalidUtf8Text(Seq<u8>),
}

impl DeepView for SqlValue {
    type V = SqlValueView;

    open spec fn deep_view(&self) -> SqlValueView {
        match self {
            SqlValue::Null => SqlValueView::Null,
            SqlValue::Integer(i) => SqlValueView::Integer(*i),
            SqlValue::Real(b) => SqlValueView::Real(*b),
            SqlValue::RealFromInteger(i) => SqlValueView::RealFromInteger(*i),
            SqlValue::Text(s) => SqlValueView::Text(s@),
            SqlValue::Blob(b) => SqlValueView::Blob(b@),
            SqlValue::InvalidUtf8Text(b) => SqlValueView::InvalidUtf8Text(b@),
        }
    }
}

/// The storage class of a value.
pub open spec fn type_of(v: SqlValueView) -> SqlType {
    match v {
        SqlValueView::Null => SqlType::Null,
        SqlValueView::Integer(_) => SqlType::Integer,
        SqlValueView::Real(_) => SqlType::Real,
        SqlValueView::RealFromInteger(_) => SqlType::Real,
        SqlValueView::Text(_) => SqlType::Text,
        SqlValueView::Blob(_) => SqlType::Blob,
        SqlValueView::InvalidUtf8Text(_) => SqlType::Text,
    }
}

impl SqlValue {
    /// The storage class of this value.
    pub fn data_type(&self) -> (r: SqlType)
        ensures
            r == type_of(self.deep_view()),
    {
        match self {
            SqlValue::Null => SqlType::Null,
            SqlValue::Integer(_) => SqlType::Integer,
            SqlValue::Real(_) => SqlType::Real,
            SqlValue::RealFromInteger(_) => SqlType::Real,
            SqlValue::Text(_) => SqlType::Text,
            SqlValue::Blob(_) => SqlType::Blob,
            SqlValue::InvalidUtf8Text(_) => SqlType::Text,
        }
    }
}

/// The errors that the record logic itself produces.
#[derive(Debug, Clone, Copy, PartialEq, Eq, Structural)]
pub enum StoreError {
    /// A column index past the end of the row.
    InvalidColumnIndex(usize),
    /// A column whose value has a storage class that the requested type does not accept.
    InvalidColumnType(usize, SqlType),
    /// An integer column whose value does not fit the requested integer type.
    IntegralValueOutOfRange(usize, i64),
    /// A text column whose bytes are not valid UTF-8.
    Utf8Error(usize),
    /// An order row whose order type is none of the known names.
    InvalidOrderType,
    /// An order row whose status is none of the known names.
    InvalidStatus,
    /// A record whose id is already used by another record of its table.
    DuplicateId(i32),
}

/// The message of an error that this library reports in words of its own:
/// a refused duplicate id, or an order row with an unknown order type or status.
pub open spec fn error_message(e: StoreError) -> Option<Seq<char>> {
    match e {
        StoreError::DuplicateId(id) => Some(
            "Item ID "@ + int_text(id as int) + " is already beeing used."@,
        ),
        StoreError::InvalidOrderType => Some("Invalid order_type"@),
        StoreError::InvalidStatus => Some("Invalid status"@),
        _ => None,
    }
}

impl StoreError {
    /// The message of this error, for the errors that carry one of their own;
    /// `None` for the column errors, which the database layer describes.
    pub fn message(&self) -> (r: Option<String>)
        ensures
            match r {
                Some(s) => error_message(*self) == Some(s@),
                None => error_message(*self) is None,
            },
    {
        match self {
            StoreError::DuplicateId(id) => {
                let mut s = String::new();
                s.append("Item ID ");
                append_int(&mut s, *id as i64);
                s.append(" is already beeing used.");
                Some(s)
            },
            StoreError::InvalidOrderType => Some(String::from_str("Invalid order_type")),
            StoreError::InvalidStatus => Some(String::from_str("Invalid status")),
            _ => None,
        }
    }
}

/// A SQL statement and the values bound to its numbered parameters, in order.
#[derive(Debug, Clone, PartialEq)]
pub struct Statement {
    pub sql: String,
    pub params: Vec<SqlValue>,
}

/// The mathematical content of a [`Statement`].
pub struct StatementView {
    pub sql: Seq<char>,
    pub params: Seq<SqlValueView>,
}

impl DeepView for Statement {
    type V = StatementView;

    open spec fn deep_view(&self) -> StatementView {
        StatementView { sql: self.sql@, params: self.params.deep_view() }
    }
}

/// A SQL statement that is prepared once and executed once for each parameter
/// row, in order. With no parameter row it is only prepared. A plan of batches
/// is run step by step with [`crate::run::PlanRunner`].
#[derive(Debug, Clone, PartialEq)]
pub struct Batch {
    pub sql: String,
    pub param_rows: Vec<Vec<SqlValue>>,
}

/// The mathematical content of a [`Batch`].
pub struct BatchView {
    pub sql: Seq<char>,
    pub param_rows: Seq<Seq<SqlValueView>>,
}

impl DeepView for Batch {
    type V = BatchView;

    open spec fn deep_view(&self) -> BatchView {
        BatchView { sql: self.sql@, param_rows: self.param_rows.deep_view() }
    }
}

impl Batch {
    /// The batch that executes one statement once.
    pub fn single(statement: Statement) -> (r: Batch)
        ensures
            r.deep_view() == (BatchView {
                sql: statement.deep_view().sql,
                param_rows: seq![statement.deep_view().params],
            }),
    {
        let Statement { sql, params } = statement;
        let mut param_rows: Vec<Vec<SqlValue>> = Vec::new();
        param_rows.push(params);
        let r = Batch { sql, param_rows };
        assert(r.deep_view().param_rows =~= seq![statement.deep_view().params]);
        r
    }
}

/// Reading a column as a 64-bit integer: only an integer value is accepted.
pub open spec fn read_i64(row: Seq<SqlValueView>, idx: int) -> Result<i64, StoreError> {
    if idx < 0 || idx >= row.len() {
        Err(StoreError::InvalidColumnIndex(idx as usize))
    } else {
        match row[idx] {
            SqlValueView::Integer(i) => Ok(i),
            v => Err(StoreError::InvalidColumnType(idx as usize, type_of(v))),
        }
    }
}

/// Reading a column as a 32-bit integer: an integer value that fits.
pub open spec fn read_i32(row: Seq<SqlValueView>, idx: int) -> Result<i32, StoreError> {
    match read_i64(row, idx) {
        Ok(i) => if i32::MIN <= i <= i32::MAX {
            Ok(i as i32)
        } else {
            Err(StoreError::IntegralValueOutOfRange(idx as usize, i))
        },
        Err(e) => Err(e),
    }
}

/// Reading a column as text: only a text value is accepted, and it must be UTF-8.
pub open spec fn read_text(row: Seq<SqlValueView>, idx: int) -> Result<Seq<char>, StoreError> {
    if idx < 0 || idx >= row.len() {
        Err(StoreError::InvalidColumnIndex(idx as usize))
    } else {
        match row[idx] {
            SqlValueView::Text(s) => Ok(s),
            SqlValueView::InvalidUtf8Text(_) => Err(StoreError::Utf8Error(idx as usize)),
            v => Err(StoreError::InvalidColumnType(idx as usize, type_of(v))),
        }
    }
}

/// Reading a column as optional text: null reads as `None`, anything else as text.
pub open spec fn read_optional_text(row: Seq<SqlValueView>, idx: int) -> Result<
    Option<Seq<char>>,
    StoreError,
> {
    if 0 <= idx < row.len() && row[idx] is Null {
        Ok(None)
    } else {
        match read_text(row, idx) {
            Ok(s) => Ok(Some(s)),
            Err(e) => Err(e),
        }
    }
}

/// Reading a column as a floating-point number: a real value is taken as it is,
/// and an integer value as the float nearest to it.
pub open spec fn read_real(row: Seq<SqlValueView>, idx: int) -> Result<RealNumber, StoreError> {
    if idx < 0 || idx >= row.len() {
        Err(StoreError::InvalidColumnIndex(idx as usize))
    } else {
        match row[idx] {
            SqlValueView::Real(b) => Ok(RealNumber::Bits(b)),
            SqlValueView::RealFromInteger(i) => Ok(RealNumber::Integer(i)),
            SqlValueView::Integer(i) => Ok(RealNumber::Integer(i)),
            v => Err(StoreError::InvalidColumnType(idx as usize, type_of(v))),
        }
    }
}

/// A floating-point number as a column value.
pub open spec fn real_value(n: RealNumber) -> SqlValueView {
    match n {
        RealNumber::Bits(b) => SqlValueView::Real(b),
        RealNumber::Integer(i) => SqlValueView::RealFromInteger(i),
    }
}

impl RealNumber {
    /// This number as a column value.
    pub fn to_value(&self) -> (r: SqlValue)
        ensures
            r.deep_view() == real_value(*self),
    {
        match self {
            RealNumber::Bits(b) => SqlValue::Real(*b),
            RealNumber::Integer(i) => SqlValue::RealFromInteger(*i),
        }
    }
}

/// The view of a text result.
pub open spec fn text_result(r: Result<String, StoreError>) -> Result<Seq<char>, StoreError> {
    match r {
        Ok(s) => Ok(s@),
        Err(e) => Err(e),
    }
}

/// The view of an optional text result.
pub open spec fn optional_text_result(r: Result<Option<String>, StoreError>) -> Result<
    Option<Seq<char>>,
    StoreError,
> {
    match r {
        Ok(Some(s)) => Ok(Some(s@)),
        Ok(None) => Ok(None),
        Err(e) => Err(e),
    }
}

/// Reads column `idx` as a 64-bit integer.
pub fn column_i64(row: &[SqlValue], idx: usize) -> (r: Result<i64, StoreError>)
    ensures
        r == read_i64(row.deep_view(), idx as int),
{
    if idx >= row.len() {
        return Err(StoreError::InvalidColumnIndex(idx));
    }
    match &row[idx] {
        SqlValue::Integer(i) => Ok(*i),
        v => Err(StoreError::InvalidColumnType(idx, v.data_type())),
    }
}

/// Reads column `idx` as a 32-bit integer.
pub fn column_i32(row: &[SqlValue], idx: usize) -> (r: Result<i32, StoreError>)
    ensures
        r == read_i32(row.deep_view(), idx as int),
{
    match column_i64(row, idx) {
        Ok(i) => if i32::MIN as i64 <= i && i <= i32::MAX as i64 {
            Ok(i as i32)
        } else {
            Err(StoreError::IntegralValueOutOfRange(idx, i))
        },
        Err(e) => Err(e),
    }
}

/// Reads column `idx` as text.
pub fn column_text(row: &[SqlValue], idx: usize) -> (r: Result<String, StoreError>)
    ensures
        text_result(r) == read_text(row.deep_view(), idx as int),
{
    if idx >= row.len() {
        return Err(StoreError::InvalidColumnIndex(idx));
    }
    match &row[idx] {
        SqlValue::Text(s) => Ok(s.clone()),
        SqlValue::InvalidUtf8Text(_) => Err(StoreError::Utf8Error(idx)),
        v => Err(StoreError::InvalidColumnType(idx, v.data_type())),
    }
}

/// Reads column `idx` as optional text.
pub fn column_optional_text(row: &[SqlValue], idx: usize) -> (r: Result<Option<String>, StoreError>)
    ensures
        optional_text_result(r) == read_optional_text(row.deep_view(), idx as int),
{
    if idx < row.len() {
        if let SqlValue::Null = &row[idx] {
            return Ok(None);
        }
    }
    match column_text(row, idx) {
        Ok(s) => Ok(Some(s)),
        Err(e) => Err(e),
    }
}

/// Reads column `idx` as a floating-point number.
pub fn column_real(row: &[SqlValue], idx: usize) -> (r: Result<RealNumber, StoreError>)
    ensures
        r == read_real(row.deep_view(), idx as int),
{
    if idx >= row.len() {
        return Err(StoreError::InvalidColumnIndex(idx));
    }
    match &row[idx] {
        SqlValue::Real(b) => Ok(RealNumber::Bits(*b)),
        SqlValue::RealFromInteger(i) => Ok(RealNumber::Integer(*i)),
        SqlValue::Integer(i) => Ok(RealNumber::Integer(*i)),
        v => Err(StoreError::InvalidColumnType(idx, v.data_type())),
    }
}

} // verus!
