//! The node catalog: the closed set of SQL tree shapes that a writer renders.
//! A parser's own tree is converted into these types before rendering.
use vstd::prelude::*;

verus! {

/// A qualified identifier such as `schema.table`; its parts are kept in order.
pub struct ObjectName(pub Vec<String>);

pub enum DateTimeField {
    Year,
    Month,
    Day,
    Hour,
    Minute,
    Second,
}

pub enum BinaryOperator {
    Plus,
    Minus,
    Multiply,
    Divide,
    Modulus,
    Gt,
    Lt,
    GtEq,
    LtEq,
    Eq,
    NotEq,
    And,
    Or,
    Like,
    NotLike,
}

pub enum UnaryOperator {
    Plus,
    Minus,
    Not,
}

/// A scalar literal.
pub enum Value {
    Number(String),
    SingleQuotedString(String),
    NationalStringLiteral(String),
    HexStringLiteral(String),
    Boolean(bool),
    Date(String),
    Time(String),
    Timestamp(String),
    Interval {
        value: String,
        leading_field: DateTimeField,
        leading_precision: Option<u64>,
        last_field: Option<DateTimeField>,
        fractional_seconds_precision: Option<u64>,
    },
    Null,
}

pub enum DataType {
    Char(Option<u64>),
    Varchar(Option<u64>),
    Decimal(Option<u64>, Option<u64>),
    Float(Option<u64>),
    SmallInt,
    Int,
    BigInt,
    Real,
    Double,
    Boolean,
    Date,
    Time,
    Timestamp,
    Text,
    Custom(ObjectName),
}

/// A function call `name(args)`; `over` marks a window function.
pub struct Function {
    pub name: ObjectName,
    pub args: Vec<Expr>,
    pub over: bool,
    pub distinct: bool,
}

pub enum Expr {
    Identifier(String),
    Wildcard,
    QualifiedWildcard(Vec<String>),
    CompoundIdentifier(Vec<String>),
    IsNull(Box<Expr>),
    IsNotNull(Box<Expr>),
    InList { expr: Box<Expr>, list: Vec<Expr>, negated: bool },
    InSubquery { expr: Box<Expr>, subquery: Box<Query>, negated: bool },
    Between { expr: Box<Expr>, negated: bool, low: Box<Expr>, high: Box<Expr> },
    BinaryOp { left: Box<Expr>, op: BinaryOperator, right: Box<Expr> },
    UnaryOp { op: UnaryOperator, expr: Box<Expr> },
    Cast { expr: Box<Expr>, data_type: DataType },
    Extract { field: DateTimeField, expr: Box<Expr> },
    Collate { expr: Box<Expr>, collation: ObjectName },
    Nested(Box<Expr>),
    Value(Value),
    Function(Function),
    Case {
        operand: Option<Box<Expr>>,
        conditions: Vec<Expr>,
        results: Vec<Expr>,
        else_result: Option<Box<Expr>>,
    },
    Exists(Box<Query>),
    Subquery(Box<Query>),
}

pub enum SelectItem {
    UnnamedExpr(Expr),
    ExprWithAlias { expr: Expr, alias: String },
    QualifiedWildcard(ObjectName),
    Wildcard,
}

pub struct TableAlias {
    pub name: String,
    pub columns: Vec<String>,
}

pub enum TableFactor {
    Table { name: ObjectName, alias: Option<TableAlias>, args: Vec<Expr>, with_hints: Vec<Expr> },
    Derived { lateral: bool, subquery: Box<Query>, alias: Option<TableAlias> },
    NestedJoin(Box<TableWithJoins>),
}

pub enum JoinConstraint {
    On(Expr),
    Using(Vec<String>),
    Natural,
}

pub enum JoinOperator {
    Inner(JoinConstraint),
    LeftOuter(JoinConstraint),
    RightOuter(JoinConstraint),
    FullOuter(JoinConstraint),
    CrossJoin,
}

pub struct Join {
    pub relation: TableFactor,
    pub join_operator: JoinOperator,
}

pub struct TableWithJoins {
    pub relation: TableFactor,
    pub joins: Vec<Join>,
}

pub struct Select {
    pub distinct: bool,
    pub projection: Vec<SelectItem>,
    pub from: Vec<TableWithJoins>,
    pub selection: Option<Expr>,
    pub group_by: Vec<Expr>,
    pub having: Option<Expr>,
}

pub enum SetOperator {
    Union,
    Except,
    Intersect,
}

/// Literal rows of a `VALUES` list.
pub struct Values(pub Vec<Vec<Expr>>);

pub enum SetExpr {
    Select(Box<Select>),
    Query(Box<Query>),
    SetOperation { op: SetOperator, all: bool, left: Box<SetExpr>, right: Box<SetExpr> },
    Values(Values),
}

/// One `ORDER BY` entry; `asc` is `None` when no direction was written.
pub struct OrderByExpr {
    pub expr: Expr,
    pub asc: Option<bool>,
}

pub struct Cte {
    pub alias: TableAlias,
    pub query: Query,
}

pub struct Query {
    pub ctes: Vec<Cte>,
    pub body: SetExpr,
    pub order_by: Vec<OrderByExpr>,
}

pub struct Assignment {
    pub id: String,
    pub value: Expr,
}

pub enum ColumnOption {
    Null,
    NotNull,
    Default(Expr),
    Unique { is_primary: bool },
    ForeignKey { foreign_table: ObjectName, referred_columns: Vec<String> },
    Check(Expr),
}

pub struct ColumnOptionDef {
    pub name: Option<String>,
    pub option: ColumnOption,
}

pub struct ColumnDef {
    pub name: String,
    pub data_type: DataType,
    pub collation: Option<ObjectName>,
    pub options: Vec<ColumnOptionDef>,
}

pub enum Statement {
    Query(Box<Query>),
    Other,
}

} // verus!
