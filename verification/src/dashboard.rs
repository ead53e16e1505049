//! The dashboard endpoint's decisions.
//!
//! A dashboard request names one of three graphs; two of them aggregate
//! over a date range that the request must carry. The SQL that groups
//! rows by month or by day differs per database backend; which function
//! and format string each backend gets is decided here, and the caller
//! only assembles the query from the answer.

use vstd::prelude::*;

verus! {

/// The database backends the panel runs on.
#[derive(Debug, Clone, Copy, PartialEq, Eq, Structural)]
pub enum DbBackend {
    MySql,
    Postgres,
    Sqlite,
}

/// How far a date is truncated when grouping.
#[derive(Debug, Clone, Copy, PartialEq, Eq, Structural)]
pub enum DateGranularity {
    YearMonth,
    Day,
}

/// A date-formatting call: which SQL function to call and with which
/// format string; some backends take the format before the column.
#[derive(Debug, Clone)]
pub struct DateFormatCall {
    /// Name of the SQL function.
    pub function: String,
    /// The format string handed to it.
    pub format: String,
    /// Whether the format argument comes before the column argument.
    pub format_first: bool,
}

/// The call that truncates a date column to `granularity` on `backend`.
pub fn date_format_call(backend: DbBackend, granularity: DateGranularity) -> (r: DateFormatCall)
    ensures
        backend is MySql ==> r.function@ == "DATE_FORMAT"@ && !r.format_first,
        backend is Postgres ==> r.function@ == "TO_CHAR"@ && !r.format_first,
        backend is Sqlite ==> r.function@ == "STRFTIME"@ && r.format_first,
        backend is Postgres ==> r.format@ == (if granularity is YearMonth {
            "YYYY-mm"@
        } else {
            "YYYY-mm-dd"@
        }),
        !(backend is Postgres) ==> r.format@ == (if granularity is YearMonth {
            "%Y-%m"@
        } else {
            "%Y-%m-%d"@
        }),
{
    match backend {
        DbBackend::MySql => DateFormatCall {
            function: "DATE_FORMAT".to_owned(),
            format: match granularity {
                DateGranularity::YearMonth => "%Y-%m".to_owned(),
                DateGranularity::Day => "%Y-%m-%d".to_owned(),
            },
            format_first: false,
        },
        DbBackend::Postgres => DateFormatCall {
            function: "TO_CHAR".to_owned(),
            format: match granularity {
                DateGranularity::YearMonth => "YYYY-mm".to_owned(),
                DateGranularity::Day => "YYYY-mm-dd".to_owned(),
            },
            format_first: false,
        },
        DbBackend::Sqlite => DateFormatCall {
            function: "STRFTIME".to_owned(),
            format: match granularity {
                DateGranularity::YearMonth => "%Y-%m".to_owned(),
                DateGranularity::Day => "%Y-%m-%d".to_owned(),
            },
            format_first: true,
        },
    }
}

/// The SQL type name that counts and sums are cast to on `backend`.
pub fn int_keyword(backend: DbBackend) -> (r: String)
    ensures
        backend is MySql ==> r@ == "SIGNED INTEGER"@,
        backend is Postgres ==> r@ == "INT4"@,
        backend is Sqlite ==> r@ == "INT"@,
{
    match backend {
        DbBackend::MySql => "SIGNED INTEGER".to_owned(),
        DbBackend::Postgres => "INT4".to_owned(),
        DbBackend::Sqlite => "INT".to_owned(),
    }
}

/// The three graphs the dashboard draws.
#[derive(Debug, Clone, Copy, PartialEq, Eq, Structural)]
pub enum DashboardGraph {
    /// New customers, grouped by month of creation.
    NewCustomerByMonth,
    /// Order value, grouped by day of order.
    SalesValueByDay,
    /// Products, counted per category.
    ProductByProductCategory,
}

/// Which graph a request names, or nothing for an unknown name.
pub fn parse_graph(name: &str) -> (r: Option<DashboardGraph>)
    ensures
        r == Some(DashboardGraph::NewCustomerByMonth) <==> name@ == "new_customer_by_month"@,
        r == Some(DashboardGraph::SalesValueByDay) <==> name@ == "sales_value_by_day"@,
        r == Some(DashboardGraph::ProductByProductCategory) <==> name@
            == "product_by_product_category"@,
        r is None <==> (name@ != "new_customer_by_month"@ && name@ != "sales_value_by_day"@
            && name@ != "product_by_product_category"@),
{
    proof {
        broadcast use vstd::string::group_string_axioms;

        reveal_strlit("new_customer_by_month");
        reveal_strlit("sales_value_by_day");
        reveal_strlit("product_by_product_category");
        assert("new_customer_by_month"@.len() == 21);
        assert("sales_value_by_day"@.len() == 18);
        assert("product_by_product_category"@.len() == 27);
    }
    let owned = name.to_owned();
    if owned == "new_customer_by_month".to_owned() {
        Some(DashboardGraph::NewCustomerByMonth)
    } else if owned == "sales_value_by_day".to_owned() {
        Some(DashboardGraph::SalesValueByDay)
    } else if owned == "product_by_product_category".to_owned() {
        Some(DashboardGraph::ProductByProductCategory)
    } else {
        None
    }
}

/// Whether a graph aggregates over a date range the request must carry.
pub fn requires_date_range(graph: DashboardGraph) -> (r: bool)
    ensures
        r == (graph is NewCustomerByMonth || graph is SalesValueByDay),
{
    match graph {
        DashboardGraph::NewCustomerByMonth => true,
        DashboardGraph::SalesValueByDay => true,
        DashboardGraph::ProductByProductCategory => false,
    }
}

/// One point of a drawn graph, as the grouping query returns it.
#[derive(Debug, Clone, PartialEq)]
pub struct Datum {
    /// The group: a month, a day, or a category name.
    pub key: String,
    /// The count or sum within the group.
    pub val: i32,
}

} // verus!
