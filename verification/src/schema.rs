//! The database schema the migrations create, as data.
//!
//! Each migration creates one table: its columns, its primary key and its
//! foreign keys. The schema is described here as plain values with a
//! well-formedness predicate — every primary-key and foreign-key column
//! names a column that exists, every foreign key points at a table of the
//! schema — and the full schema is proved well formed. Turning a table
//! description into SQL statements is the caller's business.

use vstd::prelude::*;

verus! {

/// SQL type of a column.
#[derive(Debug, Clone, Copy, PartialEq, Eq, Structural)]
pub enum ColumnType {
    /// 32-bit integer.
    Integer,
    /// 16-bit integer.
    SmallInteger,
    /// Boolean.
    Boolean,
    /// Double-precision floating point.
    Double,
    /// Unbounded text.
    Text,
    /// A UUID.
    Uuid,
    /// A date and time without time zone.
    DateTime,
    /// A date and time with time zone.
    TimestampWithTimeZone,
    /// A string of bounded length.
    StringLen(u32),
    /// An unbounded string.
    StringDefault,
    /// A fixed-length character string.
    CharLen(u32),
    /// A decimal with precision and scale.
    DecimalLen(u32, u32),
}

/// The value a column falls back to.
#[derive(Debug, Clone, Copy, PartialEq, Eq, Structural)]
pub enum ColumnDefault {
    /// A constant integer.
    Int(i64),
    /// A constant boolean, written as the backend writes booleans.
    Bool(bool),
    /// The timestamp at insertion.
    CurrentTimestamp,
}

/// One column of a table.
#[derive(Debug, Clone)]
pub struct ColumnSpec {
    /// Column name.
    pub name: String,
    /// SQL type.
    pub column_type: ColumnType,
    /// Whether the column may be null.
    pub nullable: bool,
    /// Whether the column carries a unique key.
    pub unique: bool,
    /// Whether the column auto-increments.
    pub auto_increment: bool,
    /// The column's default value, if any.
    pub default: Option<ColumnDefault>,
}

/// One single-column foreign key.
#[derive(Debug, Clone)]
pub struct ForeignKeySpec {
    /// Constraint name.
    pub name: String,
    /// The referencing column of this table.
    pub column: String,
    /// The referenced table.
    pub target_table: String,
    /// The referenced column of that table.
    pub target_column: String,
    /// Whether deleting the target cascades.
    pub on_delete_cascade: bool,
}

/// One table: columns, primary key, foreign keys.
#[derive(Debug, Clone)]
pub struct TableSpec {
    /// Table name.
    pub name: String,
    /// The columns, in creation order.
    pub columns: Vec<ColumnSpec>,
    /// Name of the primary-key constraint, where one is given.
    pub primary_key_name: Option<String>,
    /// The primary-key columns, in order.
    pub primary_key: Vec<String>,
    /// The foreign keys, in creation order.
    pub foreign_keys: Vec<ForeignKeySpec>,
}

/// `name` names a column of `t`.
pub open spec fn has_column(t: TableSpec, name: Seq<char>) -> bool {
    exists|i: int| 0 <= i < t.columns@.len() && (#[trigger] t.columns@[i].name)@ == name
}

/// A table is well formed: it has columns and a primary key, and every
/// primary-key and foreign-key column names one of its columns.
pub open spec fn wf_table(t: TableSpec) -> bool {
    &&& t.columns@.len() > 0
    &&& t.primary_key@.len() > 0
    &&& forall|i: int|
        0 <= i < t.primary_key@.len() ==> has_column(t, (#[trigger] t.primary_key@[i])@)
    &&& forall|i: int|
        0 <= i < t.foreign_keys@.len() ==> has_column(t, (#[trigger] t.foreign_keys@[i].column)@)
}

/// `name` names a table of the schema.
pub open spec fn has_table(ts: Seq<TableSpec>, name: Seq<char>) -> bool {
    exists|j: int| 0 <= j < ts.len() && (#[trigger] ts[j].name)@ == name
}

/// A foreign key lands on an existing column of an existing table.
pub open spec fn fk_resolves(ts: Seq<TableSpec>, fk: ForeignKeySpec) -> bool {
    exists|j: int|
        0 <= j < ts.len() && (#[trigger] ts[j].name)@ == fk.target_table@ && has_column(
            ts[j],
            fk.target_column@,
        )
}

/// A schema is well formed: every table is, table names are distinct, and
/// every foreign key of every table resolves within the schema.
pub open spec fn wf_schema(ts: Seq<TableSpec>) -> bool {
    &&& forall|i: int| 0 <= i < ts.len() ==> wf_table(#[trigger] ts[i])
    &&& forall|i: int, j: int| 0 <= i < j < ts.len() ==> ts[i].name@ != ts[j].name@
    &&& forall|i: int, k: int|
        0 <= i < ts.len() && 0 <= k < ts[i].foreign_keys@.len() ==> fk_resolves(
            ts,
            #[trigger] ts[i].foreign_keys@[k],
        )
}

/// One column of `s` has the given name, type and flags.
pub open spec fn col_is(
    s: Seq<ColumnSpec>,
    i: int,
    name: Seq<char>,
    column_type: ColumnType,
    nullable: bool,
    unique: bool,
) -> bool {
    &&& s[i].name@ == name
    &&& s[i].column_type == column_type
    &&& s[i].nullable == nullable
    &&& s[i].unique == unique
}

/// A column with everything given.
fn column(
    name: &str,
    column_type: ColumnType,
    nullable: bool,
    unique: bool,
    auto_increment: bool,
    default: Option<ColumnDefault>,
) -> (r: ColumnSpec)
    ensures
        r.name@ == name@,
        r.column_type == column_type,
        r.nullable == nullable,
        r.unique == unique,
        r.auto_increment == auto_increment,
        r.default == default,
{
    ColumnSpec { name: name.to_owned(), column_type, nullable, unique, auto_increment, default }
}

/// An auto-incrementing integer primary-key column.
fn pk_auto(name: &str) -> (r: ColumnSpec)
    ensures
        r.name@ == name@,
        r.column_type == ColumnType::Integer,
        !r.nullable && !r.unique && r.auto_increment && r.default is None,
{
    column(name, ColumnType::Integer, false, false, true, None)
}

/// A non-null column without flags.
fn plain(name: &str, column_type: ColumnType) -> (r: ColumnSpec)
    ensures
        r.name@ == name@,
        r.column_type == column_type,
        !r.nullable && !r.unique && !r.auto_increment && r.default is None,
{
    column(name, column_type, false, false, false, None)
}

/// A nullable column without flags.
fn plain_null(name: &str, column_type: ColumnType) -> (r: ColumnSpec)
    ensures
        r.name@ == name@,
        r.column_type == column_type,
        r.nullable && !r.unique && !r.auto_increment && r.default is None,
{
    column(name, column_type, true, false, false, None)
}

/// A non-null unique column.
fn plain_uniq(name: &str, column_type: ColumnType) -> (r: ColumnSpec)
    ensures
        r.name@ == name@,
        r.column_type == column_type,
        !r.nullable && r.unique && !r.auto_increment && r.default is None,
{
    column(name, column_type, false, false, false, None).with_unique()
}

impl ColumnSpec {
    /// The same column, marked unique.
    fn with_unique(self) -> (r: ColumnSpec)
        ensures
            r == (ColumnSpec { unique: true, ..self }),
    {
        ColumnSpec { unique: true, ..self }
    }

    /// The same column, with a default value.
    fn with_default(self, default: ColumnDefault) -> (r: ColumnSpec)
        ensures
            r == (ColumnSpec { default: Some(default), ..self }),
    {
        ColumnSpec { default: Some(default), ..self }
    }
}

/// A single-column foreign key without cascade.
fn foreign_key(name: &str, column: &str, target_table: &str, target_column: &str) -> (r:
    ForeignKeySpec)
    ensures
        r.name@ == name@,
        r.column@ == column@,
        r.target_table@ == target_table@,
        r.target_column@ == target_column@,
        !r.on_delete_cascade,
{
    ForeignKeySpec {
        name: name.to_owned(),
        column: column.to_owned(),
        target_table: target_table.to_owned(),
        target_column: target_column.to_owned(),
        on_delete_cascade: false,
    }
}

/// The address table.
pub fn address_table() -> (r: TableSpec)
    ensures
        r.name@ == "address"@,
        r.columns@.len() == 9,
        col_is(r.columns@, 0, "address_id"@, ColumnType::Integer, false, false),
        r.columns@[0].auto_increment,
        col_is(r.columns@, 1, "address_line1"@, ColumnType::StringLen(60), false, false),
        col_is(r.columns@, 2, "address_line2"@, ColumnType::StringLen(60), true, false),
        col_is(r.columns@, 3, "city"@, ColumnType::StringLen(30), false, false),
        col_is(r.columns@, 4, "state_province"@, ColumnType::StringLen(50), false, false),
        col_is(r.columns@, 5, "country_region"@, ColumnType::StringLen(50), false, false),
        col_is(r.columns@, 6, "postal_code"@, ColumnType::StringLen(15), false, false),
        col_is(r.columns@, 7, "rowguid"@, ColumnType::Uuid, false, true),
        col_is(r.columns@, 8, "created_date"@, ColumnType::DateTime, false, false),
        r.primary_key@.len() == 1 && r.primary_key@[0]@ == "address_id"@,
        r.primary_key_name is None,
        r.foreign_keys@.len() == 0,
        wf_table(r),
{
    let mut columns: Vec<ColumnSpec> = Vec::new();
    columns.push(pk_auto("address_id"));
    columns.push(plain("address_line1", ColumnType::StringLen(60)));
    columns.push(plain_null("address_line2", ColumnType::StringLen(60)));
    columns.push(plain("city", ColumnType::StringLen(30)));
    columns.push(plain("state_province", ColumnType::StringLen(50)));
    columns.push(plain("country_region", ColumnType::StringLen(50)));
    columns.push(plain("postal_code", ColumnType::StringLen(15)));
    columns.push(plain_uniq("rowguid", ColumnType::Uuid));
    columns.push(plain("created_date", ColumnType::DateTime));
    let mut primary_key: Vec<String> = Vec::new();
    primary_key.push("address_id".to_owned());
    let r = TableSpec {
        name: "address".to_owned(),
        columns,
        primary_key_name: None,
        primary_key,
        foreign_keys: Vec::new(),
    };
    proof {
        assert(has_column(r, "address_id"@)) by {
            assert(r.columns@[0].name@ == "address_id"@);
        }
    }
    r
}

/// The customer table.
pub fn customer_table() -> (r: TableSpec)
    ensures
        r.name@ == "customer"@,
        r.columns@.len() == 15,
        col_is(r.columns@, 0, "customer_id"@, ColumnType::Integer, false, false),
        r.columns@[0].auto_increment,
        col_is(r.columns@, 1, "name_style"@, ColumnType::Boolean, false, false),
        r.columns@[1].default == Some(ColumnDefault::Bool(false)),
        col_is(r.columns@, 2, "title"@, ColumnType::StringLen(8), true, false),
        col_is(r.columns@, 3, "first_name"@, ColumnType::StringLen(60), false, false),
        col_is(r.columns@, 4, "middle_name"@, ColumnType::StringLen(60), true, false),
        col_is(r.columns@, 5, "last_name"@, ColumnType::StringLen(60), false, false),
        col_is(r.columns@, 6, "suffix"@, ColumnType::StringLen(10), true, false),
        col_is(r.columns@, 7, "company_name"@, ColumnType::StringLen(128), true, false),
        col_is(r.columns@, 8, "sales_person"@, ColumnType::StringLen(256), true, false),
        col_is(r.columns@, 9, "email_address"@, ColumnType::StringLen(50), true, false),
        col_is(r.columns@, 10, "phone"@, ColumnType::StringLen(25), false, false),
        col_is(r.columns@, 11, "password_hash"@, ColumnType::StringLen(128), false, false),
        col_is(r.columns@, 12, "password_salt"@, ColumnType::StringLen(10), false, false),
        col_is(r.columns@, 13, "rowguid"@, ColumnType::Uuid, false, true),
        col_is(r.columns@, 14, "created_date"@, ColumnType::DateTime, false, false),
        r.primary_key@.len() == 1 && r.primary_key@[0]@ == "customer_id"@,
        r.primary_key_name is None,
        r.foreign_keys@.len() == 0,
        wf_table(r),
{
    let mut columns: Vec<ColumnSpec> = Vec::new();
    columns.push(pk_auto("customer_id"));
    columns.push(plain("name_style", ColumnType::Boolean).with_default(ColumnDefault::Bool(false)));
    columns.push(plain_null("title", ColumnType::StringLen(8)));
    columns.push(plain("first_name", ColumnType::StringLen(60)));
    columns.push(plain_null("middle_name", ColumnType::StringLen(60)));
    columns.push(plain("last_name", ColumnType::StringLen(60)));
    columns.push(plain_null("suffix", ColumnType::StringLen(10)));
    columns.push(plain_null("company_name", ColumnType::StringLen(128)));
    columns.push(plain_null("sales_person", ColumnType::StringLen(256)));
    columns.push(plain_null("email_address", ColumnType::StringLen(50)));
    columns.push(plain("phone", ColumnType::StringLen(25)));
    columns.push(plain("password_hash", ColumnType::StringLen(128)));
    columns.push(plain("password_salt", ColumnType::StringLen(10)));
    columns.push(plain_uniq("rowguid", ColumnType::Uuid));
    columns.push(plain("created_date", ColumnType::DateTime));
    let mut primary_key: Vec<String> = Vec::new();
    primary_key.push("customer_id".to_owned());
    let r = TableSpec {
        name: "customer".to_owned(),
        columns,
        primary_key_name: None,
        primary_key,
        foreign_keys: Vec::new(),
    };
    proof {
        assert(has_column(r, "customer_id"@)) by {
            assert(r.columns@[0].name@ == "customer_id"@);
        }
    }
    r
}

/// The customer-address link table.
pub fn customer_address_table() -> (r: TableSpec)
    ensures
        r.name@ == "customer_address"@,
        r.columns@.len() == 5,
        col_is(r.columns@, 0, "customer_id"@, ColumnType::Integer, false, false),
        col_is(r.columns@, 1, "address_id"@, ColumnType::Integer, false, false),
        col_is(r.columns@, 2, "address_type"@, ColumnType::StringLen(60), false, false),
        col_is(r.columns@, 3, "rowguid"@, ColumnType::Uuid, false, true),
        col_is(r.columns@, 4, "created_date"@, ColumnType::DateTime, false, false),
        r.primary_key_name matches Some(n) && n@ == "pk_customer_address_customer_id_address_id"@,
        r.primary_key@.len() == 2 && r.primary_key@[0]@ == "customer_id"@ && r.primary_key@[1]@
            == "address_id"@,
        r.foreign_keys@.len() == 2,
        r.foreign_keys@[0].name@ == "fk_customer_address_customer_customer_id"@
            && r.foreign_keys@[0].column@ == "customer_id"@ && r.foreign_keys@[0].target_table@
            == "customer"@ && r.foreign_keys@[0].target_column@ == "customer_id"@
            && !r.foreign_keys@[0].on_delete_cascade,
        r.foreign_keys@[1].name@ == "fk_customer_address_address_address_id"@
            && r.foreign_keys@[1].column@ == "address_id"@ && r.foreign_keys@[1].target_table@
            == "address"@ && r.foreign_keys@[1].target_column@ == "address_id"@
            && !r.foreign_keys@[1].on_delete_cascade,
        wf_table(r),
{
    let mut columns: Vec<ColumnSpec> = Vec::new();
    columns.push(plain("customer_id", ColumnType::Integer));
    columns.push(plain("address_id", ColumnType::Integer));
    columns.push(plain("address_type", ColumnType::StringLen(60)));
    columns.push(plain_uniq("rowguid", ColumnType::Uuid));
    columns.push(plain("created_date", ColumnType::DateTime));
    let mut primary_key: Vec<String> = Vec::new();
    primary_key.push("customer_id".to_owned());
    primary_key.push("address_id".to_owned());
    let mut foreign_keys: Vec<ForeignKeySpec> = Vec::new();
    foreign_keys.push(
        foreign_key(
            "fk_customer_address_customer_customer_id",
            "customer_id",
            "customer",
            "customer_id",
        ),
    );
    foreign_keys.push(
        foreign_key("fk_customer_address_address_address_id", "address_id", "address", "address_id"),
    );
    let r = TableSpec {
        name: "customer_address".to_owned(),
        columns,
        primary_key_name: Some("pk_customer_address_customer_id_address_id".to_owned()),
        primary_key,
        foreign_keys,
    };
    proof {
        assert(has_column(r, "customer_id"@)) by {
            assert(r.columns@[0].name@ == "customer_id"@);
        }
        assert(has_column(r, "address_id"@)) by {
            assert(r.columns@[1].name@ == "address_id"@);
        }
    }
    r
}

/// The product-category table, a hierarchy through a self reference.
pub fn product_category_table() -> (r: TableSpec)
    ensures
        r.name@ == "product_category"@,
        r.columns@.len() == 5,
        col_is(r.columns@, 0, "product_category_id"@, ColumnType::Integer, false, false),
        r.columns@[0].auto_increment,
        col_is(r.columns@, 1, "parent_product_category_id"@, ColumnType::Integer, true, false),
        col_is(r.columns@, 2, "name"@, ColumnType::StringLen(60), false, true),
        col_is(r.columns@, 3, "rowguid"@, ColumnType::Uuid, false, true),
        col_is(r.columns@, 4, "created_date"@, ColumnType::DateTime, false, false),
        r.primary_key@.len() == 1 && r.primary_key@[0]@ == "product_category_id"@,
        r.foreign_keys@.len() == 1,
        r.foreign_keys@[0].name@ == "fk_parent_product_category_id"@ && r.foreign_keys@[0].column@
            == "parent_product_category_id"@ && r.foreign_keys@[0].target_table@
            == "product_category"@ && r.foreign_keys@[0].target_column@ == "product_category_id"@
            && !r.foreign_keys@[0].on_delete_cascade,
        wf_table(r),
{
    let mut columns: Vec<ColumnSpec> = Vec::new();
    columns.push(pk_auto("product_category_id"));
    columns.push(plain_null("parent_product_category_id", ColumnType::Integer));
    columns.push(plain_uniq("name", ColumnType::StringLen(60)));
    columns.push(plain_uniq("rowguid", ColumnType::Uuid));
    columns.push(plain("created_date", ColumnType::DateTime));
    let mut primary_key: Vec<String> = Vec::new();
    primary_key.push("product_category_id".to_owned());
    let mut foreign_keys: Vec<ForeignKeySpec> = Vec::new();
    foreign_keys.push(
        foreign_key(
            "fk_parent_product_category_id",
            "parent_product_category_id",
            "product_category",
            "product_category_id",
        ),
    );
    let r = TableSpec {
        name: "product_category".to_owned(),
        columns,
        primary_key_name: None,
        primary_key,
        foreign_keys,
    };
    proof {
        assert(has_column(r, "product_category_id"@)) by {
            assert(r.columns@[0].name@ == "product_category_id"@);
        }
        assert(has_column(r, "parent_product_category_id"@)) by {
            assert(r.columns@[1].name@ == "parent_product_category_id"@);
        }
    }
    r
}

/// The product-description table.
pub fn product_description_table() -> (r: TableSpec)
    ensures
        r.name@ == "product_description"@,
        r.columns@.len() == 4,
        col_is(r.columns@, 0, "product_description_id"@, ColumnType::Integer, false, false),
        r.columns@[0].auto_increment,
        col_is(r.columns@, 1, "description"@, ColumnType::StringLen(400), false, false),
        col_is(r.columns@, 2, "rowguid"@, ColumnType::Uuid, false, true),
        col_is(r.columns@, 3, "created_date"@, ColumnType::DateTime, false, false),
        r.primary_key@.len() == 1 && r.primary_key@[0]@ == "product_description_id"@,
        r.foreign_keys@.len() == 0,
        wf_table(r),
{
    let mut columns: Vec<ColumnSpec> = Vec::new();
    columns.push(pk_auto("product_description_id"));
    columns.push(plain("description", ColumnType::StringLen(400)));
    columns.push(plain_uniq("rowguid", ColumnType::Uuid));
    columns.push(plain("created_date", ColumnType::DateTime));
    let mut primary_key: Vec<String> = Vec::new();
    primary_key.push("product_description_id".to_owned());
    let r = TableSpec {
        name: "product_description".to_owned(),
        columns,
        primary_key_name: None,
        primary_key,
        foreign_keys: Vec::new(),
    };
    proof {
        assert(has_column(r, "product_description_id"@)) by {
            assert(r.columns@[0].name@ == "product_description_id"@);
        }
    }
    r
}

/// The product-model table.
pub fn product_model_table() -> (r: TableSpec)
    ensures
        r.name@ == "product_model"@,
        r.columns@.len() == 5,
        col_is(r.columns@, 0, "product_model_id"@, ColumnType::Integer, false, false),
        r.columns@[0].auto_increment,
        col_is(r.columns@, 1, "name"@, ColumnType::StringLen(60), false, false),
        col_is(r.columns@, 2, "catalog_description"@, ColumnType::Text, true, false),
        col_is(r.columns@, 3, "rowguid"@, ColumnType::Uuid, false, true),
        col_is(r.columns@, 4, "created_date"@, ColumnType::DateTime, false, false),
        r.primary_key@.len() == 1 && r.primary_key@[0]@ == "product_model_id"@,
        r.foreign_keys@.len() == 0,
        wf_table(r),
{
    let mut columns: Vec<ColumnSpec> = Vec::new();
    columns.push(pk_auto("product_model_id"));
    columns.push(plain("name", ColumnType::StringLen(60)));
    columns.push(plain_null("catalog_description", ColumnType::Text));
    columns.push(plain_uniq("rowguid", ColumnType::Uuid));
    columns.push(plain("created_date", ColumnType::DateTime));
    let mut primary_key: Vec<String> = Vec::new();
    primary_key.push("product_model_id".to_owned());
    let r = TableSpec {
        name: "product_model".to_owned(),
        columns,
        primary_key_name: None,
        primary_key,
        foreign_keys: Vec::new(),
    };
    proof {
        assert(has_column(r, "product_model_id"@)) by {
            assert(r.columns@[0].name@ == "product_model_id"@);
        }
    }
    r
}

/// The product table.
pub fn product_table() -> (r: TableSpec)
    ensures
        r.name@ == "product"@,
        r.columns@.len() == 17,
        col_is(r.columns@, 0, "product_id"@, ColumnType::Integer, false, false),
        r.columns@[0].auto_increment,
        col_is(r.columns@, 1, "name"@, ColumnType::StringLen(60), false, true),
        col_is(r.columns@, 2, "product_number"@, ColumnType::StringLen(25), false, true),
        col_is(r.columns@, 3, "color"@, ColumnType::StringLen(15), true, false),
        col_is(r.columns@, 4, "standard_cost"@, ColumnType::Double, false, false),
        col_is(r.columns@, 5, "list_price"@, ColumnType::Double, false, false),
        col_is(r.columns@, 6, "size"@, ColumnType::StringLen(5), true, false),
        col_is(r.columns@, 7, "weight"@, ColumnType::DecimalLen(8, 2), true, false),
        col_is(r.columns@, 8, "product_category_id"@, ColumnType::Integer, true, false),
        col_is(r.columns@, 9, "product_model_id"@, ColumnType::Integer, true, false),
        col_is(r.columns@, 10, "sell_start_date"@, ColumnType::DateTime, false, false),
        col_is(r.columns@, 11, "sell_end_date"@, ColumnType::DateTime, true, false),
        col_is(r.columns@, 12, "discontinued_date"@, ColumnType::DateTime, true, false),
        col_is(r.columns@, 13, "thumb_nail_photo"@, ColumnType::Text, true, false),
        col_is(r.columns@, 14, "thumbnail_photo_file_name"@, ColumnType::StringLen(50), true, false),
        col_is(r.columns@, 15, "rowguid"@, ColumnType::Uuid, false, true),
        col_is(r.columns@, 16, "created_date"@, ColumnType::DateTime, false, false),
        r.primary_key@.len() == 1 && r.primary_key@[0]@ == "product_id"@,
        r.foreign_keys@.len() == 2,
        r.foreign_keys@[0].name@ == "fk_product_product_category_product_category_id"@
            && r.foreign_keys@[0].column@ == "product_category_id"@
            && r.foreign_keys@[0].target_table@ == "product_category"@
            && r.foreign_keys@[0].target_column@ == "product_category_id"@
            && !r.foreign_keys@[0].on_delete_cascade,
        r.foreign_keys@[1].name@ == "fk_product_product_model_product_model_id"@
            && r.foreign_keys@[1].column@ == "product_model_id"@
            && r.foreign_keys@[1].target_table@ == "product_model"@
            && r.foreign_keys@[1].target_column@ == "product_model_id"@
            && !r.foreign_keys@[1].on_delete_cascade,
        wf_table(r),
{
    let mut columns: Vec<ColumnSpec> = Vec::new();
    columns.push(pk_auto("product_id"));
    columns.push(plain_uniq("name", ColumnType::StringLen(60)));
    columns.push(plain_uniq("product_number", ColumnType::StringLen(25)));
    columns.push(plain_null("color", ColumnType::StringLen(15)));
    columns.push(plain("standard_cost", ColumnType::Double));
    columns.push(plain("list_price", ColumnType::Double));
    columns.push(plain_null("size", ColumnType::StringLen(5)));
    columns.push(plain_null("weight", ColumnType::DecimalLen(8, 2)));
    columns.push(plain_null("product_category_id", ColumnType::Integer));
    columns.push(plain_null("product_model_id", ColumnType::Integer));
    columns.push(plain("sell_start_date", ColumnType::DateTime));
    columns.push(plain_null("sell_end_date", ColumnType::DateTime));
    columns.push(plain_null("discontinued_date", ColumnType::DateTime));
    columns.push(plain_null("thumb_nail_photo", ColumnType::Text));
    columns.push(plain_null("thumbnail_photo_file_name", ColumnType::StringLen(50)));
    columns.push(plain_uniq("rowguid", ColumnType::Uuid));
    columns.push(plain("created_date", ColumnType::DateTime));
    let mut primary_key: Vec<String> = Vec::new();
    primary_key.push("product_id".to_owned());
    let mut foreign_keys: Vec<ForeignKeySpec> = Vec::new();
    foreign_keys.push(
        foreign_key(
            "fk_product_product_category_product_category_id",
            "product_category_id",
            "product_category",
            "product_category_id",
        ),
    );
    foreign_keys.push(
        foreign_key(
            "fk_product_product_model_product_model_id",
            "product_model_id",
            "product_model",
            "product_model_id",
        ),
    );
    let r = TableSpec {
        name: "product".to_owned(),
        columns,
        primary_key_name: None,
        primary_key,
        foreign_keys,
    };
    proof {
        assert(has_column(r, "product_id"@)) by {
            assert(r.columns@[0].name@ == "product_id"@);
        }
        assert(has_column(r, "product_category_id"@)) by {
            assert(r.columns@[8].name@ == "product_category_id"@);
        }
        assert(has_column(r, "product_model_id"@)) by {
            assert(r.columns@[9].name@ == "product_model_id"@);
        }
    }
    r
}

/// The link table between product models and their descriptions.
pub fn product_model_product_description_table() -> (r: TableSpec)
    ensures
        r.name@ == "product_model_product_description"@,
        r.columns@.len() == 5,
        col_is(r.columns@, 0, "product_model_id"@, ColumnType::Integer, false, false),
        col_is(r.columns@, 1, "product_description_id"@, ColumnType::Integer, false, false),
        col_is(r.columns@, 2, "culture"@, ColumnType::CharLen(6), false, false),
        col_is(r.columns@, 3, "rowguid"@, ColumnType::Uuid, false, true),
        col_is(r.columns@, 4, "created_date"@, ColumnType::DateTime, false, false),
        r.primary_key_name matches Some(n) && n@ == "pk_product_model_product_description_id"@,
        r.primary_key@.len() == 3 && r.primary_key@[0]@ == "product_model_id"@
            && r.primary_key@[1]@ == "product_description_id"@ && r.primary_key@[2]@ == "culture"@,
        r.foreign_keys@.len() == 2,
        r.foreign_keys@[0].name@ == "fk_product_model_product_model_id"@
            && r.foreign_keys@[0].column@ == "product_model_id"@
            && r.foreign_keys@[0].target_table@ == "product_model"@
            && r.foreign_keys@[0].target_column@ == "product_model_id"@
            && !r.foreign_keys@[0].on_delete_cascade,
        r.foreign_keys@[1].name@ == "fk_product_description_id"@ && r.foreign_keys@[1].column@
            == "product_description_id"@ && r.foreign_keys@[1].target_table@
            == "product_description"@ && r.foreign_keys@[1].target_column@
            == "product_description_id"@ && !r.foreign_keys@[1].on_delete_cascade,
        wf_table(r),
{
    let mut columns: Vec<ColumnSpec> = Vec::new();
    columns.push(plain("product_model_id", ColumnType::Integer));
    columns.push(plain("product_description_id", ColumnType::Integer));
    columns.push(plain("culture", ColumnType::CharLen(6)));
    columns.push(plain_uniq("rowguid", ColumnType::Uuid));
    columns.push(plain("created_date", ColumnType::DateTime));
    let mut primary_key: Vec<String> = Vec::new();
    primary_key.push("product_model_id".to_owned());
    primary_key.push("product_description_id".to_owned());
    primary_key.push("culture".to_owned());
    let mut foreign_keys: Vec<ForeignKeySpec> = Vec::new();
    foreign_keys.push(
        foreign_key(
            "fk_product_model_product_model_id",
            "product_model_id",
            "product_model",
            "product_model_id",
        ),
    );
    foreign_keys.push(
        foreign_key(
            "fk_product_description_id",
            "product_description_id",
            "product_description",
            "product_description_id",
        ),
    );
    let r = TableSpec {
        name: "product_model_product_description".to_owned(),
        columns,
        primary_key_name: Some("pk_product_model_product_description_id".to_owned()),
        primary_key,
        foreign_keys,
    };
    proof {
        assert(has_column(r, "product_model_id"@)) by {
            assert(r.columns@[0].name@ == "product_model_id"@);
        }
        assert(has_column(r, "product_description_id"@)) by {
            assert(r.columns@[1].name@ == "product_description_id"@);
        }
        assert(has_column(r, "culture"@)) by {
            assert(r.columns@[2].name@ == "culture"@);
        }
    }
    r
}

/// The sales-order header table.
pub fn sales_order_header_table() -> (r: TableSpec)
    ensures
        r.name@ == "sales_order_header"@,
        r.columns@.len() == 20,
        col_is(r.columns@, 0, "sales_order_id"@, ColumnType::Integer, false, false),
        r.columns@[0].auto_increment,
        col_is(r.columns@, 1, "revision_number"@, ColumnType::Integer, false, false),
        r.columns@[1].default == Some(ColumnDefault::Int(0)),
        col_is(r.columns@, 2, "order_date"@, ColumnType::DateTime, false, false),
        col_is(r.columns@, 3, "due_date"@, ColumnType::DateTime, false, false),
        col_is(r.columns@, 4, "ship_date"@, ColumnType::DateTime, true, false),
        col_is(r.columns@, 5, "status"@, ColumnType::Integer, false, false),
        r.columns@[5].default == Some(ColumnDefault::Int(1)),
        col_is(r.columns@, 6, "online_order_flag"@, ColumnType::Boolean, false, false),
        r.columns@[6].default == Some(ColumnDefault::Bool(true)),
        col_is(r.columns@, 7, "purchase_order_number"@, ColumnType::StringLen(25), true, false),
        col_is(r.columns@, 8, "account_number"@, ColumnType::StringLen(15), true, false),
        col_is(r.columns@, 9, "customer_id"@, ColumnType::Integer, false, false),
        col_is(r.columns@, 10, "ship_to_address_id"@, ColumnType::Integer, true, false),
        col_is(r.columns@, 11, "bill_to_address_id"@, ColumnType::Integer, true, false),
        col_is(r.columns@, 12, "ship_method"@, ColumnType::StringLen(50), false, false),
        col_is(r.columns@, 13, "credit_card_approval_code"@, ColumnType::StringLen(15), true, false),
        col_is(r.columns@, 14, "sub_total"@, ColumnType::Double, false, false),
        r.columns@[14].default == Some(ColumnDefault::Int(0)),
        col_is(r.columns@, 15, "tax_amt"@, ColumnType::Double, false, false),
        r.columns@[15].default == Some(ColumnDefault::Int(0)),
        col_is(r.columns@, 16, "freight"@, ColumnType::Double, false, false),
        r.columns@[16].default == Some(ColumnDefault::Int(0)),
        col_is(r.columns@, 17, "comment"@, ColumnType::Text, true, false),
        col_is(r.columns@, 18, "rowguid"@, ColumnType::Uuid, false, true),
        col_is(r.columns@, 19, "created_date"@, ColumnType::DateTime, false, false),
        r.primary_key@.len() == 1 && r.primary_key@[0]@ == "sales_order_id"@,
        r.foreign_keys@.len() == 3,
        r.foreign_keys@[0].name@ == "fk_sales_order_header_customer_customer_id"@
            && r.foreign_keys@[0].column@ == "customer_id"@ && r.foreign_keys@[0].target_table@
            == "customer"@ && r.foreign_keys@[0].target_column@ == "customer_id"@
            && !r.foreign_keys@[0].on_delete_cascade,
        r.foreign_keys@[1].name@ == "fk_sales_order_header_address_ship_to_address_id"@
            && r.foreign_keys@[1].column@ == "ship_to_address_id"@
            && r.foreign_keys@[1].target_table@ == "address"@
            && r.foreign_keys@[1].target_column@ == "address_id"@
            && !r.foreign_keys@[1].on_delete_cascade,
        r.foreign_keys@[2].name@ == "fk_sales_order_header_address_bill_to_address_id"@
            && r.foreign_keys@[2].column@ == "bill_to_address_id"@
            && r.foreign_keys@[2].target_table@ == "address"@
            && r.foreign_keys@[2].target_column@ == "address_id"@
            && !r.foreign_keys@[2].on_delete_cascade,
        wf_table(r),
{
    let mut columns: Vec<ColumnSpec> = Vec::new();
    columns.push(pk_auto("sales_order_id"));
    columns.push(plain("revision_number", ColumnType::Integer).with_default(ColumnDefault::Int(0)));
    columns.push(plain("order_date", ColumnType::DateTime));
    columns.push(plain("due_date", ColumnType::DateTime));
    columns.push(plain_null("ship_date", ColumnType::DateTime));
    columns.push(plain("status", ColumnType::Integer).with_default(ColumnDefault::Int(1)));
    columns.push(
        plain("online_order_flag", ColumnType::Boolean).with_default(ColumnDefault::Bool(true)),
    );
    columns.push(plain_null("purchase_order_number", ColumnType::StringLen(25)));
    columns.push(plain_null("account_number", ColumnType::StringLen(15)));
    columns.push(plain("customer_id", ColumnType::Integer));
    columns.push(plain_null("ship_to_address_id", ColumnType::Integer));
    columns.push(plain_null("bill_to_address_id", ColumnType::Integer));
    columns.push(plain("ship_method", ColumnType::StringLen(50)));
    columns.push(plain_null("credit_card_approval_code", ColumnType::StringLen(15)));
    columns.push(plain("sub_total", ColumnType::Double).with_default(ColumnDefault::Int(0)));
    columns.push(plain("tax_amt", ColumnType::Double).with_default(ColumnDefault::Int(0)));
    columns.push(plain("freight", ColumnType::Double).with_default(ColumnDefault::Int(0)));
    columns.push(plain_null("comment", ColumnType::Text));
    columns.push(plain_uniq("rowguid", ColumnType::Uuid));
    columns.push(plain("created_date", ColumnType::DateTime));
    let mut primary_key: Vec<String> = Vec::new();
    primary_key.push("sales_order_id".to_owned());
    let mut foreign_keys: Vec<ForeignKeySpec> = Vec::new();
    foreign_keys.push(
        foreign_key(
            "fk_sales_order_header_customer_customer_id",
            "customer_id",
            "customer",
            "customer_id",
        ),
    );
    foreign_keys.push(
        foreign_key(
            "fk_sales_order_header_address_ship_to_address_id",
            "ship_to_address_id",
            "address",
            "address_id",
        ),
    );
    foreign_keys.push(
        foreign_key(
            "fk_sales_order_header_address_bill_to_address_id",
            "bill_to_address_id",
            "address",
            "address_id",
        ),
    );
    let r = TableSpec {
        name: "sales_order_header".to_owned(),
        columns,
        primary_key_name: None,
        primary_key,
        foreign_keys,
    };
    proof {
        assert(has_column(r, "sales_order_id"@)) by {
            assert(r.columns@[0].name@ == "sales_order_id"@);
        }
        assert(has_column(r, "customer_id"@)) by {
            assert(r.columns@[9].name@ == "customer_id"@);
        }
        assert(has_column(r, "ship_to_address_id"@)) by {
            assert(r.columns@[10].name@ == "ship_to_address_id"@);
        }
        assert(has_column(r, "bill_to_address_id"@)) by {
            assert(r.columns@[11].name@ == "bill_to_address_id"@);
        }
    }
    r
}

/// The sales-order detail table.
pub fn sales_order_detail_table() -> (r: TableSpec)
    ensures
        r.name@ == "sales_order_detail"@,
        r.columns@.len() == 8,
        col_is(r.columns@, 0, "sales_order_id"@, ColumnType::Integer, false, false),
        col_is(r.columns@, 1, "sales_order_detail_id"@, ColumnType::Integer, false, false),
        col_is(r.columns@, 2, "order_qty"@, ColumnType::SmallInteger, false, false),
        col_is(r.columns@, 3, "product_id"@, ColumnType::Integer, false, false),
        col_is(r.columns@, 4, "unit_price"@, ColumnType::Double, false, false),
        col_is(r.columns@, 5, "unit_price_discount"@, ColumnType::Double, false, false),
        r.columns@[5].default == Some(ColumnDefault::Int(0)),
        col_is(r.columns@, 6, "rowguid"@, ColumnType::Uuid, false, true),
        col_is(r.columns@, 7, "created_date"@, ColumnType::DateTime, false, false),
        r.primary_key_name matches Some(n) && n@ == "pk_sales_order_detail_id"@,
        r.primary_key@.len() == 2 && r.primary_key@[0]@ == "sales_order_id"@
            && r.primary_key@[1]@ == "sales_order_detail_id"@,
        r.foreign_keys@.len() == 2,
        r.foreign_keys@[0].name@ == "fk_sales_order_detail_sales_order_header_sales_order_id"@
            && r.foreign_keys@[0].column@ == "sales_order_id"@
            && r.foreign_keys@[0].target_table@ == "sales_order_header"@
            && r.foreign_keys@[0].target_column@ == "sales_order_id"@
            && r.foreign_keys@[0].on_delete_cascade,
        r.foreign_keys@[1].name@ == "fk_sales_order_detail_product_product_id"@
            && r.foreign_keys@[1].column@ == "product_id"@ && r.foreign_keys@[1].target_table@
            == "product"@ && r.foreign_keys@[1].target_column@ == "product_id"@
            && !r.foreign_keys@[1].on_delete_cascade,
        wf_table(r),
{
    let mut columns: Vec<ColumnSpec> = Vec::new();
    columns.push(plain("sales_order_id", ColumnType::Integer));
    columns.push(plain("sales_order_detail_id", ColumnType::Integer));
    columns.push(plain("order_qty", ColumnType::SmallInteger));
    columns.push(plain("product_id", ColumnType::Integer));
    columns.push(plain("unit_price", ColumnType::Double));
    columns.push(
        plain("unit_price_discount", ColumnType::Double).with_default(ColumnDefault::Int(0)),
    );
    columns.push(plain_uniq("rowguid", ColumnType::Uuid));
    columns.push(plain("created_date", ColumnType::DateTime));
    let mut primary_key: Vec<String> = Vec::new();
    primary_key.push("sales_order_id".to_owned());
    primary_key.push("sales_order_detail_id".to_owned());
    let mut foreign_keys: Vec<ForeignKeySpec> = Vec::new();
    let mut cascade = foreign_key(
        "fk_sales_order_detail_sales_order_header_sales_order_id",
        "sales_order_id",
        "sales_order_header",
        "sales_order_id",
    );
    cascade.on_delete_cascade = true;
    foreign_keys.push(cascade);
    foreign_keys.push(
        foreign_key("fk_sales_order_detail_product_product_id", "product_id", "product", "product_id"),
    );
    let r = TableSpec {
        name: "sales_order_detail".to_owned(),
        columns,
        primary_key_name: Some("pk_sales_order_detail_id".to_owned()),
        primary_key,
        foreign_keys,
    };
    proof {
        assert(has_column(r, "sales_order_id"@)) by {
            assert(r.columns@[0].name@ == "sales_order_id"@);
        }
        assert(has_column(r, "sales_order_detail_id"@)) by {
            assert(r.columns@[1].name@ == "sales_order_detail_id"@);
        }
        assert(has_column(r, "product_id"@)) by {
            assert(r.columns@[3].name@ == "product_id"@);
        }
    }
    r
}

/// The user table.
pub fn user_table() -> (r: TableSpec)
    ensures
        r.name@ == "user"@,
        r.columns@.len() == 15,
        col_is(r.columns@, 0, "created_at"@, ColumnType::DateTime, false, false),
        r.columns@[0].default == Some(ColumnDefault::CurrentTimestamp),
        col_is(r.columns@, 1, "updated_at"@, ColumnType::DateTime, false, false),
        r.columns@[1].default == Some(ColumnDefault::CurrentTimestamp),
        col_is(r.columns@, 2, "id"@, ColumnType::Integer, false, false),
        r.columns@[2].auto_increment,
        col_is(r.columns@, 3, "pid"@, ColumnType::Uuid, false, false),
        col_is(r.columns@, 4, "email"@, ColumnType::StringDefault, false, true),
        col_is(r.columns@, 5, "password"@, ColumnType::StringDefault, false, false),
        col_is(r.columns@, 6, "api_key"@, ColumnType::StringDefault, false, true),
        col_is(r.columns@, 7, "name"@, ColumnType::StringDefault, false, false),
        col_is(r.columns@, 8, "reset_token"@, ColumnType::StringDefault, true, false),
        col_is(r.columns@, 9, "reset_sent_at"@, ColumnType::TimestampWithTimeZone, true, false),
        col_is(r.columns@, 10, "email_verification_token"@, ColumnType::StringDefault, true, false),
        col_is(
            r.columns@,
            11,
            "email_verification_sent_at"@,
            ColumnType::TimestampWithTimeZone,
            true,
            false,
        ),
        col_is(r.columns@, 12, "email_verified_at"@, ColumnType::TimestampWithTimeZone, true, false),
        col_is(r.columns@, 13, "magic_link_token"@, ColumnType::StringDefault, true, false),
        col_is(
            r.columns@,
            14,
            "magic_link_expiration"@,
            ColumnType::TimestampWithTimeZone,
            true,
            false,
        ),
        r.primary_key@.len() == 1 && r.primary_key@[0]@ == "id"@,
        r.foreign_keys@.len() == 0,
        wf_table(r),
{
    let mut columns: Vec<ColumnSpec> = Vec::new();
    columns.push(plain("created_at", ColumnType::DateTime).with_default(ColumnDefault::CurrentTimestamp));
    columns.push(plain("updated_at", ColumnType::DateTime).with_default(ColumnDefault::CurrentTimestamp));
    columns.push(pk_auto("id"));
    columns.push(plain("pid", ColumnType::Uuid));
    columns.push(plain_uniq("email", ColumnType::StringDefault));
    columns.push(plain("password", ColumnType::StringDefault));
    columns.push(plain_uniq("api_key", ColumnType::StringDefault));
    columns.push(plain("name", ColumnType::StringDefault));
    columns.push(plain_null("reset_token", ColumnType::StringDefault));
    columns.push(plain_null("reset_sent_at", ColumnType::TimestampWithTimeZone));
    columns.push(plain_null("email_verification_token", ColumnType::StringDefault));
    columns.push(plain_null("email_verification_sent_at", ColumnType::TimestampWithTimeZone));
    columns.push(plain_null("email_verified_at", ColumnType::TimestampWithTimeZone));
    columns.push(plain_null("magic_link_token", ColumnType::StringDefault));
    columns.push(plain_null("magic_link_expiration", ColumnType::TimestampWithTimeZone));
    let r = TableSpec {
        name: "user".to_owned(),
        columns,
        primary_key_name: None,
        primary_key: {
            let mut primary_key: Vec<String> = Vec::new();
            primary_key.push("id".to_owned());
            primary_key
        },
        foreign_keys: Vec::new(),
    };
    proof {
        assert(has_column(r, "id"@)) by {
            assert(r.columns@[2].name@ == "id"@);
        }
    }
    r
}

/// The migrations, in the order they run.
pub fn migration_names() -> (r: Vec<String>)
    ensures
        r@.len() == 16,
        r@[0]@ == "m20241101_000001_address"@,
        r@[1]@ == "m20241101_000002_customer"@,
        r@[2]@ == "m20241101_000003_customer_address"@,
        r@[3]@ == "m20241101_000004_product_category"@,
        r@[4]@ == "m20241101_000005_product_description"@,
        r@[5]@ == "m20241101_000006_product_model"@,
        r@[6]@ == "m20241101_000007_product"@,
        r@[7]@ == "m20241101_000008_product_model_product_description"@,
        r@[8]@ == "m20241101_000009_sales_order_header"@,
        r@[9]@ == "m20241101_000010_sales_order_detail"@,
        r@[10]@ == "m20250101_000001_user"@,
        r@[11]@ == "m20250101_000002_seed_user"@,
        r@[12]@ == "m20250527_054828_create_bakery_table"@,
        r@[13]@ == "m20250527_070516_create_baker_table"@,
        r@[14]@ == "m20250527_070516_create_cake_table"@,
        r@[15]@ == "m20250527_070516_create_cake_baker_table"@,
{
    let mut r: Vec<String> = Vec::new();
    r.push("m20241101_000001_address".to_owned());
    r.push("m20241101_000002_customer".to_owned());
    r.push("m20241101_000003_customer_address".to_owned());
    r.push("m20241101_000004_product_category".to_owned());
    r.push("m20241101_000005_product_description".to_owned());
    r.push("m20241101_000006_product_model".to_owned());
    r.push("m20241101_000007_product".to_owned());
    r.push("m20241101_000008_product_model_product_description".to_owned());
    r.push("m20241101_000009_sales_order_header".to_owned());
    r.push("m20241101_000010_sales_order_detail".to_owned());
    r.push("m20250101_000001_user".to_owned());
    r.push("m20250101_000002_seed_user".to_owned());
    r.push("m20250527_054828_create_bakery_table".to_owned());
    r.push("m20250527_070516_create_baker_table".to_owned());
    r.push("m20250527_070516_create_cake_table".to_owned());
    r.push("m20250527_070516_create_cake_baker_table".to_owned());
    r
}

/// The store's schema: every table the numbered migrations create, in
/// creation order, proved well formed — in particular, every foreign key
/// of every table lands on an existing column of an existing table.
pub fn full_schema() -> (r: Vec<TableSpec>)
    ensures
        r@.len() == 11,
        r@[0].name@ == "address"@,
        r@[1].name@ == "customer"@,
        r@[2].name@ == "customer_address"@,
        r@[3].name@ == "product_category"@,
        r@[4].name@ == "product_description"@,
        r@[5].name@ == "product_model"@,
        r@[6].name@ == "product"@,
        r@[7].name@ == "product_model_product_description"@,
        r@[8].name@ == "sales_order_header"@,
        r@[9].name@ == "sales_order_detail"@,
        r@[10].name@ == "user"@,
        wf_schema(r@),
{
    let mut r: Vec<TableSpec> = Vec::new();
    r.push(address_table());
    r.push(customer_table());
    r.push(customer_address_table());
    r.push(product_category_table());
    r.push(product_description_table());
    r.push(product_model_table());
    r.push(product_table());
    r.push(product_model_product_description_table());
    r.push(sales_order_header_table());
    r.push(sales_order_detail_table());
    r.push(user_table());
    proof {
        broadcast use vstd::string::group_string_axioms;

        reveal_strlit("address");
        reveal_strlit("customer");
        reveal_strlit("customer_address");
        reveal_strlit("product_category");
        reveal_strlit("product_description");
        reveal_strlit("product_model");
        reveal_strlit("product");
        reveal_strlit("product_model_product_description");
        reveal_strlit("sales_order_header");
        reveal_strlit("sales_order_detail");
        reveal_strlit("user");
        assert("address"@.len() == 7);
        assert("customer"@.len() == 8);
        assert("customer_address"@.len() == 16);
        assert("product_category"@.len() == 16);
        assert("product_description"@.len() == 19);
        assert("product_model"@.len() == 13);
        assert("product"@.len() == 7);
        assert("product_model_product_description"@.len() == 33);
        assert("sales_order_header"@.len() == 18);
        assert("sales_order_detail"@.len() == 18);
        assert("user"@.len() == 4);
        assert("address"@[0] == 'a');
        assert("product"@[0] == 'p');
        assert("customer_address"@[0] == 'c');
        assert("product_category"@[0] == 'p');
        assert("sales_order_header"@[12] == 'h');
        assert("sales_order_detail"@[12] == 'd');
        assert(forall|i: int| 0 <= i < r@.len() ==> wf_table(#[trigger] r@[i]));
        assert(forall|i: int, j: int| 0 <= i < j < r@.len() ==> r@[i].name@ != r@[j].name@);
        assert forall|i: int, k: int|
            0 <= i < r@.len() && 0 <= k < r@[i].foreign_keys@.len() implies fk_resolves(
            r@,
            #[trigger] r@[i].foreign_keys@[k],
        ) by {
            if i == 2 {
                if k == 0 {
                    assert(r@[1].name@ == r@[2].foreign_keys@[0].target_table@);
                    assert(has_column(r@[1], "customer_id"@)) by {
                        assert(r@[1].columns@[0].name@ == "customer_id"@);
                    }
                } else {
                    assert(r@[0].name@ == r@[2].foreign_keys@[1].target_table@);
                    assert(has_column(r@[0], "address_id"@)) by {
                        assert(r@[0].columns@[0].name@ == "address_id"@);
                    }
                }
            } else if i == 3 {
                assert(r@[3].name@ == r@[3].foreign_keys@[0].target_table@);
                assert(has_column(r@[3], "product_category_id"@)) by {
                    assert(r@[3].columns@[0].name@ == "product_category_id"@);
                }
            } else if i == 6 {
                if k == 0 {
                    assert(r@[3].name@ == r@[6].foreign_keys@[0].target_table@);
                    assert(has_column(r@[3], "product_category_id"@)) by {
                        assert(r@[3].columns@[0].name@ == "product_category_id"@);
                    }
                } else {
                    assert(r@[5].name@ == r@[6].foreign_keys@[1].target_table@);
                    assert(has_column(r@[5], "product_model_id"@)) by {
                        assert(r@[5].columns@[0].name@ == "product_model_id"@);
                    }
                }
            } else if i == 7 {
                if k == 0 {
                    assert(r@[5].name@ == r@[7].foreign_keys@[0].target_table@);
                    assert(has_column(r@[5], "product_model_id"@)) by {
                        assert(r@[5].columns@[0].name@ == "product_model_id"@);
                    }
                } else {
                    assert(r@[4].name@ == r@[7].foreign_keys@[1].target_table@);
                    assert(has_column(r@[4], "product_description_id"@)) by {
                        assert(r@[4].columns@[0].name@ == "product_description_id"@);
                    }
                }
            } else if i == 8 {
                if k == 0 {
                    assert(r@[1].name@ == r@[8].foreign_keys@[0].target_table@);
                    assert(has_column(r@[1], "customer_id"@)) by {
                        assert(r@[1].columns@[0].name@ == "customer_id"@);
                    }
                } else {
                    assert(r@[0].name@ == r@[8].foreign_keys@[k].target_table@);
                    assert(has_column(r@[0], "address_id"@)) by {
                        assert(r@[0].columns@[0].name@ == "address_id"@);
                    }
                }
            } else if i == 9 {
                if k == 0 {
                    assert(r@[8].name@ == r@[9].foreign_keys@[0].target_table@);
                    assert(has_column(r@[8], "sales_order_id"@)) by {
                        assert(r@[8].columns@[0].name@ == "sales_order_id"@);
                    }
                } else {
                    assert(r@[6].name@ == r@[9].foreign_keys@[1].target_table@);
                    assert(has_column(r@[6], "product_id"@)) by {
                        assert(r@[6].columns@[0].name@ == "product_id"@);
                    }
                }
            }
        }
    }
    r
}

} // verus!
