//! Verified core of an admin-panel backend: the panel's configuration model
//! and parser assembly, the request-level decisions of its controllers, and
//! the data plans behind its migrations and seeding task.

use vstd::prelude::*;

pub mod app_info;
pub mod auth;
pub mod codec;
pub mod config;
pub mod dashboard;
pub mod datetime;
pub mod graphql;
pub mod initializer;
pub mod parser;
pub mod policy;
pub mod res;
pub mod routes;
pub mod schema;
pub mod seed;
pub mod tables;
pub mod upload;
pub mod users;

pub use config::{
    ChildTableCfg, ColumnCfg, CompositeTableCfg, CreateCfg, DashboardCfg, DashboardChart,
    DashboardInfo, DashboardInfoCard, DashboardRow, DashboardRowCol, DeleteCfg, FilterCfg, JsonCfg,
    MenuCfg, MenuItemCfg, Order, ParentTableCfg, RawTableCfg, SiteCfg, TableCfg, TableSize,
    ThemeCfg, UpdateCfg, ViewCfg, ViewOrderByCfg,
};
pub use auth::{LoginParams, LoginResponse};
pub use codec::HexError;
pub use dashboard::{DashboardGraph, DateFormatCall, DateGranularity, Datum, DbBackend};
pub use datetime::Timestamp;
pub use graphql::OperationKind;
pub use initializer::CasbinEnforcerInitializer;
pub use policy::PolicyParams;
pub use routes::{HttpMethod, RouteDef, RouteSet};
pub use schema::{ColumnDefault, ColumnSpec, ColumnType, ForeignKeySpec, TableSpec};
pub use seed::{
    BakerSeed, BakerySeed, BakerySeedPlan, CakeBakerSeed, CakeSeed, CsvTerminator, MigrationAction,
    SeedEncoding, SeedFile,
};
pub use upload::UploadError;
pub use users::{CurrentResponse, Permission, UserRecord};
pub use parser::ConfigParser;
pub use res::Res;
pub use tables::ConfigMap;

verus! {

} // verus!
