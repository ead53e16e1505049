//! The admin panel's configuration model.
//!
//! A panel is described by a site section (theme and menu), a dashboard
//! section, and one configuration per table, either raw or composite.
//! Each `Default` here carries a contract stating exactly the value that
//! an omitted section falls back to.

use crate::tables::ConfigMap;
use vstd::prelude::*;

verus! {

/// The whole panel configuration.
#[derive(Debug, Clone)]
pub struct JsonCfg {
    /// Site config.
    pub site: SiteCfg,
    /// Dashboard config.
    pub dashboard: DashboardCfg,
    /// Raw table config, keyed by table name.
    pub raw_tables: ConfigMap<RawTableCfg>,
    /// Composite table config, keyed by table name.
    pub composite_tables: ConfigMap<CompositeTableCfg>,
}

impl JsonCfg {
    /// Both table maps hold each name at most once.
    pub open spec fn wf(&self) -> bool {
        self.raw_tables.wf() && self.composite_tables.wf()
    }
}

/// Site config.
#[derive(Debug, Clone)]
pub struct SiteCfg {
    /// Theme config.
    pub theme: ThemeCfg,
    /// Menu config.
    pub menu: MenuCfg,
}

/// Theme config.
#[derive(Debug, Clone)]
pub struct ThemeCfg {
    /// Title of admin panel.
    pub title: String,
    /// File path of admin panel logo.
    pub logo: String,
    /// File path of admin panel login banner.
    pub login_banner: String,
}

/// Menu config.
#[derive(Debug, Clone)]
pub struct MenuCfg {
    /// Dashboard menu item.
    pub dashboard: MenuItemCfg,
    /// Raw table menu item.
    pub raw_table: MenuItemCfg,
    /// Composite table menu item.
    pub composite_table: MenuItemCfg,
}

impl Default for MenuCfg {
    /// Every menu item keeps its built-in title and stays visible.
    fn default() -> (r: MenuCfg)
        ensures
            r.dashboard.title is None && r.dashboard.hidden is None,
            r.raw_table.title is None && r.raw_table.hidden is None,
            r.composite_table.title is None && r.composite_table.hidden is None,
    {
        MenuCfg {
            dashboard: MenuItemCfg::default(),
            raw_table: MenuItemCfg::default(),
            composite_table: MenuItemCfg::default(),
        }
    }
}

/// Menu item config.
#[derive(Debug, Clone)]
pub struct MenuItemCfg {
    /// Title of menu item.
    pub title: Option<String>,
    /// Hide in menu.
    pub hidden: Option<bool>,
}

impl Default for MenuItemCfg {
    /// An omitted menu item keeps its built-in title and stays visible.
    fn default() -> (r: MenuItemCfg)
        ensures
            r.title is None,
            r.hidden is None,
    {
        MenuItemCfg { title: None, hidden: None }
    }
}

/// Dashboard config.
#[derive(Debug, Clone)]
pub struct DashboardCfg {
    /// Dashboard title.
    pub title: String,
    /// Dashboard subtitle.
    pub subtitle: String,
    /// Info cards shown above the panels.
    pub info: Option<DashboardInfo>,
    /// Panel rows.
    pub row: Vec<DashboardRow>,
}

impl Default for DashboardCfg {
    /// An omitted dashboard is empty: no titles, no cards, no rows.
    fn default() -> (r: DashboardCfg)
        ensures
            r.title@ == Seq::<char>::empty(),
            r.subtitle@ == Seq::<char>::empty(),
            r.info is None,
            r.row@ == Seq::<DashboardRow>::empty(),
    {
        DashboardCfg { title: String::new(), subtitle: String::new(), info: None, row: Vec::new() }
    }
}

/// Dashboard info.
#[derive(Debug, Clone)]
pub struct DashboardInfo {
    /// The info cards.
    pub card: Vec<DashboardInfoCard>,
}

/// Dashboard info card.
#[derive(Debug, Clone)]
pub struct DashboardInfoCard {
    /// Card title.
    pub title: String,
    /// Card description.
    pub description: String,
    /// Link opened by the card.
    pub link: String,
}

/// Dashboard panel row.
#[derive(Debug, Clone)]
pub struct DashboardRow {
    /// Gutter between the row's columns.
    pub gutter: u32,
    /// The row's columns.
    pub col: Vec<DashboardRowCol>,
}

/// Dashboard panel column.
#[derive(Debug, Clone)]
pub struct DashboardRowCol {
    /// How many grid units the column spans.
    pub span: u32,
    /// Column title.
    pub title: String,
    /// Chart drawn in the column.
    pub chart: Option<DashboardChart>,
}

/// Chart drawn in a dashboard column.
#[derive(Debug, Clone)]
pub struct DashboardChart {
    /// Which graph the chart draws.
    pub chart: String,
    /// Kind of chart.
    pub kind: String,
    /// Time scale of the x axis.
    pub timescale: Option<String>,
    /// Start of the drawn date range.
    pub from_date: Option<String>,
    /// End of the drawn date range.
    pub to_date: Option<String>,
    /// Date range drawn when none is picked.
    pub default_date_range: Option<String>,
    /// Title of the x axis.
    pub x_axis_title: Option<String>,
    /// Title of the y axis.
    pub y_axis_title: Option<String>,
}

/// Composite table config.
#[derive(Debug, Clone)]
pub struct CompositeTableCfg {
    /// Parent table config.
    pub parent: ParentTableCfg,
    /// Child tables config.
    pub children: Vec<ChildTableCfg>,
}

impl Default for CompositeTableCfg {
    /// An omitted composite table has a default parent and no children.
    fn default() -> (r: CompositeTableCfg)
        ensures
            r.parent.name@ == Seq::<char>::empty(),
            r.parent.parent_config.is_default(),
            r.children@ == Seq::<ChildTableCfg>::empty(),
    {
        CompositeTableCfg { parent: ParentTableCfg::default(), children: Vec::new() }
    }
}

/// Parent table config.
#[derive(Debug, Clone)]
pub struct ParentTableCfg {
    /// Name of the parent table.
    pub name: String,
    /// Parent table config.
    pub parent_config: RawTableCfg,
}

impl Default for ParentTableCfg {
    /// An omitted parent has an empty name and a default config.
    fn default() -> (r: ParentTableCfg)
        ensures
            r.name@ == Seq::<char>::empty(),
            r.parent_config.is_default(),
    {
        ParentTableCfg { name: String::new(), parent_config: RawTableCfg::default() }
    }
}

/// Child table config.
#[derive(Debug, Clone)]
pub struct ChildTableCfg {
    /// Name of the relation leading to the child table.
    pub relation: String,
    /// Child table config.
    pub child_config: RawTableCfg,
}

impl Default for ChildTableCfg {
    /// An omitted child has an empty relation and a default config.
    fn default() -> (r: ChildTableCfg)
        ensures
            r.relation@ == Seq::<char>::empty(),
            r.child_config.is_default(),
    {
        ChildTableCfg { relation: String::new(), child_config: RawTableCfg::default() }
    }
}

/// Raw table config.
#[derive(Debug, Clone)]
pub struct RawTableCfg {
    /// Table config.
    pub table: TableCfg,
    /// Filter config.
    pub filter: FilterCfg,
    /// View config.
    pub view: ViewCfg,
    /// Create config.
    pub create: CreateCfg,
    /// Update config.
    pub update: UpdateCfg,
    /// Delete config.
    pub delete: DeleteCfg,
}

impl RawTableCfg {
    /// Every section holds its fallback value.
    pub open spec fn is_default(&self) -> bool {
        &&& self.table.is_default()
        &&& self.filter.hidden_columns@ == Seq::<String>::empty()
        &&& self.create.enable == false
        &&& self.create.hidden_columns@ == Seq::<String>::empty()
        &&& self.update.enable == false
        &&& self.update.hidden_columns@ == Seq::<String>::empty()
        &&& self.update.readonly_columns@ == Seq::<String>::empty()
        &&& self.delete.enable == false
    }
}

impl Default for RawTableCfg {
    /// An omitted raw table shows every column and allows no writes.
    fn default() -> (r: RawTableCfg)
        ensures
            r.is_default(),
    {
        RawTableCfg {
            table: TableCfg::default(),
            filter: FilterCfg::default(),
            view: ViewCfg::default(),
            create: CreateCfg::default(),
            update: UpdateCfg::default(),
            delete: DeleteCfg::default(),
        }
    }
}

/// Table config.
#[derive(Debug, Clone)]
pub struct TableCfg {
    /// Show all columns, those not mentioned under `columns` included.
    pub all_columns: bool,
    /// Column specific config.
    pub columns: Vec<ColumnCfg>,
    /// Columns hidden on the view table.
    pub hidden_columns: Vec<String>,
    /// Sorter of the view table.
    pub order_by: Option<ViewOrderByCfg>,
    /// Number of rows per page.
    pub page_size: Option<usize>,
    /// Display density.
    pub table_size: Option<TableSize>,
    /// Rename table title.
    pub title: Option<String>,
}

impl TableCfg {
    /// The fallback: every column shown, nothing hidden or overridden.
    pub open spec fn is_default(&self) -> bool {
        &&& self.all_columns == true
        &&& self.columns@ == Seq::<ColumnCfg>::empty()
        &&& self.hidden_columns@ == Seq::<String>::empty()
        &&& self.order_by is None
        &&& self.page_size is None
        &&& self.table_size is None
        &&& self.title is None
    }
}

impl Default for TableCfg {
    /// An omitted table config shows every column and overrides nothing.
    fn default() -> (r: TableCfg)
        ensures
            r.is_default(),
    {
        TableCfg {
            all_columns: true,
            columns: Vec::new(),
            hidden_columns: Vec::new(),
            order_by: None,
            page_size: None,
            table_size: None,
            title: None,
        }
    }
}

/// Filter config.
#[derive(Debug, Clone)]
pub struct FilterCfg {
    /// Columns hidden on the filter panel.
    pub hidden_columns: Vec<String>,
}

impl Default for FilterCfg {
    /// An omitted filter hides nothing.
    fn default() -> (r: FilterCfg)
        ensures
            r.hidden_columns@ == Seq::<String>::empty(),
    {
        FilterCfg { hidden_columns: Vec::new() }
    }
}

/// Display density of a table.
#[derive(Debug, Clone, Copy, PartialEq, Eq, Structural)]
pub enum TableSize {
    Large,
    Middle,
    Small,
}

/// Column specific config.
#[derive(Debug, Clone)]
pub struct ColumnCfg {
    /// Display title.
    pub title: Option<String>,
    /// Name of the SQL column.
    pub field: String,
    /// Name of the relation the column comes through.
    pub relation: Option<String>,
    /// Column width.
    pub width: Option<usize>,
    /// Data type.
    pub input_type: Option<String>,
    /// Clip long text.
    pub ellipsis: Option<bool>,
}

impl Default for ColumnCfg {
    /// An omitted column config names no column and overrides nothing.
    fn default() -> (r: ColumnCfg)
        ensures
            r.title is None,
            r.field@ == Seq::<char>::empty(),
            r.relation is None,
            r.width is None,
            r.input_type is None,
            r.ellipsis is None,
    {
        ColumnCfg {
            title: None,
            field: String::new(),
            relation: None,
            width: None,
            input_type: None,
            ellipsis: None,
        }
    }
}

/// View config.
#[derive(Debug, Clone)]
pub struct ViewCfg {}

impl Default for ViewCfg {
    /// The view config carries nothing yet.
    fn default() -> (r: ViewCfg)
        ensures
            r == (ViewCfg {  }),
    {
        ViewCfg {  }
    }
}

/// Sorter of the view table.
#[derive(Debug, Clone)]
pub struct ViewOrderByCfg {
    /// Sort by which column.
    pub field: String,
    /// Sort in ascending or descending direction.
    pub order: Order,
}

/// Sort direction.
#[derive(Debug, Clone, Copy, PartialEq, Eq, Structural)]
pub enum Order {
    Asc,
    Desc,
}

/// Create config.
#[derive(Debug, Clone)]
pub struct CreateCfg {
    /// Is create allowed for this table?
    pub enable: bool,
    /// Columns hidden on the create form.
    pub hidden_columns: Vec<String>,
}

impl Default for CreateCfg {
    /// Creation is off unless switched on.
    fn default() -> (r: CreateCfg)
        ensures
            r.enable == false,
            r.hidden_columns@ == Seq::<String>::empty(),
    {
        CreateCfg { enable: false, hidden_columns: Vec::new() }
    }
}

/// Update config.
#[derive(Debug, Clone)]
pub struct UpdateCfg {
    /// Is update allowed for this table?
    pub enable: bool,
    /// Columns hidden on the update form.
    pub hidden_columns: Vec<String>,
    /// Columns readonly on the update form.
    pub readonly_columns: Vec<String>,
}

impl Default for UpdateCfg {
    /// Updating is off unless switched on.
    fn default() -> (r: UpdateCfg)
        ensures
            r.enable == false,
            r.hidden_columns@ == Seq::<String>::empty(),
            r.readonly_columns@ == Seq::<String>::empty(),
    {
        UpdateCfg { enable: false, hidden_columns: Vec::new(), readonly_columns: Vec::new() }
    }
}

/// Delete config.
#[derive(Debug, Clone)]
pub struct DeleteCfg {
    /// Is delete allowed for this table?
    pub enable: bool,
}

impl Default for DeleteCfg {
    /// Deletion is off unless switched on.
    fn default() -> (r: DeleteCfg)
        ensures
            r.enable == false,
    {
        DeleteCfg { enable: false }
    }
}

} // verus!
