use sea_orm_pro_backend::config::{RawTableCfg, TableCfg};
use sea_orm_pro_backend::parser::{reload_config_per_request, ConfigParser};
use sea_orm_pro_backend::tables::ConfigMap;

#[test]
fn table_cfg_default_shows_all_columns() {
    let cfg = TableCfg::default();
    assert!(cfg.all_columns);
    assert!(cfg.columns.is_empty());
    assert!(cfg.hidden_columns.is_empty());
    assert!(cfg.order_by.is_none());
    assert!(cfg.page_size.is_none());
    assert!(cfg.table_size.is_none());
    assert!(cfg.title.is_none());
}

#[test]
fn raw_table_cfg_default_allows_no_writes() {
    let cfg = RawTableCfg::default();
    assert!(!cfg.create.enable);
    assert!(!cfg.update.enable);
    assert!(!cfg.delete.enable);
    assert!(cfg.filter.hidden_columns.is_empty());
    assert!(cfg.update.readonly_columns.is_empty());
}

#[test]
fn config_map_insert_and_get() {
    let mut map: ConfigMap<u32> = ConfigMap::new();
    assert_eq!(map.len(), 0);
    assert!(map.get("customer").is_none());
    map.insert("customer".to_string(), 1);
    map.insert("product".to_string(), 2);
    assert_eq!(map.len(), 2);
    assert_eq!(map.get("customer"), Some(&1));
    assert_eq!(map.get("product"), Some(&2));
    assert!(map.get("address").is_none());
}

#[test]
fn config_map_insert_existing_key_keeps_place() {
    let mut map: ConfigMap<u32> = ConfigMap::new();
    map.insert("customer".to_string(), 1);
    map.insert("product".to_string(), 2);
    map.insert("customer".to_string(), 9);
    assert_eq!(map.len(), 2);
    assert_eq!(map.get("customer"), Some(&9));
    let entries = map.entries();
    assert_eq!(entries[0].0, "customer");
    assert_eq!(entries[0].1, 9);
    assert_eq!(entries[1].0, "product");
}

#[test]
fn table_name_of_file_stops_at_first_dot() {
    let parser = ConfigParser::new();
    assert_eq!(parser.table_name_of_file("customer.toml"), Some("customer".to_string()));
    assert_eq!(parser.table_name_of_file("a.b.c"), Some("a".to_string()));
    assert_eq!(parser.table_name_of_file(".hidden"), Some(String::new()));
    assert_eq!(parser.table_name_of_file("noext"), None);
    assert_eq!(parser.table_name_of_file(""), None);
}

#[test]
fn default_site_config_carries_fallback_theme() {
    let cfg = ConfigParser::new().default_site_config();
    assert_eq!(cfg.site.theme.title, "SeaORM Pro");
    assert_eq!(cfg.site.theme.logo, "https://www.sea-ql.org/favicon.ico");
    assert_eq!(cfg.site.theme.login_banner, "https://www.sea-ql.org/img/SeaQL%20logo.png");
    assert!(cfg.site.menu.dashboard.title.is_none());
    assert_eq!(cfg.raw_tables.len(), 0);
    assert_eq!(cfg.composite_tables.len(), 0);
}

#[test]
fn default_dashboard_config_carries_intro_card() {
    let dashboard = ConfigParser::new().default_dashboard_config();
    assert_eq!(dashboard.title, "SeaORM Pro");
    assert_eq!(dashboard.subtitle, "Build professional admin panels with SeaORM Pro.");
    let info = dashboard.info.expect("card expected");
    assert_eq!(info.card.len(), 1);
    assert_eq!(info.card[0].title, "What is SeaORM Pro?");
    assert!(dashboard.row.is_empty());
}

#[test]
fn config_is_reloaded_only_outside_production() {
    assert!(reload_config_per_request(false));
    assert!(!reload_config_per_request(true));
}

#[test]
fn load_config_combines_parts() {
    let parser = ConfigParser::new();
    let base = parser.default_site_config();
    let dashboard = parser.default_dashboard_config();
    let raw = vec![
        ("customer".to_string(), RawTableCfg::default()),
        ("product".to_string(), RawTableCfg::default()),
    ];
    let cfg = ConfigParser::new().load_config(base, dashboard, raw, Vec::new());
    assert_eq!(cfg.site.theme.title, "SeaORM Pro");
    assert_eq!(cfg.dashboard.title, "SeaORM Pro");
    assert_eq!(cfg.raw_tables.len(), 2);
    assert!(cfg.raw_tables.get("customer").is_some());
    assert!(cfg.raw_tables.get("product").is_some());
    assert_eq!(cfg.composite_tables.len(), 0);
}
