//! Assembling a panel configuration from its parsed parts.
//!
//! The panel's configuration lives in a directory: a site file, a dashboard
//! file, and one file per table under `raw_tables/` and `composite_tables/`.
//! Reading and deserialising those files is the caller's business; this
//! module holds everything that can be decided about the result: the
//! fallback values used when a file is missing, the table name taken from a
//! file name, and how the parts combine into one `JsonCfg`.

use crate::config::{
    CompositeTableCfg, DashboardCfg, DashboardInfo, DashboardInfoCard, JsonCfg, MenuCfg,
    RawTableCfg, SiteCfg, ThemeCfg,
};
use crate::tables::{assoc_insert, assoc_insert_all, ConfigMap};
use vstd::prelude::*;

verus! {

/// Index of the first `'.'` in `s`, or `-1` when `s` has none.
pub open spec fn first_dot(s: Seq<char>) -> int
    decreases s.len(),
{
    if s.len() == 0 {
        -1
    } else if s[0] == '.' {
        0
    } else if first_dot(s.drop_first()) == -1 {
        -1
    } else {
        1 + first_dot(s.drop_first())
    }
}

/// When `'.'` first occurs at `i`, `first_dot` says so.
proof fn lemma_first_dot_at(s: Seq<char>, i: int)
    requires
        0 <= i < s.len(),
        s[i] == '.',
        forall|j: int| 0 <= j < i ==> s[j] != '.',
    ensures
        first_dot(s) == i,
    decreases i,
{
    if i > 0 {
        lemma_first_dot_at(s.drop_first(), i - 1);
    }
}

/// When no character is a `'.'`, `first_dot` finds none.
proof fn lemma_first_dot_none(s: Seq<char>)
    requires
        forall|j: int| 0 <= j < s.len() ==> s[j] != '.',
    ensures
        first_dot(s) == -1,
    decreases s.len(),
{
    if s.len() > 0 {
        lemma_first_dot_none(s.drop_first());
    }
}

/// The theme the panel falls back to when no site file is found.
pub open spec fn is_fallback_theme(t: ThemeCfg) -> bool {
    &&& t.title@ == "SeaORM Pro"@
    &&& t.logo@ == "https://www.sea-ql.org/favicon.ico"@
    &&& t.login_banner@ == "https://www.sea-ql.org/img/SeaQL%20logo.png"@
}

/// The dashboard the panel falls back to when no dashboard file is found:
/// titles and one introduction card, no panel rows.
pub open spec fn is_fallback_dashboard(d: DashboardCfg) -> bool {
    &&& d.title@ == "SeaORM Pro"@
    &&& d.subtitle@ == "Build professional admin panels with SeaORM Pro."@
    &&& d.info matches Some(info) && info.card@.len() == 1 && info.card@[0].title@
        == "What is SeaORM Pro?"@ && info.card@[0].description@
        == "SeaORM Pro is an admin panel solution allowing you to quickly and easily launch an admin panel for your application."@
        && info.card@[0].link@
        == "https://www.sea-ql.org/sea-orm-pro/docs/introduction/sea-orm-pro/"@
    &&& d.row@ == Seq::<crate::config::DashboardRow>::empty()
}

/// Whether the configuration is re-read from disk on each request: only
/// outside production, where edits should show at once; production serves
/// the configuration loaded at boot.
pub fn reload_config_per_request(production: bool) -> (r: bool)
    ensures
        r == !production,
{
    !production
}

/// Reads a directory of configuration files into one `JsonCfg`.
pub struct ConfigParser {}

impl ConfigParser {
    /// A fresh parser.
    pub fn new() -> ConfigParser {
        ConfigParser {  }
    }

    /// The table name carried by a configuration file's name: everything
    /// before the first `'.'`. A name without a `'.'` carries none.
    pub fn table_name_of_file(&self, file_name: &str) -> (r: Option<String>)
        ensures
            (r is Some) <==> first_dot(file_name@) >= 0,
            r matches Some(name) ==> name@ == file_name@.subrange(0, first_dot(file_name@)),
    {
        let n = file_name.unicode_len();
        for i in 0..n
            invariant
                n == file_name@.len(),
                forall|j: int| 0 <= j < i ==> file_name@[j] != '.',
        {
            if file_name.get_char(i) == '.' {
                proof {
                    lemma_first_dot_at(file_name@, i as int);
                }
                let stem = file_name.substring_char(0, i);
                return Some(stem.to_owned());
            }
        }
        proof {
            lemma_first_dot_none(file_name@);
        }
        None
    }

    /// The configuration used when the site file is missing: the fallback
    /// theme, a default menu, a default dashboard and no tables.
    pub fn default_site_config(&self) -> (r: JsonCfg)
        ensures
            is_fallback_theme(r.site.theme),
            r.site.menu.dashboard.title is None && r.site.menu.dashboard.hidden is None,
            r.site.menu.raw_table.title is None && r.site.menu.raw_table.hidden is None,
            r.site.menu.composite_table.title is None && r.site.menu.composite_table.hidden
                is None,
            r.dashboard.title@ == Seq::<char>::empty(),
            r.dashboard.subtitle@ == Seq::<char>::empty(),
            r.dashboard.info is None,
            r.dashboard.row@ == Seq::<crate::config::DashboardRow>::empty(),
            r.raw_tables@ == Seq::<(Seq<char>, RawTableCfg)>::empty(),
            r.composite_tables@ == Seq::<(Seq<char>, CompositeTableCfg)>::empty(),
            r.wf(),
    {
        JsonCfg {
            site: SiteCfg {
                theme: ThemeCfg {
                    title: "SeaORM Pro".to_owned(),
                    logo: "https://www.sea-ql.org/favicon.ico".to_owned(),
                    login_banner: "https://www.sea-ql.org/img/SeaQL%20logo.png".to_owned(),
                },
                menu: MenuCfg::default(),
            },
            dashboard: DashboardCfg::default(),
            raw_tables: ConfigMap::new(),
            composite_tables: ConfigMap::new(),
        }
    }

    /// The dashboard used when the dashboard file is missing.
    pub fn default_dashboard_config(&self) -> (r: DashboardCfg)
        ensures
            is_fallback_dashboard(r),
    {
        let card = DashboardInfoCard {
            title: "What is SeaORM Pro?".to_owned(),
            description: "SeaORM Pro is an admin panel solution allowing you to quickly and easily launch an admin panel for your application.".to_owned(),
            link: "https://www.sea-ql.org/sea-orm-pro/docs/introduction/sea-orm-pro/".to_owned(),
        };
        let mut cards: Vec<DashboardInfoCard> = Vec::new();
        cards.push(card);
        DashboardCfg {
            title: "SeaORM Pro".to_owned(),
            subtitle: "Build professional admin panels with SeaORM Pro.".to_owned(),
            info: Some(DashboardInfo { card: cards }),
            row: Vec::new(),
        }
    }

    /// Combine the parsed parts into one configuration: the site part keeps
    /// its theme and menu, the dashboard part replaces the site's dashboard,
    /// and each named table configuration is inserted in the order given,
    /// later entries overriding earlier ones of the same name.
    pub fn load_config(
        self,
        base: JsonCfg,
        dashboard: DashboardCfg,
        raw_tables: Vec<(String, RawTableCfg)>,
        composite_tables: Vec<(String, CompositeTableCfg)>,
    ) -> (r: JsonCfg)
        requires
            base.wf(),
        ensures
            r.site == base.site,
            r.dashboard == dashboard,
            r.raw_tables@ == assoc_insert_all(
                base.raw_tables@,
                raw_tables@.map_values(|p: (String, RawTableCfg)| (p.0@, p.1)),
            ),
            r.composite_tables@ == assoc_insert_all(
                base.composite_tables@,
                composite_tables@.map_values(|p: (String, CompositeTableCfg)| (p.0@, p.1)),
            ),
            r.wf(),
    {
        let JsonCfg { site, dashboard: _, raw_tables: mut raw_map, composite_tables: mut composite_map } =
            base;
        let mut raw_entries = raw_tables;
        let mut composite_entries = composite_tables;

        let ghost raw_goal = assoc_insert_all(
            raw_map@,
            raw_entries@.map_values(|p: (String, RawTableCfg)| (p.0@, p.1)),
        );
        while raw_entries.len() > 0
            invariant
                raw_map.wf(),
                assoc_insert_all(
                    raw_map@,
                    raw_entries@.map_values(|p: (String, RawTableCfg)| (p.0@, p.1)),
                ) == raw_goal,
            decreases raw_entries.len(),
        {
            let ghost entries_before = raw_entries@.map_values(
                |p: (String, RawTableCfg)| (p.0@, p.1),
            );
            let (name, cfg) = raw_entries.remove(0);
            proof {
                assert(entries_before.drop_first() =~= raw_entries@.map_values(
                    |p: (String, RawTableCfg)| (p.0@, p.1),
                ));
            }
            raw_map.insert(name, cfg);
        }
        proof {
            assert(raw_entries@.map_values(|p: (String, RawTableCfg)| (p.0@, p.1))
                =~= Seq::<(Seq<char>, RawTableCfg)>::empty());
        }

        let ghost composite_goal = assoc_insert_all(
            composite_map@,
            composite_entries@.map_values(|p: (String, CompositeTableCfg)| (p.0@, p.1)),
        );
        while composite_entries.len() > 0
            invariant
                composite_map.wf(),
                assoc_insert_all(
                    composite_map@,
                    composite_entries@.map_values(|p: (String, CompositeTableCfg)| (p.0@, p.1)),
                ) == composite_goal,
            decreases composite_entries.len(),
        {
            let ghost entries_before = composite_entries@.map_values(
                |p: (String, CompositeTableCfg)| (p.0@, p.1),
            );
            let (name, cfg) = composite_entries.remove(0);
            proof {
                assert(entries_before.drop_first() =~= composite_entries@.map_values(
                    |p: (String, CompositeTableCfg)| (p.0@, p.1),
                ));
            }
            composite_map.insert(name, cfg);
        }
        proof {
            assert(composite_entries@.map_values(|p: (String, CompositeTableCfg)| (p.0@, p.1))
                =~= Seq::<(Seq<char>, CompositeTableCfg)>::empty());
        }

        JsonCfg { site, dashboard, raw_tables: raw_map, composite_tables: composite_map }
    }
}

} // verus!
