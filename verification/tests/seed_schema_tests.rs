use sea_orm_pro_backend::app_info::{build_label, version_string};
use sea_orm_pro_backend::routes::{
    admin_routes, api_prefix, auth_routes, mounted_controllers, upload_routes, user_routes,
    HttpMethod,
};
use sea_orm_pro_backend::schema::{
    address_table, full_schema, migration_names, sales_order_detail_table, user_table, ColumnType,
};
use sea_orm_pro_backend::seed::{
    bakery_seed_plan, batch_ranges, migration_action, refresh_requested, seed_schedule,
    CsvTerminator, MigrationAction, SeedEncoding,
};

#[test]
fn seed_schedule_reads_ten_files() {
    let files = seed_schedule();
    assert_eq!(files.len(), 10);
    assert_eq!(files[0].file, "Customer.tsv");
    assert_eq!(files[0].encoding, SeedEncoding::Windows1252);
    assert_eq!(files[0].delimiter, b'\t');
    assert_eq!(files[0].terminator, CsvTerminator::Crlf);
    assert_eq!(files[5].file, "ProductModel.tsv");
    assert_eq!(files[5].encoding, SeedEncoding::Utf16Le);
    assert_eq!(files[5].delimiter, b'~');
    assert_eq!(files[5].terminator, CsvTerminator::Byte(b'$'));
    assert_eq!(files[8].file, "ProductDescription.tsv");
    assert_eq!(files[8].encoding, SeedEncoding::Utf16Le);
    assert_eq!(files[9].file, "ProductModelProductDescription.tsv");
}

#[test]
fn refresh_only_on_exact_true() {
    assert!(refresh_requested(Some("true".to_string())));
    assert!(!refresh_requested(Some("TRUE".to_string())));
    assert!(!refresh_requested(Some("yes".to_string())));
    assert!(!refresh_requested(None));
    assert_eq!(migration_action(true), MigrationAction::Reset);
    assert_eq!(migration_action(false), MigrationAction::Migrate);
}

#[test]
fn batch_ranges_cover_the_rows() {
    assert_eq!(batch_ranges(250, 100), vec![(0, 100), (100, 200), (200, 250)]);
    assert_eq!(batch_ranges(100, 100), vec![(0, 100)]);
    assert_eq!(batch_ranges(1, 100), vec![(0, 1)]);
    assert_eq!(batch_ranges(0, 100), Vec::<(usize, usize)>::new());
}

#[test]
fn bakery_plan_is_consistent() {
    let plan = bakery_seed_plan();
    assert_eq!(plan.bakeries.len(), 2);
    assert_eq!(plan.bakeries[0].name, "SeaSide Bakery");
    assert_eq!(plan.bakeries[0].profit_margin_tenths, 104);
    assert_eq!(plan.bakeries[1].name, "LakeSide Bakery");
    assert_eq!(plan.bakeries[1].profit_margin_tenths, 58);
    assert_eq!(plan.bakers.len(), 2);
    assert_eq!(plan.bakers[0].name, "Alice");
    assert_eq!(plan.bakers[1].name, "Bob");
    assert_eq!(plan.cakes.len(), 12);
    assert_eq!(plan.cakes[0].name, "Chocolate Cake");
    assert_eq!(plan.cakes[0].price_cents, 1025);
    assert!(!plan.cakes[0].gluten_free);
    assert_eq!(plan.cakes[7].name, "Orange Cake");
    assert!(plan.cakes[7].gluten_free);
    assert_eq!(plan.assignments.len(), 12);
    for (i, a) in plan.assignments.iter().enumerate() {
        assert_eq!(a.cake, i);
        // every cake goes to the baker of its own bakery
        assert_eq!(plan.bakers[a.baker].bakery, plan.cakes[i].bakery);
    }
}

#[test]
fn schema_matches_the_migrations() {
    let address = address_table();
    assert_eq!(address.name, "address");
    assert_eq!(address.columns.len(), 9);
    assert_eq!(address.columns[1].name, "address_line1");
    assert_eq!(address.columns[1].column_type, ColumnType::StringLen(60));
    assert!(!address.columns[1].nullable);
    assert!(address.columns[2].nullable);
    assert_eq!(address.primary_key, vec!["address_id"]);

    let user = user_table();
    assert_eq!(user.columns.len(), 15);
    assert!(user.columns[4].unique);
    assert_eq!(user.columns[4].name, "email");

    let detail = sales_order_detail_table();
    assert_eq!(detail.primary_key, vec!["sales_order_id", "sales_order_detail_id"]);
    assert!(detail.foreign_keys[0].on_delete_cascade);
    assert_eq!(detail.foreign_keys[0].target_table, "sales_order_header");

    let schema = full_schema();
    assert_eq!(schema.len(), 11);
    for table in &schema {
        for fk in &table.foreign_keys {
            let target = schema
                .iter()
                .find(|t| t.name == fk.target_table)
                .expect("foreign key target exists");
            assert!(target.columns.iter().any(|c| c.name == fk.target_column));
        }
    }
}

#[test]
fn migrations_run_in_order() {
    let names = migration_names();
    assert_eq!(names.len(), 16);
    assert_eq!(names[0], "m20241101_000001_address");
    assert_eq!(names[10], "m20250101_000001_user");
    assert_eq!(names[15], "m20250527_070516_create_cake_baker_table");
}

#[test]
fn route_tables_match_the_controllers() {
    let auth = auth_routes();
    assert_eq!(auth.prefix, "auth");
    assert_eq!(auth.routes.len(), 9);
    assert_eq!(auth.routes[0].method, HttpMethod::Post);
    assert_eq!(auth.routes[0].path, "/login");
    assert_eq!(auth.routes[0].handler, "login");
    assert_eq!(auth.routes[8].path, "/remove_policy");

    let user = user_routes();
    assert_eq!(user.prefix, "user");
    assert_eq!(user.routes.len(), 6);
    assert_eq!(user.routes[1].path, "/current");
    assert_eq!(user.routes[5].method, HttpMethod::Delete);

    let admin = admin_routes();
    assert_eq!(admin.prefix, "admin");
    assert_eq!(admin.routes.len(), 2);
    assert_eq!(admin.routes[1].path, "/dashboard");

    let upload = upload_routes();
    assert_eq!(upload.prefix, "upload");
    assert_eq!(upload.routes[0].path, "/file");

    assert_eq!(api_prefix(), "/api");
    assert_eq!(mounted_controllers(), vec!["auth", "user", "graphql", "admin"]);
}

#[test]
fn version_string_carries_the_build_label() {
    assert_eq!(build_label(Some("abc".to_string()), None), "abc");
    assert_eq!(build_label(None, Some("def".to_string())), "def");
    assert_eq!(build_label(None, None), "dev");
    assert_eq!(version_string("0.1.0", "dev"), "0.1.0 (dev)");
}
