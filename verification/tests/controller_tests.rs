use sea_orm_pro_backend::auth::{login_allowed, LoginResponse};
use sea_orm_pro_backend::dashboard::{
    date_format_call, int_keyword, parse_graph, requires_date_range, DashboardGraph,
    DateGranularity, DbBackend,
};
use sea_orm_pro_backend::graphql::{
    has_mutation, readonly_error_message, readonly_rejects, OperationKind,
};
use sea_orm_pro_backend::initializer::CasbinEnforcerInitializer;
use sea_orm_pro_backend::policy::PolicyParams;
use sea_orm_pro_backend::res::Res;
use sea_orm_pro_backend::upload::{upload_path, upload_response, UploadError};
use sea_orm_pro_backend::users::{
    current_response, permissions_from_policies, Permission, UserRecord,
};

#[test]
fn res_reports_success_and_failure() {
    let ok = Res::success("done".to_string());
    assert!(ok.success);
    assert_eq!(ok.message, "done");
    let bad = Res::fail("broken".to_string());
    assert!(!bad.success);
    assert_eq!(bad.message, "broken");
}

#[test]
fn policy_params_round_trip() {
    let p = PolicyParams {
        subject: "alice".to_string(),
        object: "data1".to_string(),
        action: "read".to_string(),
    };
    let v = p.to_vec();
    assert_eq!(v, vec!["alice", "data1", "read"]);
    let q = PolicyParams::from_vec(v);
    assert_eq!(q.subject, "alice");
    assert_eq!(q.object, "data1");
    assert_eq!(q.action, "read");
}

#[test]
fn policy_params_from_short_vec_reads_empty() {
    let q = PolicyParams::from_vec(vec!["alice".to_string()]);
    assert_eq!(q.subject, "alice");
    assert_eq!(q.object, "");
    assert_eq!(q.action, "");
}

#[test]
fn permissions_map_each_policy() {
    let policies = vec![
        vec!["alice".to_string(), "data1".to_string(), "read".to_string()],
        vec!["bob".to_string(), "data2".to_string()],
    ];
    let perms = permissions_from_policies(policies);
    assert_eq!(perms.len(), 2);
    assert_eq!(perms[0].name, "alice");
    assert_eq!(perms[0].resource, "data1");
    assert_eq!(perms[0].action, "read");
    assert_eq!(perms[1].name, "bob");
    assert_eq!(perms[1].action, "");
}

#[test]
fn user_record_update_changes_only_given_fields() {
    let mut user = UserRecord::new(
        "a@b.c".to_string(),
        "Ada".to_string(),
        "hash0".to_string(),
        "pid0".to_string(),
        "key0".to_string(),
    );
    user.apply_update(None, Some("hash1".to_string()), Some("Grace".to_string()));
    assert_eq!(user.email, "a@b.c");
    assert_eq!(user.password_hash, "hash1");
    assert_eq!(user.name, "Grace");
    assert_eq!(user.pid, "pid0");
    assert_eq!(user.api_key, "key0");
    user.apply_update(Some("g@h.i".to_string()), None, None);
    assert_eq!(user.email, "g@h.i");
    assert_eq!(user.password_hash, "hash1");
}

#[test]
fn current_response_copies_the_profile() {
    let user = UserRecord::new(
        "a@b.c".to_string(),
        "Ada".to_string(),
        "hash".to_string(),
        "pid".to_string(),
        "key".to_string(),
    );
    let perms = vec![Permission {
        name: "a@b.c".to_string(),
        resource: "data1".to_string(),
        action: "read".to_string(),
    }];
    let resp = current_response(&user, perms);
    assert_eq!(resp.pid, "pid");
    assert_eq!(resp.name, "Ada");
    assert_eq!(resp.email, "a@b.c");
    assert_eq!(resp.permissions.len(), 1);
}

#[test]
fn login_decision_and_response() {
    assert!(login_allowed(true, true));
    assert!(!login_allowed(true, false));
    assert!(!login_allowed(false, true));
    let user = UserRecord::new(
        "a@b.c".to_string(),
        "Ada".to_string(),
        "hash".to_string(),
        "pid".to_string(),
        "key".to_string(),
    );
    let resp = LoginResponse::new(&user, &"token".to_string());
    assert_eq!(resp.token, "token");
    assert_eq!(resp.pid, "pid");
    assert_eq!(resp.name, "Ada");
    assert!(resp.is_verified);
}

#[test]
fn parse_graph_knows_the_three_graphs() {
    assert_eq!(
        parse_graph("new_customer_by_month"),
        Some(DashboardGraph::NewCustomerByMonth)
    );
    assert_eq!(parse_graph("sales_value_by_day"), Some(DashboardGraph::SalesValueByDay));
    assert_eq!(
        parse_graph("product_by_product_category"),
        Some(DashboardGraph::ProductByProductCategory)
    );
    assert_eq!(parse_graph("unknown"), None);
    assert!(requires_date_range(DashboardGraph::NewCustomerByMonth));
    assert!(requires_date_range(DashboardGraph::SalesValueByDay));
    assert!(!requires_date_range(DashboardGraph::ProductByProductCategory));
}

#[test]
fn date_format_call_per_backend() {
    let c = date_format_call(DbBackend::MySql, DateGranularity::YearMonth);
    assert_eq!(c.function, "DATE_FORMAT");
    assert_eq!(c.format, "%Y-%m");
    assert!(!c.format_first);
    let c = date_format_call(DbBackend::Postgres, DateGranularity::Day);
    assert_eq!(c.function, "TO_CHAR");
    assert_eq!(c.format, "YYYY-mm-dd");
    assert!(!c.format_first);
    let c = date_format_call(DbBackend::Sqlite, DateGranularity::Day);
    assert_eq!(c.function, "STRFTIME");
    assert_eq!(c.format, "%Y-%m-%d");
    assert!(c.format_first);
}

#[test]
fn int_keyword_per_backend() {
    assert_eq!(int_keyword(DbBackend::MySql), "SIGNED INTEGER");
    assert_eq!(int_keyword(DbBackend::Postgres), "INT4");
    assert_eq!(int_keyword(DbBackend::Sqlite), "INT");
}

#[test]
fn readonly_gate_refuses_demo_mutations() {
    let queries = vec![OperationKind::Query, OperationKind::Subscription];
    let mixed = vec![OperationKind::Query, OperationKind::Mutation];
    assert!(!has_mutation(&queries));
    assert!(has_mutation(&mixed));
    assert!(!readonly_rejects(false, &mixed));
    assert!(!readonly_rejects(true, &queries));
    assert!(readonly_rejects(true, &mixed));
    assert_eq!(
        readonly_error_message(),
        "Demo Site is Readonly, to test the full CRUD please run the demo on your local machine"
    );
}

#[test]
fn upload_decisions() {
    assert_eq!(
        upload_path(Some("logo.png".to_string())),
        Ok("folder/logo.png".to_string())
    );
    assert_eq!(upload_path(None), Err(UploadError::MissingFileName));
    assert_eq!(
        upload_response(Some("folder/logo.png".to_string())),
        Ok("folder/logo.png".to_string())
    );
    assert_eq!(upload_response(None), Err(UploadError::NoFile));
}

#[test]
fn initializer_registers_under_its_name() {
    assert_eq!(CasbinEnforcerInitializer.name(), "casbin-enforcer");
}
