use dbt_docs_server::column_lineage::{
    finish_get_column_lineage, plan_get_column_lineage, ColumnEdge, LineageError,
};
use dbt_docs_server::dist_info::{DefaultDistInfoProvider, DistInfo, DistInfoProvider, TelemetryHydration};
use dbt_docs_server::health::get_health;
use dbt_docs_server::identity::get_identity;
use dbt_docs_server::project::{finish_get_project, project_reply};

#[test]
fn health_empty_start() {
    let reply = get_health("1.0", false, None);
    assert!(reply.body.ok);
    assert_eq!(reply.body.version, "1.0");
    assert!(!reply.body.project_loaded);
    assert_eq!(reply.body.generation, None);
    assert_eq!(reply.generation_header, None);
}

#[test]
fn health_loaded() {
    let reply = get_health("1.0", true, Some("2026-01-01T00:00:00Z".to_string()));
    assert!(reply.body.ok);
    assert_eq!(reply.body.version, "1.0");
    assert!(reply.body.project_loaded);
    assert_eq!(reply.generation_header, reply.body.generation);
    assert_eq!(
        reply.generation_header.as_deref(),
        Some("2026-01-01T00:00:00Z")
    );
}

#[test]
fn analytics_enabled_by_default() {
    let identity = get_identity(false, false, true);
    assert!(identity.analytics_enabled);
    assert!(!identity.is_logged_in);
}

#[test]
fn analytics_disabled_when_do_not_track() {
    let identity = get_identity(false, true, true);
    assert!(!identity.analytics_enabled);
    assert!(!identity.is_logged_in);
}

#[test]
fn yaml_opt_out_disables_analytics() {
    assert!(!get_identity(false, false, false).analytics_enabled);
}

#[test]
fn do_not_track_overrides_yaml_consent() {
    assert!(!get_identity(false, true, true).analytics_enabled);
}

#[test]
fn login_does_not_depend_on_consent() {
    let identity = get_identity(true, true, true);
    assert!(!identity.analytics_enabled);
    assert!(identity.is_logged_in);
}

#[test]
fn is_logged_in_false_by_oss_default() {
    let provider = DefaultDistInfoProvider;
    let info = provider.dist_info();
    assert_eq!(info.name, "oss");
    assert_eq!(info.version, provider.server_version());
    assert!(!info.is_logged_in);
    assert!(!get_identity(info.is_logged_in, false, true).is_logged_in);
    let hydration = provider.telemetry_hydration();
    assert_eq!(hydration.distribution, "oss");
    assert_eq!(hydration.dbt_version, provider.server_version());
    assert!(!hydration.is_logged_in);
    assert_eq!(hydration.dbt_cloud_project_id, "");
}

struct Fixed(bool);

impl DistInfoProvider for Fixed {
    fn dist_info(&self) -> DistInfo {
        DistInfo {
            name: "oss".to_string(),
            version: "unused",
            is_logged_in: self.0,
        }
    }
}

#[test]
fn is_logged_in_propagates_from_provider() {
    let info = Fixed(true).dist_info();
    assert!(get_identity(info.is_logged_in, false, true).is_logged_in);
}

#[test]
fn hydration_follows_the_distribution() {
    let hydration: TelemetryHydration = Fixed(true).telemetry_hydration();
    assert!(hydration.is_logged_in);
    assert_eq!(hydration.distribution, "oss");
    assert_eq!(hydration.dbt_version, "unused");
}

#[test]
fn project_is_its_one_row() {
    assert_eq!(
        finish_get_project(Some("[{\"name\": \"js\", \"git_is_dirty\": false}]")).unwrap(),
        "{\"git_is_dirty\":false,\"name\":\"js\"}"
    );
    let reply = finish_get_project(None).unwrap_err();
    assert_eq!(reply.status, 404);
    assert_eq!(reply.fields[0].1, "no project metadata found in dbt.project");
    assert_eq!(finish_get_project(Some("[]")).unwrap_err().status, 404);
    assert_eq!(finish_get_project(Some("[{")).unwrap_err().status, 500);
    assert_eq!(
        project_reply(Err("boom".to_string())).unwrap_err().fields[0].1,
        "boom"
    );
}

#[test]
fn column_lineage_is_asked_for_all_columns() {
    let args = plan_get_column_lineage("model.a").unwrap();
    assert_eq!(args.unique_id, "model.a");
    assert_eq!(args.column, None);
    assert!(!args.upstream && !args.downstream);
    assert_eq!(plan_get_column_lineage("").unwrap_err().status, 400);
    assert_eq!(plan_get_column_lineage("a'b").unwrap_err().status, 400);
}

#[test]
fn column_lineage_has_its_edges() {
    let edge = ColumnEdge {
        from_node: "model.a".to_string(),
        from_column: "id".to_string(),
        to_node: "model.b".to_string(),
        to_column: "a_id".to_string(),
        kind: "passthrough".to_string(),
    };
    let lineage = finish_get_column_lineage("model.b", Ok(vec![edge])).unwrap();
    assert_eq!(lineage.root, "model.b");
    assert_eq!(lineage.edges[0].kind, "passthrough");
}

#[test]
fn column_lineage_that_is_not_there_says_why() {
    let refusal =
        finish_get_column_lineage("model.b", Err(LineageError::NotAvailable)).unwrap_err();
    assert_eq!(refusal.error.status, 412);
    assert_eq!(
        refusal.error.fields[0],
        (
            "code".to_string(),
            "column_lineage_unavailable".to_string()
        )
    );
    assert_eq!(refusal.error.fields[2].0, "upgrade_path");
    let refusal = finish_get_column_lineage(
        "model.b",
        Err(LineageError::NodeNotFound("model.b".to_string())),
    )
    .unwrap_err();
    assert_eq!(refusal.error.status, 404);
    assert_eq!(refusal.error.fields[1].1, "node model.b not found");
    let refusal = finish_get_column_lineage(
        "model.b",
        Err(LineageError::ColumnNotFound {
            node: "model.b".to_string(),
            column: "x".to_string(),
            available: vec!["id".to_string()],
        }),
    )
    .unwrap_err();
    assert_eq!(refusal.error.status, 404);
    assert_eq!(
        refusal.error.fields[1].1,
        "column 'x' not found in lineage for node 'model.b'"
    );
    assert_eq!(refusal.available_columns, Some(vec!["id".to_string()]));
    let refusal = finish_get_column_lineage(
        "model.b",
        Err(LineageError::Backend("boom".to_string())),
    )
    .unwrap_err();
    assert_eq!(refusal.error.status, 500);
    assert_eq!(refusal.available_columns, None);
}
