use subquery_cli::deploy::find_deployment_by_type;
use subquery_cli::deploy::plan_deploy;
use subquery_cli::deploy::select_promote_target;
use subquery_cli::deploy::select_redeploy_target;
use subquery_cli::deploy::DeployAction;
use subquery_cli::error::SubqueryError;
use subquery_cli::subquery::types::AdvancedSettings;
use subquery_cli::subquery::types::Commit;
use subquery_cli::subquery::types::CommitAuthor;
use subquery_cli::subquery::types::CreateDeployRequest;
use subquery_cli::subquery::types::Deployment;
use subquery_cli::subquery::types::DeploymentStatus;
use subquery_cli::subquery::types::DeploymentType;
use subquery_cli::subquery::types::Image;

fn request(type_: DeploymentType) -> CreateDeployRequest {
    CreateDeployRequest {
        commit: None,
        endpoint: None,
        dict_endpoint: None,
        indexer_image_version: None,
        query_image_version: None,
        type_,
        sub_folder: None,
        advanced_settings: AdvancedSettings::new(30, false),
    }
}

fn commit(sha: &str) -> Commit {
    Commit {
        sha: sha.to_string(),
        message: "msg".to_string(),
        time: 0,
        author: CommitAuthor { name: "a".to_string(), avatar_url: None },
    }
}

fn deployment(id: u64, type_: DeploymentType) -> Deployment {
    Deployment {
        created_at: 0,
        updated_at: None,
        id,
        project_key: "org/key".to_string(),
        version: "v".to_string(),
        status: DeploymentStatus::Running,
        cluster: "c".to_string(),
        indexer_image: "i".to_string(),
        query_image: "q".to_string(),
        sub_folder: None,
        endpoint: None,
        dict_endpoint: None,
        type_,
        query_url: "u".to_string(),
        query_cluster_url: None,
        metadata: None,
    }
}

fn image() -> Image {
    Image {
        indexer: vec!["v0.25.3".to_string(), "v0.25.2".to_string()],
        query: vec!["v0.8.0".to_string(), "v0.7.0".to_string()],
    }
}

fn custom_message(e: SubqueryError) -> String {
    match e {
        SubqueryError::Custom(m) => m,
        other => panic!("expected a custom error, got {:?}", other),
    }
}

#[test]
fn missing_commit_takes_first_of_list() {
    let req = request(DeploymentType::Stage);
    let commits = vec![commit("522ac5c"), commit("0ld3r")];
    let resolved = req.resolve_commit(&commits, "foo/bar", "main").unwrap();
    assert_eq!(resolved.commit.as_deref(), Some("522ac5c"));
}

#[test]
fn present_commit_is_kept() {
    let mut req = request(DeploymentType::Stage);
    req.commit = Some("mine".to_string());
    let commits = vec![commit("522ac5c")];
    let resolved = req.resolve_commit(&commits, "foo/bar", "main").unwrap();
    assert_eq!(resolved.commit.as_deref(), Some("mine"));
}

#[test]
fn empty_commit_list_fails_with_named_error() {
    let req = request(DeploymentType::Stage);
    let err = req.resolve_commit(&Vec::new(), "foo/bar", "main").unwrap_err();
    assert_eq!(
        custom_message(err),
        "No commit found in git repository foo/bar#main"
    );
}

#[test]
fn missing_images_take_first_of_each_list() {
    let req = request(DeploymentType::Stage);
    let resolved = req.resolve_images(&image()).unwrap();
    assert_eq!(resolved.indexer_image_version.as_deref(), Some("v0.25.3"));
    assert_eq!(resolved.query_image_version.as_deref(), Some("v0.8.0"));
}

#[test]
fn present_image_versions_are_kept() {
    let mut req = request(DeploymentType::Stage);
    req.indexer_image_version = Some("v9.9.9".to_string());
    let resolved = req.resolve_images(&image()).unwrap();
    assert_eq!(resolved.indexer_image_version.as_deref(), Some("v9.9.9"));
    assert_eq!(resolved.query_image_version.as_deref(), Some("v0.8.0"));
}

#[test]
fn empty_query_image_list_fails_first() {
    let req = request(DeploymentType::Stage);
    let bare = Image { indexer: Vec::new(), query: Vec::new() };
    let err = req.resolve_images(&bare).unwrap_err();
    assert_eq!(custom_message(err), "Not found query image");
}

#[test]
fn empty_indexer_image_list_fails_when_query_is_set() {
    let mut req = request(DeploymentType::Stage);
    req.query_image_version = Some("v0.8.0".to_string());
    let bare = Image { indexer: Vec::new(), query: Vec::new() };
    let err = req.resolve_images(&bare).unwrap_err();
    assert_eq!(custom_message(err), "Not found indexer image");
}

#[test]
fn full_resolution_never_leaves_a_hole() {
    let req = request(DeploymentType::Stage);
    let commits = vec![commit("522ac5c")];
    let resolved = req
        .resolve_commit(&commits, "foo/bar", "main")
        .unwrap()
        .resolve_images(&image())
        .unwrap();
    assert!(resolved.is_resolved());
    let wire = resolved.into_request();
    assert_eq!(wire.version, "522ac5c");
    assert_eq!(wire.indexer_image_version, "v0.25.3");
    assert_eq!(wire.query_image_version, "v0.8.0");
    assert_eq!(wire.type_, DeploymentType::Stage);
}

#[test]
fn redeploy_by_type_targets_first_of_that_type() {
    let ds = vec![
        deployment(1, DeploymentType::Stage),
        deployment(2, DeploymentType::Primary),
    ];
    assert_eq!(
        select_redeploy_target(None, &ds, DeploymentType::Primary),
        Some(2)
    );
    assert_eq!(
        select_redeploy_target(None, &ds, DeploymentType::Stage),
        Some(1)
    );
}

#[test]
fn explicit_id_wins_over_type_search() {
    let ds = vec![deployment(1, DeploymentType::Stage)];
    assert_eq!(
        select_redeploy_target(Some(7), &ds, DeploymentType::Primary),
        Some(7)
    );
    assert_eq!(select_promote_target(Some(7), &ds), Some(7));
}

#[test]
fn promote_without_stage_deployment_reports_not_found() {
    let ds = vec![deployment(2, DeploymentType::Primary)];
    assert_eq!(select_promote_target(None, &ds), None);
}

#[test]
fn promote_picks_first_stage_deployment() {
    let ds = vec![
        deployment(2, DeploymentType::Primary),
        deployment(5, DeploymentType::Stage),
        deployment(9, DeploymentType::Stage),
    ];
    assert_eq!(select_promote_target(None, &ds), Some(5));
}

#[test]
fn find_by_type_returns_first_position() {
    let ds = vec![
        deployment(1, DeploymentType::Stage),
        deployment(2, DeploymentType::Primary),
        deployment(3, DeploymentType::Primary),
    ];
    assert_eq!(find_deployment_by_type(&ds, DeploymentType::Primary), Some(1));
    let empty: Vec<Deployment> = Vec::new();
    assert_eq!(find_deployment_by_type(&empty, DeploymentType::Primary), None);
}

#[test]
fn force_deploy_deletes_then_creates() {
    let mut req = request(DeploymentType::Stage);
    req.commit = Some("c".to_string());
    req.indexer_image_version = Some("i".to_string());
    req.query_image_version = Some("q".to_string());
    let existing = vec![
        deployment(2, DeploymentType::Primary),
        deployment(5, DeploymentType::Stage),
    ];
    let plan = plan_deploy(&existing, req.clone(), true);
    assert_eq!(plan.len(), 2);
    assert!(matches!(plan[0], DeployAction::Delete(5)));
    match &plan[1] {
        DeployAction::Create(created) => {
            assert_eq!(created.commit.as_deref(), Some("c"));
            assert_eq!(created.indexer_image_version.as_deref(), Some("i"));
            assert_eq!(created.query_image_version.as_deref(), Some("q"));
        }
        other => panic!("expected a create action, got {:?}", other),
    }
}

#[test]
fn plain_deploy_only_creates() {
    let mut req = request(DeploymentType::Stage);
    req.commit = Some("c".to_string());
    req.indexer_image_version = Some("i".to_string());
    req.query_image_version = Some("q".to_string());
    let existing = vec![deployment(5, DeploymentType::Stage)];
    let plan = plan_deploy(&existing, req.clone(), false);
    assert_eq!(plan.len(), 1);
    assert!(matches!(plan[0], DeployAction::Create(_)));
    let plan = plan_deploy(&Vec::new(), req, true);
    assert_eq!(plan.len(), 1);
    assert!(matches!(plan[0], DeployAction::Create(_)));
}
