use subquery_cli::subquery::types::find_project_by_key;
use subquery_cli::subquery::types::ApiVersion;
use subquery_cli::subquery::types::Project;

fn project(key: &str, name: Option<&str>) -> Project {
    Project {
        api_version: ApiVersion::Latest,
        created_at: None,
        updated_at: None,
        key: key.to_string(),
        account: None,
        name: name.map(|n| n.to_string()),
        network: None,
        deployed: None,
        logo_url: None,
        subtitle: None,
        description: None,
        git_repository: None,
        hide: None,
        dedicate_db_key: None,
        query_url: None,
        deployment: None,
    }
}

#[test]
fn create_input_defaults_name_to_key_and_hides() {
    let p = Project::for_create(
        "acme".to_string(),
        "indexer".to_string(),
        None,
        None,
        None,
        "https://github.com/acme/indexer".to_string(),
        None,
        );
    assert_eq!(p.key, "acme/indexer");
    assert_eq!(p.account.as_deref(), Some("acme"));
    assert_eq!(p.name.as_deref(), Some("indexer"));
    assert_eq!(p.hide, Some(true));
    assert_eq!(
        p.git_repository.as_deref(),
        Some("https://github.com/acme/indexer")
    );
}

#[test]
fn create_input_keeps_explicit_name_and_hide() {
    let p = Project::for_create(
        "acme".to_string(),
        "indexer".to_string(),
        Some("Nice Name".to_string()),
        Some("sub".to_string()),
        Some("desc".to_string()),
        "repo/url".to_string(),
        Some(false),
    );
    assert_eq!(p.name.as_deref(), Some("Nice Name"));
    assert_eq!(p.hide, Some(false));
    assert_eq!(p.subtitle.as_deref(), Some("sub"));
    assert_eq!(p.description.as_deref(), Some("desc"));
}

#[test]
fn update_input_sets_only_supplied_fields() {
    let p = Project::for_update(
        "acme".to_string(),
        "indexer".to_string(),
        Some("New Name".to_string()),
        None,
        None,
        Some(false),
    );
    assert_eq!(p.key, "acme/indexer");
    assert_eq!(p.account, None);
    assert_eq!(p.git_repository, None);
    let patch = p.update_patch();
    assert_eq!(patch.name.as_deref(), Some("New Name"));
    assert_eq!(patch.subtitle, None);
    assert_eq!(patch.description, None);
    assert_eq!(patch.hide, Some(false));
}

#[test]
fn list_line_hides_a_name_equal_to_the_key_segment() {
    let p = project("acme/indexer", Some("indexer"));
    assert_eq!(p.list_line(), "acme/indexer");
}

#[test]
fn list_line_shows_a_differing_name() {
    let p = project("acme/indexer", Some("Nice Name"));
    assert_eq!(p.list_line(), "acme/indexer (Nice Name)");
    let unnamed = project("acme/indexer", None);
    assert_eq!(unnamed.list_line(), "acme/indexer ()");
}

#[test]
fn find_project_by_key_returns_first_match() {
    let ps = vec![
        project("acme/a", None),
        project("acme/b", None),
        project("acme/b", Some("dup")),
    ];
    assert_eq!(find_project_by_key(&ps, "acme/b"), Some(1));
    assert_eq!(find_project_by_key(&ps, "acme/c"), None);
}
