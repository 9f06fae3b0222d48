use firesale::entry::{CollectionQuery, DocumentQuery, EntryPoint};
use firesale::environment::{resolve_context, Environment, Options, MISSING_CREDENTIALS};
use firesale::invocation::plan_invocation;

fn env(path: Option<&str>, id: Option<&str>) -> Environment {
    Environment::new(path.map(String::from), id.map(String::from))
}

#[test]
fn environment_pair_used_without_cli_override() {
    let options = Options::new(env(None, None));
    let environ = env(Some("/keys/sa.json"), Some("env-project"));
    let params = resolve_context(&options, &environ).unwrap();
    assert_eq!(params.project_id, "env-project");
    assert_eq!(params.service_account_path, "/keys/sa.json");
}

#[test]
fn cli_pair_takes_precedence_over_environment() {
    let options = Options::new(env(Some("/cli/sa.json"), Some("cli-project")));
    let environ = env(Some("/keys/sa.json"), Some("env-project"));
    let params = resolve_context(&options, &environ).unwrap();
    assert_eq!(params.project_id, "cli-project");
    assert_eq!(params.service_account_path, "/cli/sa.json");
}

#[test]
fn cli_pair_used_with_empty_environment() {
    let options = Options::new(env(Some("/cli/sa.json"), Some("cli-project")));
    let params = resolve_context(&options, &env(None, None)).unwrap();
    assert_eq!(params.project_id, "cli-project");
    assert_eq!(params.service_account_path, "/cli/sa.json");
}

#[test]
fn partial_cli_pair_falls_back_to_environment_pair() {
    let options = Options::new(env(None, Some("cli-project")));
    let environ = env(Some("/keys/sa.json"), Some("env-project"));
    let params = resolve_context(&options, &environ).unwrap();
    assert_eq!(params.project_id, "env-project");
    assert_eq!(params.service_account_path, "/keys/sa.json");
}

#[test]
fn halves_from_two_sources_are_never_combined() {
    let options = Options::new(env(None, Some("cli-project")));
    let environ = env(Some("/keys/sa.json"), None);
    let err = resolve_context(&options, &environ).unwrap_err();
    assert!(!err.is_empty());
    assert_eq!(err, MISSING_CREDENTIALS);
}

#[test]
fn no_pair_anywhere_fails() {
    let err = resolve_context(&Options::new(env(None, None)), &env(None, None)).unwrap_err();
    assert!(!err.is_empty());
}

#[test]
fn no_pair_means_no_handler_runs() {
    let entry = EntryPoint::GetDocument(DocumentQuery::new("c".to_string(), "d".to_string()));
    let r = plan_invocation(&Options::new(env(None, None)), &env(None, Some("p")), entry);
    assert!(r.unwrap_err().len() > 0);
}

#[test]
fn usage_makes_no_database_call() {
    let options = Options::new(env(Some("/cli/sa.json"), Some("cli-project")));
    let r = plan_invocation(&options, &env(None, None), EntryPoint::Usage("help".to_string()));
    assert!(r.unwrap().is_none());
}

#[test]
fn database_action_carries_context_and_query() {
    let entry = EntryPoint::ViewCollection(CollectionQuery::new("mycollection".to_string()));
    let environ = env(Some("/keys/sa.json"), Some("env-project"));
    let call = plan_invocation(&Options::new(env(None, None)), &environ, entry).unwrap().unwrap();
    assert_eq!(call.context.project_id, "env-project");
    assert_eq!(call.context.service_account_path, "/keys/sa.json");
    match call.action {
        EntryPoint::ViewCollection(query) => assert_eq!(query.collection_name(), "mycollection"),
        other => panic!("unexpected action {:?}", other),
    }
}

#[test]
fn required_flags_follow_environment() {
    let full = env(Some("/keys/sa.json"), Some("p"));
    assert!(!full.project_id_required());
    assert!(!full.credentials_required());
    let empty = env(None, None);
    assert!(empty.project_id_required());
    assert!(empty.credentials_required());
    let half = env(Some("/keys/sa.json"), None);
    assert!(half.project_id_required());
    assert!(!half.credentials_required());
}
