use stack_deploy::error::{DeployError, SchemaError};
use stack_deploy::parameters::{
    value_source, ParameterResolver, Prompt, ResolvedParameter, ResolverAction, ResolverSettings,
    ValueSource,
};
use stack_deploy::template::{ParameterSpec, TemplateSchema};

fn declared(name: &str, has_default: bool) -> ParameterSpec {
    ParameterSpec { name: name.to_string(), declared_type: None, description: None, has_default }
}

fn settings(use_defaults: bool) -> ResolverSettings {
    ResolverSettings {
        bucket_name: "deploy-bucket".to_string(),
        project_name: "myapp".to_string(),
        artifact_folder: "myapp-20240101".to_string(),
        use_defaults,
    }
}

fn entry(key: &str, value: &str) -> ResolvedParameter {
    ResolvedParameter { key: key.to_string(), value: value.to_string() }
}

fn sample_schema() -> TemplateSchema {
    TemplateSchema::parse(
        r#"{"Parameters": {"CGDeploymentBucket": {}, "CGDeploymentPath": {}, "Stage": {"Default": "prod"}}}"#,
    )
    .unwrap()
}

#[test]
fn defaults_in_use_resolve_without_a_prompt() {
    let resolver = ParameterResolver::new(sample_schema(), settings(true));
    assert_eq!(
        resolver.next_action(),
        ResolverAction::Finish(vec![
            entry("CGDeploymentBucket", "deploy-bucket"),
            entry("CGDeploymentPath", "myapp/myapp-20240101"),
        ])
    );
}

#[test]
fn defaults_not_in_use_prompt_once_for_the_stage_only() {
    let mut resolver = ParameterResolver::new(sample_schema(), settings(false));
    assert_eq!(
        resolver.next_action(),
        ResolverAction::Ask(Prompt {
            name: "Stage".to_string(),
            description: "No description".to_string(),
            declared_type: "Unknown type".to_string(),
        })
    );
    resolver.answer("dev\n");
    assert_eq!(
        resolver.next_action(),
        ResolverAction::Finish(vec![
            entry("CGDeploymentBucket", "deploy-bucket"),
            entry("CGDeploymentPath", "myapp/myapp-20240101"),
            entry("Stage", "dev"),
        ])
    );
}

#[test]
fn prompts_come_in_schema_order_with_description_and_type() {
    let schema = TemplateSchema::from_parameters(vec![
        ParameterSpec {
            name: "Zone".to_string(),
            declared_type: Some("String".to_string()),
            description: Some("Where to run".to_string()),
            has_default: false,
        },
        declared("CGDeploymentPath", false),
        declared("Owner", false),
    ])
    .unwrap();
    let mut resolver = ParameterResolver::new(schema, settings(true));
    assert_eq!(
        resolver.next_action(),
        ResolverAction::Ask(Prompt {
            name: "Zone".to_string(),
            description: "Where to run".to_string(),
            declared_type: "String".to_string(),
        })
    );
    resolver.answer("eu\n");
    assert_eq!(
        resolver.next_action(),
        ResolverAction::Ask(Prompt {
            name: "Owner".to_string(),
            description: "No description".to_string(),
            declared_type: "Unknown type".to_string(),
        })
    );
    resolver.answer("me");
    assert_eq!(
        resolver.next_action(),
        ResolverAction::Finish(vec![
            entry("Zone", "eu"),
            entry("CGDeploymentPath", "myapp/myapp-20240101"),
            entry("Owner", "me"),
        ])
    );
}

#[test]
fn an_answer_loses_exactly_one_trailing_line_feed() {
    let schema =
        TemplateSchema::from_parameters(vec![declared("A", false), declared("B", false), declared("C", false)])
            .unwrap();
    let mut resolver = ParameterResolver::new(schema, settings(false));
    resolver.answer("\n");
    resolver.answer("two\n\n");
    resolver.answer(" three ");
    assert_eq!(
        resolver.next_action(),
        ResolverAction::Finish(vec![entry("A", ""), entry("B", "two\n"), entry("C", " three ")])
    );
}

#[test]
fn a_failed_read_aborts_with_an_input_error() {
    let mut resolver = ParameterResolver::new(sample_schema(), settings(false));
    resolver.read_failed();
    assert_eq!(resolver.next_action(), ResolverAction::Abort(DeployError::Input));
    resolver.answer("dev\n");
    assert_eq!(resolver.next_action(), ResolverAction::Abort(DeployError::Input));
}

#[test]
fn an_answer_that_nobody_waits_for_changes_nothing() {
    let mut resolver = ParameterResolver::new(sample_schema(), settings(true));
    let before = resolver.next_action();
    resolver.answer("dev\n");
    resolver.read_failed();
    assert_eq!(resolver.next_action(), before);
}

#[test]
fn a_parameter_with_a_default_is_asked_for_when_defaults_are_not_in_use() {
    let schema = TemplateSchema::from_parameters(vec![declared("Stage", true)]).unwrap();
    let resolver = ParameterResolver::new(schema, settings(false));
    assert!(matches!(resolver.next_action(), ResolverAction::Ask(_)));
}

#[test]
fn a_reserved_name_with_a_default_is_left_out_when_defaults_are_in_use() {
    let schema = TemplateSchema::from_parameters(vec![
        declared("CGDeploymentBucket", true),
        declared("CGDeploymentPath", false),
    ])
    .unwrap();
    let resolver = ParameterResolver::new(schema, settings(true));
    assert_eq!(
        resolver.next_action(),
        ResolverAction::Finish(vec![entry("CGDeploymentPath", "myapp/myapp-20240101")])
    );
}

#[test]
fn a_reserved_name_is_never_asked_for() {
    let schema = TemplateSchema::from_parameters(vec![
        declared("CGDeploymentBucket", true),
        declared("CGDeploymentPath", true),
    ])
    .unwrap();
    let resolver = ParameterResolver::new(schema, settings(false));
    assert_eq!(
        resolver.next_action(),
        ResolverAction::Finish(vec![
            entry("CGDeploymentBucket", "deploy-bucket"),
            entry("CGDeploymentPath", "myapp/myapp-20240101"),
        ])
    );
}

#[test]
fn the_keys_are_the_declared_names_without_the_omitted_ones() {
    let schema = TemplateSchema::from_parameters(vec![
        declared("A", true),
        declared("CGDeploymentBucket", false),
        declared("B", false),
        declared("C", true),
    ])
    .unwrap();
    let mut resolver = ParameterResolver::new(schema, settings(true));
    resolver.answer("b\n");
    let keys: Vec<String> = match resolver.next_action() {
        ResolverAction::Finish(parameters) => parameters.into_iter().map(|p| p.key).collect(),
        other => panic!("not finished: {:?}", other),
    };
    assert_eq!(keys, vec!["CGDeploymentBucket".to_string(), "B".to_string()]);
}

#[test]
fn an_empty_schema_resolves_to_nothing() {
    let schema = TemplateSchema::from_parameters(vec![]).unwrap();
    let resolver = ParameterResolver::new(schema, settings(false));
    assert_eq!(resolver.next_action(), ResolverAction::Finish(vec![]));
}

#[test]
fn value_source_applies_the_default_rule_first() {
    assert_eq!(value_source(&declared("Stage", true), true), ValueSource::Omitted);
    assert_eq!(value_source(&declared("CGDeploymentBucket", true), true), ValueSource::Omitted);
    assert_eq!(value_source(&declared("Stage", true), false), ValueSource::Operator);
    assert_eq!(value_source(&declared("Stage", false), true), ValueSource::Operator);
    assert_eq!(
        value_source(&declared("CGDeploymentBucket", false), true),
        ValueSource::DeploymentBucket
    );
    assert_eq!(
        value_source(&declared("CGDeploymentPath", true), false),
        ValueSource::DeploymentPath
    );
    assert_eq!(value_source(&declared("cgdeploymentpath", false), false), ValueSource::Operator);
}

#[test]
fn a_resolution_starts_from_the_template_text() {
    let text = r#"{"Parameters": {"CGDeploymentPath": {}, "Stage": {"Description": "Which stage"}}}"#;
    let mut resolver = ParameterResolver::from_template(text, settings(true)).ok().unwrap();
    assert_eq!(
        resolver.next_action(),
        ResolverAction::Ask(Prompt {
            name: "Stage".to_string(),
            description: "Which stage".to_string(),
            declared_type: "Unknown type".to_string(),
        })
    );
    resolver.answer("prod");
    assert_eq!(
        resolver.next_action(),
        ResolverAction::Finish(vec![
            entry("CGDeploymentPath", "myapp/myapp-20240101"),
            entry("Stage", "prod"),
        ])
    );
}

#[test]
fn a_template_without_a_usable_schema_cannot_be_resolved() {
    let error_of = |text: &str| ParameterResolver::from_template(text, settings(true)).err();
    assert_eq!(error_of(""), Some(DeployError::Schema(SchemaError::Malformed)));
    assert_eq!(error_of("{}"), Some(DeployError::Schema(SchemaError::MissingParameters)));
    assert_eq!(
        error_of(r#"{"Parameters": "none"}"#),
        Some(DeployError::Schema(SchemaError::ParametersNotObject))
    );
}
