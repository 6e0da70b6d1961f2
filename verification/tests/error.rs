use stack_deploy::error::{DeployError, SchemaError};

#[test]
fn a_copy_of_an_error_equals_the_error() {
    let errors = vec![
        DeployError::Discovery,
        DeployError::Extraction("entry 3: permission denied".to_string()),
        DeployError::Schema(SchemaError::Malformed),
        DeployError::Schema(SchemaError::MissingParameters),
        DeployError::Schema(SchemaError::ParametersNotObject),
        DeployError::Input,
        DeployError::RemoteState("access denied".to_string()),
    ];
    for error in &errors {
        assert_eq!(&error.duplicate(), error);
    }
    assert_ne!(
        DeployError::Extraction("x".to_string()).duplicate(),
        DeployError::RemoteState("x".to_string())
    );
}
