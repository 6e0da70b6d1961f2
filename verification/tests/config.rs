use stack_deploy::archive::Manifest;
use stack_deploy::bucket::{StoreCommand, StoreReply};
use stack_deploy::config::Config;
use stack_deploy::parameters::ResolverSettings;
use stack_deploy::publish::PublishCommand;

fn config() -> Config {
    Config::new(
        "ap-southeast-1".to_string(),
        "deploy-bucket".to_string(),
        "/srv/artifacts".to_string(),
        true,
    )
}

#[test]
fn a_configuration_holds_the_recognized_options() {
    let config = config();
    assert_eq!(config.region, "ap-southeast-1");
    assert_eq!(config.bucket_name, "deploy-bucket");
    assert_eq!(config.scan_directory, "/srv/artifacts");
    assert!(config.use_defaults);
}

#[test]
fn the_provisioner_works_on_the_configured_bucket_and_region() {
    let mut provisioner = config().provisioner(&"myapp".to_string());
    assert_eq!(
        provisioner.next_command(),
        StoreCommand::ListObjects { bucket: "deploy-bucket".to_string(), prefix: "myapp".to_string() }
    );
    provisioner.on_reply(StoreReply::NoSuchBucket);
    assert_eq!(
        provisioner.next_command(),
        StoreCommand::CreateBucket {
            bucket: "deploy-bucket".to_string(),
            region: "ap-southeast-1".to_string()
        }
    );
}

#[test]
fn the_publisher_uploads_into_the_configured_bucket() {
    let manifest = Manifest::new().add("/srv/artifacts/t.json".to_string(), "t.json".to_string());
    let publisher = config().publisher(&"myapp".to_string(), manifest);
    assert_eq!(
        publisher.next_command(),
        PublishCommand::PutObject {
            bucket: "deploy-bucket".to_string(),
            key: "myapp/t.json".to_string(),
            path: "/srv/artifacts/t.json".to_string(),
        }
    );
}

#[test]
fn the_resolver_settings_carry_bucket_and_default_use() {
    assert_eq!(
        config().resolver_settings(&"myapp".to_string(), &"myapp-20240101".to_string()),
        ResolverSettings {
            bucket_name: "deploy-bucket".to_string(),
            project_name: "myapp".to_string(),
            artifact_folder: "myapp-20240101".to_string(),
            use_defaults: true,
        }
    );
}
