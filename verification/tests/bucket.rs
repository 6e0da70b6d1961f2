use stack_deploy::bucket::{BucketProvisioner, StoreCommand, StoreReply};
use stack_deploy::error::DeployError;

fn provisioner() -> BucketProvisioner {
    BucketProvisioner::new(
        "deploy-bucket".to_string(),
        "myapp".to_string(),
        "ap-southeast-1".to_string(),
    )
}

fn listing() -> StoreCommand {
    StoreCommand::ListObjects { bucket: "deploy-bucket".to_string(), prefix: "myapp".to_string() }
}

fn run_against(bucket_exists: &mut bool) -> Vec<StoreCommand> {
    let mut provisioner = provisioner();
    let mut commands = Vec::new();
    loop {
        let command = provisioner.next_command();
        commands.push(command.clone());
        let reply = match command {
            StoreCommand::ListObjects { .. } => {
                if *bucket_exists {
                    StoreReply::Succeeded
                } else {
                    StoreReply::NoSuchBucket
                }
            }
            StoreCommand::CreateBucket { .. } => {
                *bucket_exists = true;
                StoreReply::Succeeded
            }
            StoreCommand::EnableVersioning { .. } => StoreReply::Succeeded,
            StoreCommand::Ready | StoreCommand::Abort { .. } => return commands,
        };
        provisioner.on_reply(reply);
    }
}

#[test]
fn provisioning_starts_with_a_listing_under_the_project_prefix() {
    assert_eq!(provisioner().next_command(), listing());
}

#[test]
fn an_existing_bucket_is_left_alone() {
    let mut provisioner = provisioner();
    provisioner.on_reply(StoreReply::Succeeded);
    assert_eq!(provisioner.next_command(), StoreCommand::Ready);
    provisioner.on_reply(StoreReply::NoSuchBucket);
    assert_eq!(provisioner.next_command(), StoreCommand::Ready);
}

#[test]
fn a_missing_bucket_is_created_and_versioned() {
    let mut provisioner = provisioner();
    provisioner.on_reply(StoreReply::NoSuchBucket);
    assert_eq!(
        provisioner.next_command(),
        StoreCommand::CreateBucket {
            bucket: "deploy-bucket".to_string(),
            region: "ap-southeast-1".to_string(),
        }
    );
    provisioner.on_reply(StoreReply::Succeeded);
    assert_eq!(
        provisioner.next_command(),
        StoreCommand::EnableVersioning { bucket: "deploy-bucket".to_string() }
    );
    provisioner.on_reply(StoreReply::Succeeded);
    assert_eq!(provisioner.next_command(), StoreCommand::Ready);
}

#[test]
fn a_second_invocation_creates_and_versions_nothing() {
    let mut bucket_exists = false;
    let first = run_against(&mut bucket_exists);
    assert_eq!(first.len(), 4);
    assert!(bucket_exists);
    let second = run_against(&mut bucket_exists);
    assert_eq!(second, vec![listing(), StoreCommand::Ready]);
    let third = run_against(&mut bucket_exists);
    assert_eq!(third, vec![listing(), StoreCommand::Ready]);
}

#[test]
fn any_other_listing_error_is_fatal() {
    let mut provisioner = provisioner();
    provisioner.on_reply(StoreReply::Failed("access denied".to_string()));
    assert_eq!(
        provisioner.next_command(),
        StoreCommand::Abort { error: DeployError::RemoteState("access denied".to_string()) }
    );
    provisioner.on_reply(StoreReply::Succeeded);
    assert_eq!(
        provisioner.next_command(),
        StoreCommand::Abort { error: DeployError::RemoteState("access denied".to_string()) }
    );
}

#[test]
fn a_failed_creation_is_fatal() {
    let mut provisioner = provisioner();
    provisioner.on_reply(StoreReply::NoSuchBucket);
    provisioner.on_reply(StoreReply::Failed("name taken".to_string()));
    assert_eq!(
        provisioner.next_command(),
        StoreCommand::Abort { error: DeployError::RemoteState("name taken".to_string()) }
    );
}

#[test]
fn a_failed_versioning_is_fatal() {
    let mut provisioner = provisioner();
    provisioner.on_reply(StoreReply::NoSuchBucket);
    provisioner.on_reply(StoreReply::Succeeded);
    provisioner.on_reply(StoreReply::Failed("denied".to_string()));
    assert_eq!(
        provisioner.next_command(),
        StoreCommand::Abort { error: DeployError::RemoteState("denied".to_string()) }
    );
}

#[test]
fn a_bucket_that_vanishes_while_it_is_made_is_fatal() {
    let unexpected = "unexpected reply from the object store";
    let mut creating = provisioner();
    creating.on_reply(StoreReply::NoSuchBucket);
    creating.on_reply(StoreReply::NoSuchBucket);
    assert_eq!(
        creating.next_command(),
        StoreCommand::Abort { error: DeployError::RemoteState(unexpected.to_string()) }
    );
    let mut versioning = provisioner();
    versioning.on_reply(StoreReply::NoSuchBucket);
    versioning.on_reply(StoreReply::Succeeded);
    versioning.on_reply(StoreReply::NoSuchBucket);
    assert_eq!(
        versioning.next_command(),
        StoreCommand::Abort { error: DeployError::RemoteState(unexpected.to_string()) }
    );
}
