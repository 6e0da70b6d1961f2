//! The bucket provisioner: make sure that the target bucket exists, with
//! versioning enabled, before anything is uploaded.
//!
//! The bucket is probed by listing the project's objects. Only where the
//! listing reports that there is no such bucket, the bucket is created and
//! versioning is enabled on it. A bucket that exists is left as it is.

use vstd::prelude::*;
use vstd::string::StringExecFns;
use crate::error::{DeployError, DeployErrorView};

verus! {

/// What the object store answered to the last command.
#[derive(Debug, Clone, PartialEq, Eq)]
pub enum StoreReply {
    /// The call succeeded.
    Succeeded,
    /// The call failed because the bucket does not exist.
    NoSuchBucket,
    /// The call failed for any other reason; this is the full error context.
    Failed(String),
}

/// A `StoreReply` over views.
pub enum StoreReplyView {
    Succeeded,
    NoSuchBucket,
    Failed(Seq<char>),
}

impl View for StoreReply {
    type V = StoreReplyView;

    open spec fn view(&self) -> StoreReplyView {
        match self {
            StoreReply::Succeeded => StoreReplyView::Succeeded,
            StoreReply::NoSuchBucket => StoreReplyView::NoSuchBucket,
            StoreReply::Failed(context) => StoreReplyView::Failed(context@),
        }
    }
}

/// What the caller does next.
#[derive(Debug, Clone, PartialEq, Eq)]
pub enum StoreCommand {
    /// List the objects of the bucket under the prefix.
    ListObjects { bucket: String, prefix: String },
    /// Create the bucket in the region.
    CreateBucket { bucket: String, region: String },
    /// Enable versioning on the bucket.
    EnableVersioning { bucket: String },
    /// The bucket is there: go on.
    Ready,
    /// Stop with the error.
    Abort { error: DeployError },
}

/// A `StoreCommand` over views.
pub enum StoreCommandView {
    ListObjects { bucket: Seq<char>, prefix: Seq<char> },
    CreateBucket { bucket: Seq<char>, region: Seq<char> },
    EnableVersioning { bucket: Seq<char> },
    Ready,
    Abort { error: DeployErrorView },
}

impl View for StoreCommand {
    type V = StoreCommandView;

    open spec fn view(&self) -> StoreCommandView {
        match self {
            StoreCommand::ListObjects { bucket, prefix } => StoreCommandView::ListObjects {
                bucket: bucket@,
                prefix: prefix@,
            },
            StoreCommand::CreateBucket { bucket, region } => StoreCommandView::CreateBucket {
                bucket: bucket@,
                region: region@,
            },
            StoreCommand::EnableVersioning { bucket } => StoreCommandView::EnableVersioning {
                bucket: bucket@,
            },
            StoreCommand::Ready => StoreCommandView::Ready,
            StoreCommand::Abort { error } => StoreCommandView::Abort { error: error@ },
        }
    }
}

/// Where a provisioning stands.
pub enum ProvisionPhaseView {
    /// The listing is out.
    Listing,
    /// There was no bucket; its creation is out.
    CreatingBucket,
    /// The bucket was created; enabling versioning is out.
    EnablingVersioning,
    /// The bucket exists.
    Ready,
    /// The run is over with an error.
    Fatal { error: DeployErrorView },
}

/// The error context for a reply that no command of the provisioner expects.
pub open spec fn unexpected_store_reply() -> Seq<char> {
    "unexpected reply from the object store"@
}

/// The phase after `reply` arrived in `phase`.
pub open spec fn next_provision_phase(
    phase: ProvisionPhaseView,
    reply: StoreReplyView,
) -> ProvisionPhaseView {
    match phase {
        ProvisionPhaseView::Listing => match reply {
            StoreReplyView::Succeeded => ProvisionPhaseView::Ready,
            StoreReplyView::NoSuchBucket => ProvisionPhaseView::CreatingBucket,
            StoreReplyView::Failed(context) => ProvisionPhaseView::Fatal {
                error: DeployErrorView::RemoteState(context),
            },
        },
        ProvisionPhaseView::CreatingBucket => match reply {
            StoreReplyView::Succeeded => ProvisionPhaseView::EnablingVersioning,
            StoreReplyView::NoSuchBucket => ProvisionPhaseView::Fatal {
                error: DeployErrorView::RemoteState(unexpected_store_reply()),
            },
            StoreReplyView::Failed(context) => ProvisionPhaseView::Fatal {
                error: DeployErrorView::RemoteState(context),
            },
        },
        ProvisionPhaseView::EnablingVersioning => match reply {
            StoreReplyView::Succeeded => ProvisionPhaseView::Ready,
            StoreReplyView::NoSuchBucket => ProvisionPhaseView::Fatal {
                error: DeployErrorView::RemoteState(unexpected_store_reply()),
            },
            StoreReplyView::Failed(context) => ProvisionPhaseView::Fatal {
                error: DeployErrorView::RemoteState(context),
            },
        },
        ProvisionPhaseView::Ready => phase,
        ProvisionPhaseView::Fatal { error } => phase,
    }
}

/// The state of a provisioning: the bucket, the project's prefix, the
/// region, and where the provisioning stands.
pub struct ProvisionerView {
    pub bucket: Seq<char>,
    pub prefix: Seq<char>,
    pub region: Seq<char>,
    pub phase: ProvisionPhaseView,
}

impl ProvisionerView {
    /// The state in which a provisioning starts.
    pub open spec fn start(bucket: Seq<char>, prefix: Seq<char>, region: Seq<char>) -> ProvisionerView {
        ProvisionerView { bucket, prefix, region, phase: ProvisionPhaseView::Listing }
    }

    /// The command that the caller carries out in this state.
    pub open spec fn command(self) -> StoreCommandView {
        match self.phase {
            ProvisionPhaseView::Listing => StoreCommandView::ListObjects {
                bucket: self.bucket,
                prefix: self.prefix,
            },
            ProvisionPhaseView::CreatingBucket => StoreCommandView::CreateBucket {
                bucket: self.bucket,
                region: self.region,
            },
            ProvisionPhaseView::EnablingVersioning => StoreCommandView::EnableVersioning {
                bucket: self.bucket,
            },
            ProvisionPhaseView::Ready => StoreCommandView::Ready,
            ProvisionPhaseView::Fatal { error } => StoreCommandView::Abort { error },
        }
    }

    /// The state after `reply` arrived.
    pub open spec fn replied(self, reply: StoreReplyView) -> ProvisionerView {
        ProvisionerView { phase: next_provision_phase(self.phase, reply), ..self }
    }

    /// Whether the provisioning is over.
    pub open spec fn is_over(self) -> bool {
        self.phase is Ready || self.phase is Fatal
    }
}

/// Where a provisioning stands.
enum ProvisionPhase {
    Listing,
    CreatingBucket,
    EnablingVersioning,
    Ready,
    Fatal { error: DeployError },
}

impl View for ProvisionPhase {
    type V = ProvisionPhaseView;

    closed spec fn view(&self) -> ProvisionPhaseView {
        match self {
            ProvisionPhase::Listing => ProvisionPhaseView::Listing,
            ProvisionPhase::CreatingBucket => ProvisionPhaseView::CreatingBucket,
            ProvisionPhase::EnablingVersioning => ProvisionPhaseView::EnablingVersioning,
            ProvisionPhase::Ready => ProvisionPhaseView::Ready,
            ProvisionPhase::Fatal { error } => ProvisionPhaseView::Fatal { error: error@ },
        }
    }
}

/// The phase that ends a provisioning on a reply that was not expected.
fn unexpected() -> (r: ProvisionPhase)
    ensures
        r@ == (ProvisionPhaseView::Fatal {
            error: DeployErrorView::RemoteState(unexpected_store_reply()),
        }),
{
    ProvisionPhase::Fatal {
        error: DeployError::RemoteState(String::from_str("unexpected reply from the object store")),
    }
}

/// A provisioning in progress.
pub struct BucketProvisioner {
    bucket: String,
    prefix: String,
    region: String,
    phase: ProvisionPhase,
}

impl View for BucketProvisioner {
    type V = ProvisionerView;

    closed spec fn view(&self) -> ProvisionerView {
        ProvisionerView {
            bucket: self.bucket@,
            prefix: self.prefix@,
            region: self.region@,
            phase: self.phase@,
        }
    }
}

impl BucketProvisioner {
    /// Starts a provisioning of `bucket` in `region`, probing under the
    /// project's prefix.
    pub fn new(bucket: String, prefix: String, region: String) -> (r: BucketProvisioner)
        ensures
            r@ == ProvisionerView::start(bucket@, prefix@, region@),
    {
        BucketProvisioner { bucket, prefix, region, phase: ProvisionPhase::Listing }
    }

    /// What the caller does next.
    pub fn next_command(&self) -> (r: StoreCommand)
        ensures
            r@ == self@.command(),
    {
        match &self.phase {
            ProvisionPhase::Listing => StoreCommand::ListObjects {
                bucket: self.bucket.clone(),
                prefix: self.prefix.clone(),
            },
            ProvisionPhase::CreatingBucket => StoreCommand::CreateBucket {
                bucket: self.bucket.clone(),
                region: self.region.clone(),
            },
            ProvisionPhase::EnablingVersioning => StoreCommand::EnableVersioning {
                bucket: self.bucket.clone(),
            },
            ProvisionPhase::Ready => StoreCommand::Ready,
            ProvisionPhase::Fatal { error } => StoreCommand::Abort { error: error.duplicate() },
        }
    }

    /// Takes the object store's reply to the command that was given last.
    pub fn on_reply(&mut self, reply: StoreReply)
        ensures
            final(self)@ == old(self)@.replied(reply@),
    {
        let next = match &self.phase {
            ProvisionPhase::Listing => match reply {
                StoreReply::Succeeded => ProvisionPhase::Ready,
                StoreReply::NoSuchBucket => ProvisionPhase::CreatingBucket,
                StoreReply::Failed(context) => ProvisionPhase::Fatal {
                    error: DeployError::RemoteState(context),
                },
            },
            ProvisionPhase::CreatingBucket => match reply {
                StoreReply::Succeeded => ProvisionPhase::EnablingVersioning,
                StoreReply::NoSuchBucket => unexpected(),
                StoreReply::Failed(context) => ProvisionPhase::Fatal {
                    error: DeployError::RemoteState(context),
                },
            },
            ProvisionPhase::EnablingVersioning => match reply {
                StoreReply::Succeeded => ProvisionPhase::Ready,
                StoreReply::NoSuchBucket => unexpected(),
                StoreReply::Failed(context) => ProvisionPhase::Fatal {
                    error: DeployError::RemoteState(context),
                },
            },
            ProvisionPhase::Ready => ProvisionPhase::Ready,
            ProvisionPhase::Fatal { error } => ProvisionPhase::Fatal { error: error.duplicate() },
        };
        self.phase = next;
    }
}

/// An object store that does what it is told, as far as the provisioner
/// can see: whether the bucket exists.
pub struct StoreModel {
    pub bucket_exists: bool,
}

impl StoreModel {
    /// What the store answers to `command`.
    pub open spec fn reply(self, command: StoreCommandView) -> StoreReplyView {
        match command {
            StoreCommandView::ListObjects { bucket, prefix } => if self.bucket_exists {
                StoreReplyView::Succeeded
            } else {
                StoreReplyView::NoSuchBucket
            },
            _ => StoreReplyView::Succeeded,
        }
    }

    /// The store after it carried out `command`.
    pub open spec fn after(self, command: StoreCommandView) -> StoreModel {
        match command {
            StoreCommandView::CreateBucket { bucket, region } => StoreModel { bucket_exists: true },
            _ => self,
        }
    }
}

/// The commands that a provisioning gives from `state` on against `store`,
/// and the store it leaves. `steps` bounds the number of calls; a
/// provisioning makes three at most.
pub open spec fn provision(state: ProvisionerView, store: StoreModel, steps: nat) -> (
    Seq<StoreCommandView>,
    StoreModel,
)
    decreases steps,
{
    let command = state.command();
    if state.is_over() || steps == 0 {
        (seq![command], store)
    } else {
        let rest = provision(
            state.replied(store.reply(command)),
            store.after(command),
            (steps - 1) as nat,
        );
        (seq![command] + rest.0, rest.1)
    }
}

/// Provisioning is idempotent. A first invocation leaves the bucket in
/// existence, whether it found it or made it. The next invocation lists,
/// finds the bucket, and is done: it neither creates a bucket nor enables
/// versioning.
pub proof fn law_provisioning_idempotent(
    bucket: Seq<char>,
    prefix: Seq<char>,
    region: Seq<char>,
    store: StoreModel,
)
    ensures
        ({
            let start = ProvisionerView::start(bucket, prefix, region);
            let first = provision(start, store, 3);
            let second = provision(start, first.1, 3);
            &&& first.1.bucket_exists
            &&& first.0.last() == StoreCommandView::Ready
            &&& store.bucket_exists ==> first.0 == seq![
                StoreCommandView::ListObjects { bucket, prefix },
                StoreCommandView::Ready,
            ]
            &&& !store.bucket_exists ==> first.0 == seq![
                StoreCommandView::ListObjects { bucket, prefix },
                StoreCommandView::CreateBucket { bucket, region },
                StoreCommandView::EnableVersioning { bucket },
                StoreCommandView::Ready,
            ]
            &&& second.0 == seq![
                StoreCommandView::ListObjects { bucket, prefix },
                StoreCommandView::Ready,
            ]
            &&& second.1 == first.1
        }),
{
    reveal_with_fuel(provision, 5);
    let start = ProvisionerView::start(bucket, prefix, region);
    let first = provision(start, store, 3);
    let listing = StoreCommandView::ListObjects { bucket, prefix };
    let creating = StoreCommandView::CreateBucket { bucket, region };
    let enabling = StoreCommandView::EnableVersioning { bucket };
    if store.bucket_exists {
        assert(first.0 =~= seq![listing, StoreCommandView::Ready]);
    } else {
        assert(first.0 =~= seq![listing, creating, enabling, StoreCommandView::Ready]);
    }
    let second = provision(start, first.1, 3);
    assert(second.0 =~= seq![listing, StoreCommandView::Ready]);
}

} // verus!
