//! The configuration of a deployment, handed to each component when it is
//! made.

use vstd::prelude::*;
use crate::archive::Manifest;
use crate::bucket::{BucketProvisioner, ProvisionerView};
use crate::parameters::{ResolverSettings, ResolverSettingsView};
use crate::publish::{Publisher, PublisherView};

verus! {

/// Where to look for the artifact, where to put it, and whether declared
/// defaults are left to the backend.
#[derive(Debug, Clone, PartialEq, Eq)]
pub struct Config {
    pub region: String,
    pub bucket_name: String,
    pub scan_directory: String,
    pub use_defaults: bool,
}

/// A `Config` with its texts as character sequences.
pub struct ConfigView {
    pub region: Seq<char>,
    pub bucket_name: Seq<char>,
    pub scan_directory: Seq<char>,
    pub use_defaults: bool,
}

impl View for Config {
    type V = ConfigView;

    open spec fn view(&self) -> ConfigView {
        ConfigView {
            region: self.region@,
            bucket_name: self.bucket_name@,
            scan_directory: self.scan_directory@,
            use_defaults: self.use_defaults,
        }
    }
}

impl Config {
    /// A configuration of the given options.
    pub fn new(region: String, bucket_name: String, scan_directory: String, use_defaults: bool) -> (r:
        Config)
        ensures
            r@ == (ConfigView {
                region: region@,
                bucket_name: bucket_name@,
                scan_directory: scan_directory@,
                use_defaults,
            }),
    {
        Config { region, bucket_name, scan_directory, use_defaults }
    }

    /// The provisioner of the configured bucket, probing under the
    /// project's prefix.
    pub fn provisioner(&self, project_name: &String) -> (r: BucketProvisioner)
        ensures
            r@ == ProvisionerView::start(self@.bucket_name, project_name@, self@.region),
    {
        BucketProvisioner::new(self.bucket_name.clone(), project_name.clone(), self.region.clone())
    }

    /// The publisher of `manifest` into the configured bucket.
    pub fn publisher(&self, project_name: &String, manifest: Manifest) -> (r: Publisher)
        ensures
            r@ == PublisherView::start(
                self@.bucket_name,
                self@.region,
                project_name@,
                manifest@,
            ),
    {
        Publisher::new(
            self.bucket_name.clone(),
            self.region.clone(),
            project_name.clone(),
            manifest,
        )
    }

    /// The fixed inputs of the parameter resolution for the project and
    /// the artifact's folder.
    pub fn resolver_settings(&self, project_name: &String, artifact_folder: &String) -> (r:
        ResolverSettings)
        ensures
            r@ == (ResolverSettingsView {
                bucket_name: self@.bucket_name,
                project_name: project_name@,
                artifact_folder: artifact_folder@,
                use_defaults: self@.use_defaults,
            }),
    {
        ResolverSettings {
            bucket_name: self.bucket_name.clone(),
            project_name: project_name.clone(),
            artifact_folder: artifact_folder.clone(),
            use_defaults: self.use_defaults,
        }
    }
}

} // verus!
