//! The artifact publisher: every file of the manifest goes into the bucket
//! under the project's prefix, one upload for each, in manifest order. The
//! file whose name marks it as the template is found on the way, and its
//! address in the bucket is handed on.
//!
//! Reading the files and talking to the object store is the caller's
//! business.

use vstd::prelude::*;
use vstd::string::StringExecFns;
use crate::archive::{manifest_names, well_formed_manifest, Manifest, ManifestEntryView};
use crate::error::{DeployError, DeployErrorView};
use crate::text::{ends_with, join_with_slash, lemma_slash_joined_injective, slash_joined};

verus! {

/// The key under which the file `name` of the project is stored.
pub open spec fn object_key(project: Seq<char>, name: Seq<char>) -> Seq<char> {
    slash_joined(project, name)
}

/// A file is the template where its name ends with `.json`.
pub open spec fn is_template_name(name: Seq<char>) -> bool {
    ".json"@.is_suffix_of(name)
}

/// The part of a bucket's host name that names the region: nothing for
/// `us-east-1`, and a dot and the region for any other.
pub open spec fn region_part(region: Seq<char>) -> Seq<char> {
    if region == "us-east-1"@ {
        Seq::empty()
    } else {
        "."@ + region
    }
}

/// The address of the object `name` of the project in the bucket.
pub open spec fn template_url_of(
    bucket: Seq<char>,
    region: Seq<char>,
    project: Seq<char>,
    name: Seq<char>,
) -> Seq<char> {
    "https://"@ + bucket + ".s3"@ + region_part(region) + ".amazonaws.com/"@ + project + "/"@
        + name
}

/// The position of the template in a manifest: that of the last file whose
/// name marks it as one.
pub open spec fn template_position(manifest: Seq<ManifestEntryView>) -> Option<int>
    decreases manifest.len(),
{
    if manifest.len() == 0 {
        None
    } else if is_template_name(manifest.last().name) {
        Some(manifest.len() - 1)
    } else {
        template_position(manifest.drop_last())
    }
}

/// The keys of the uploads of a manifest, in order.
pub open spec fn upload_keys(project: Seq<char>, manifest: Seq<ManifestEntryView>) -> Seq<
    Seq<char>,
> {
    manifest.map_values(|e: ManifestEntryView| object_key(project, e.name))
}

/// What the object store answered to an upload.
#[derive(Debug, Clone, PartialEq, Eq)]
pub enum UploadReply {
    /// The object is stored.
    Stored,
    /// The upload failed; this is the full error context.
    Failed(String),
}

/// An `UploadReply` over views.
pub enum UploadReplyView {
    Stored,
    Failed(Seq<char>),
}

impl View for UploadReply {
    type V = UploadReplyView;

    open spec fn view(&self) -> UploadReplyView {
        match self {
            UploadReply::Stored => UploadReplyView::Stored,
            UploadReply::Failed(context) => UploadReplyView::Failed(context@),
        }
    }
}

/// The template of a published artifact: its name in the manifest, the
/// path of the file, and its address in the bucket.
#[derive(Debug, Clone, PartialEq, Eq)]
pub struct TemplateReference {
    pub name: String,
    pub path: String,
    pub url: String,
}

/// A `TemplateReference` with its texts as character sequences.
pub struct TemplateReferenceView {
    pub name: Seq<char>,
    pub path: Seq<char>,
    pub url: Seq<char>,
}

impl View for TemplateReference {
    type V = TemplateReferenceView;

    open spec fn view(&self) -> TemplateReferenceView {
        TemplateReferenceView { name: self.name@, path: self.path@, url: self.url@ }
    }
}

/// The view of an optional template reference.
pub open spec fn optional_reference(reference: Option<TemplateReference>) -> Option<
    TemplateReferenceView,
> {
    match reference {
        Some(r) => Some(r@),
        None => None,
    }
}

/// What the caller does next.
#[derive(Debug, Clone, PartialEq, Eq)]
pub enum PublishCommand {
    /// Read the file at `path` and store it in the bucket under `key`.
    PutObject { bucket: String, key: String, path: String },
    /// Every file is stored. `template` is the template, if the manifest
    /// has one.
    Finish { template: Option<TemplateReference> },
    /// Stop with the error; the files that are left are not uploaded.
    Abort { error: DeployError },
}

/// A `PublishCommand` over views.
pub enum PublishCommandView {
    PutObject { bucket: Seq<char>, key: Seq<char>, path: Seq<char> },
    Finish { template: Option<TemplateReferenceView> },
    Abort { error: DeployErrorView },
}

impl View for PublishCommand {
    type V = PublishCommandView;

    open spec fn view(&self) -> PublishCommandView {
        match self {
            PublishCommand::PutObject { bucket, key, path } => PublishCommandView::PutObject {
                bucket: bucket@,
                key: key@,
                path: path@,
            },
            PublishCommand::Finish { template } => PublishCommandView::Finish {
                template: optional_reference(*template),
            },
            PublishCommand::Abort { error } => PublishCommandView::Abort { error: error@ },
        }
    }
}

/// The state of a publication: the first `uploaded` files of the manifest
/// are stored; `failure` is the context of the upload that failed, if one
/// did.
pub struct PublisherView {
    pub bucket: Seq<char>,
    pub region: Seq<char>,
    pub project: Seq<char>,
    pub manifest: Seq<ManifestEntryView>,
    pub uploaded: nat,
    pub failure: Option<Seq<char>>,
}

impl PublisherView {
    /// The state in which a publication starts.
    pub open spec fn start(
        bucket: Seq<char>,
        region: Seq<char>,
        project: Seq<char>,
        manifest: Seq<ManifestEntryView>,
    ) -> PublisherView {
        PublisherView { bucket, region, project, manifest, uploaded: 0, failure: None }
    }

    /// Whether an upload is out.
    pub open spec fn uploading(self) -> bool {
        self.failure is None && self.uploaded < self.manifest.len()
    }

    /// The template of the manifest, with its address.
    pub open spec fn template(self) -> Option<TemplateReferenceView> {
        match template_position(self.manifest) {
            Some(position) => Some(
                TemplateReferenceView {
                    name: self.manifest[position].name,
                    path: self.manifest[position].path,
                    url: template_url_of(
                        self.bucket,
                        self.region,
                        self.project,
                        self.manifest[position].name,
                    ),
                },
            ),
            None => None,
        }
    }

    /// The command that the caller carries out in this state.
    pub open spec fn command(self) -> PublishCommandView {
        match self.failure {
            Some(context) => PublishCommandView::Abort {
                error: DeployErrorView::RemoteState(context),
            },
            None => if self.uploaded < self.manifest.len() {
                PublishCommandView::PutObject {
                    bucket: self.bucket,
                    key: object_key(self.project, self.manifest[self.uploaded as int].name),
                    path: self.manifest[self.uploaded as int].path,
                }
            } else {
                PublishCommandView::Finish { template: self.template() }
            },
        }
    }

    /// The state after `reply` arrived. A reply that answers no upload
    /// changes nothing.
    pub open spec fn replied(self, reply: UploadReplyView) -> PublisherView {
        if self.uploading() {
            match reply {
                UploadReplyView::Stored => PublisherView { uploaded: self.uploaded + 1, ..self },
                UploadReplyView::Failed(context) => PublisherView {
                    failure: Some(context),
                    ..self
                },
            }
        } else {
            self
        }
    }

    /// The state after `count` uploads in a row were stored.
    pub open spec fn stored(self, count: nat) -> PublisherView
        decreases count,
    {
        if count == 0 {
            self
        } else {
            self.stored((count - 1) as nat).replied(UploadReplyView::Stored)
        }
    }
}

/// Whether a file of the name `name` is the template.
pub fn is_template(name: &str) -> (r: bool)
    ensures
        r == is_template_name(name@),
{
    ends_with(name, ".json")
}

/// The address of the object `name` of the project in the bucket.
pub fn template_url(bucket: &str, region: &str, project: &str, name: &str) -> (r: String)
    ensures
        r@ == template_url_of(bucket@, region@, project@, name@),
{
    let mut r: String = String::from_str("https://");
    r.append(bucket);
    r.append(".s3");
    if !(String::from_str(region) == String::from_str("us-east-1")) {
        r.append(".");
        r.append(region);
        assert(r@ =~= "https://"@ + bucket@ + ".s3"@ + region_part(region@));
    } else {
        assert(r@ =~= "https://"@ + bucket@ + ".s3"@ + region_part(region@));
    }
    r.append(".amazonaws.com/");
    r.append(project);
    r.append("/");
    r.append(name);
    r
}

/// A publication in progress.
pub struct Publisher {
    bucket: String,
    region: String,
    project: String,
    manifest: Manifest,
    uploaded: usize,
    failure: Option<String>,
}

impl View for Publisher {
    type V = PublisherView;

    closed spec fn view(&self) -> PublisherView {
        PublisherView {
            bucket: self.bucket@,
            region: self.region@,
            project: self.project@,
            manifest: self.manifest@,
            uploaded: self.uploaded as nat,
            failure: match self.failure {
                Some(context) => Some(context@),
                None => None,
            },
        }
    }
}

impl Publisher {
    /// Starts the publication of `manifest` into `bucket` under the
    /// project's prefix.
    pub fn new(bucket: String, region: String, project: String, manifest: Manifest) -> (r:
        Publisher)
        ensures
            r@ == PublisherView::start(bucket@, region@, project@, manifest@),
    {
        Publisher { bucket, region, project, manifest, uploaded: 0, failure: None }
    }

    /// The template of the manifest, with its address.
    fn find_template(&self) -> (r: Option<TemplateReference>)
        ensures
            optional_reference(r) == self@.template(),
    {
        let n: usize = self.manifest.len();
        let mut i: usize = n;
        assert(self@.manifest.take(n as int) =~= self@.manifest);
        while i > 0
            invariant
                i <= n,
                n == self@.manifest.len(),
                template_position(self@.manifest) == template_position(
                    self@.manifest.take(i as int),
                ),
            decreases i,
        {
            let entry = self.manifest.entry(i - 1);
            proof {
                let prefix = self@.manifest.take(i as int);
                assert(prefix.last() == self@.manifest[i - 1]);
                assert(prefix.drop_last() =~= self@.manifest.take(i - 1));
            }
            if is_template(entry.name.as_str()) {
                return Some(
                    TemplateReference {
                        name: entry.name.clone(),
                        path: entry.path.clone(),
                        url: template_url(
                            self.bucket.as_str(),
                            self.region.as_str(),
                            self.project.as_str(),
                            entry.name.as_str(),
                        ),
                    },
                );
            }
            i = i - 1;
        }
        None
    }

    /// What the caller does next.
    pub fn next_command(&self) -> (r: PublishCommand)
        ensures
            r@ == self@.command(),
    {
        match &self.failure {
            Some(context) => PublishCommand::Abort {
                error: DeployError::RemoteState(context.clone()),
            },
            None => {
                if self.uploaded < self.manifest.len() {
                    let entry = self.manifest.entry(self.uploaded);
                    PublishCommand::PutObject {
                        bucket: self.bucket.clone(),
                        key: join_with_slash(self.project.as_str(), entry.name.as_str()),
                        path: entry.path.clone(),
                    }
                } else {
                    PublishCommand::Finish { template: self.find_template() }
                }
            },
        }
    }

    /// Takes the object store's reply to the upload that was commanded
    /// last.
    pub fn on_reply(&mut self, reply: UploadReply)
        ensures
            final(self)@ == old(self)@.replied(reply@),
    {
        if self.failure.is_none() && self.uploaded < self.manifest.len() {
            match reply {
                UploadReply::Stored => {
                    self.uploaded = self.uploaded + 1;
                },
                UploadReply::Failed(context) => {
                    self.failure = Some(context);
                },
            }
        }
    }
}

/// The template, where a manifest has one, is the last file whose name
/// marks it as a template.
proof fn lemma_template_position(manifest: Seq<ManifestEntryView>)
    ensures
        match template_position(manifest) {
            Some(position) => {
                &&& 0 <= position < manifest.len()
                &&& is_template_name(manifest[position].name)
                &&& forall|i: int|
                    position < i < manifest.len() ==> !is_template_name(
                        (#[trigger] manifest[i]).name,
                    )
            },
            None => forall|i: int|
                0 <= i < manifest.len() ==> !is_template_name((#[trigger] manifest[i]).name),
        },
    decreases manifest.len(),
{
    if manifest.len() > 0 && !is_template_name(manifest.last().name) {
        lemma_template_position(manifest.drop_last());
        let shorter = manifest.drop_last();
        assert forall|i: int| 0 <= i < shorter.len() implies shorter[i] == manifest[i] by {}
        match template_position(shorter) {
            Some(position) => {
                assert forall|i: int| position < i < manifest.len() implies !is_template_name(
                    (#[trigger] manifest[i]).name,
                ) by {
                    if i < shorter.len() {
                        assert(shorter[i] == manifest[i]);
                    }
                }
            },
            None => {
                assert forall|i: int| 0 <= i < manifest.len() implies !is_template_name(
                    (#[trigger] manifest[i]).name,
                ) by {
                    if i < shorter.len() {
                        assert(shorter[i] == manifest[i]);
                    }
                }
            },
        }
    }
}

/// Finding the template. Where exactly one file of the manifest is marked as
/// a template by its name, that file is the template, and its address is
/// made of the bucket, the region, the project and the file's name.
pub proof fn law_single_template(state: PublisherView, position: int)
    requires
        0 <= position < state.manifest.len(),
        forall|i: int|
            0 <= i < state.manifest.len() ==> (is_template_name(
                (#[trigger] state.manifest[i]).name,
            ) <==> i == position),
    ensures
        state.template() == Some(
            TemplateReferenceView {
                name: state.manifest[position].name,
                path: state.manifest[position].path,
                url: template_url_of(
                    state.bucket,
                    state.region,
                    state.project,
                    state.manifest[position].name,
                ),
            },
        ),
{
    lemma_template_position(state.manifest);
    assert(is_template_name(state.manifest[position].name));
}

/// The state after `count` uploads were stored, where the manifest has that
/// many files: that many are noted as uploaded, and nothing else changed.
proof fn lemma_stored(state: PublisherView, count: nat)
    requires
        state.failure is None,
        state.uploaded + count <= state.manifest.len(),
    ensures
        state.stored(count) == (PublisherView { uploaded: state.uploaded + count, ..state }),
    decreases count,
{
    if count > 0 {
        lemma_stored(state, (count - 1) as nat);
    }
}

/// One upload for each file. While the object store stores what it is
/// given, the publisher commands the upload of each file of the manifest in
/// turn, under the project's name, a slash and the file's name, and then
/// finishes.
pub proof fn law_one_upload_per_entry(
    bucket: Seq<char>,
    region: Seq<char>,
    project: Seq<char>,
    manifest: Seq<ManifestEntryView>,
    k: nat,
)
    requires
        k <= manifest.len(),
    ensures
        ({
            let command = PublisherView::start(bucket, region, project, manifest).stored(
                k,
            ).command();
            &&& k < manifest.len() ==> command == (PublishCommandView::PutObject {
                bucket,
                key: upload_keys(project, manifest)[k as int],
                path: manifest[k as int].path,
            })
            &&& k == manifest.len() ==> command is Finish
        }),
{
    lemma_stored(PublisherView::start(bucket, region, project, manifest), k);
}

/// No key is used twice: the uploads of a manifest, in which no name occurs
/// twice, go to keys of which none occurs twice.
pub proof fn law_upload_keys_distinct(project: Seq<char>, manifest: Seq<ManifestEntryView>)
    requires
        well_formed_manifest(manifest),
    ensures
        upload_keys(project, manifest).len() == manifest.len(),
        upload_keys(project, manifest).no_duplicates(),
{
    let keys = upload_keys(project, manifest);
    let names = manifest_names(manifest);
    assert forall|a: int, b: int|
        0 <= a < keys.len() && 0 <= b < keys.len() && a != b implies keys[a] != keys[b] by {
        assert(names[a] != names[b]);
        if keys[a] == keys[b] {
            lemma_slash_joined_injective(project, manifest[a].name, manifest[b].name);
        }
    }
}

} // verus!
