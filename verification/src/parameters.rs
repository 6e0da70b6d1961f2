//! The parameter resolver: from a template's declared parameters to the
//! values that are handed to the stack backend.
//!
//! Each declared parameter is, in schema order, left out, filled in with a
//! fixed deployment value, or asked of the operator. Asking is the caller's
//! business: the resolver says what to ask, and is told the line that was
//! read, or that reading failed.

use vstd::prelude::*;
use vstd::string::StringExecFns;
use crate::error::{DeployError, DeployErrorView};
use crate::template::{
    names_of, template_schema, well_formed_schema, ParameterSpec, ParameterSpecView,
    TemplateSchema,
};
use crate::text::{join_with_slash, slash_joined, trim_line_end, without_line_end};

verus! {

/// The reserved name that receives the deployment bucket.
pub open spec fn bucket_parameter_name() -> Seq<char> {
    "CGDeploymentBucket"@
}

/// The reserved name that receives the deployment path.
pub open spec fn path_parameter_name() -> Seq<char> {
    "CGDeploymentPath"@
}

/// Whether `name` is one of the two reserved names.
pub open spec fn is_reserved_name(name: Seq<char>) -> bool {
    name == bucket_parameter_name() || name == path_parameter_name()
}

/// Where the value of a declared parameter comes from.
#[derive(Debug, Clone, Copy, PartialEq, Eq, Structural)]
pub enum ValueSource {
    /// No entry is produced: the backend applies the declared default.
    Omitted,
    /// The bucket that holds the artifact.
    DeploymentBucket,
    /// The project name, a slash, and the artifact's folder name.
    DeploymentPath,
    /// The operator is asked.
    Operator,
}

/// The fixed inputs of a resolution.
#[derive(Debug, Clone, PartialEq, Eq)]
pub struct ResolverSettings {
    pub bucket_name: String,
    pub project_name: String,
    pub artifact_folder: String,
    pub use_defaults: bool,
}

/// `ResolverSettings` with its texts as character sequences.
pub struct ResolverSettingsView {
    pub bucket_name: Seq<char>,
    pub project_name: Seq<char>,
    pub artifact_folder: Seq<char>,
    pub use_defaults: bool,
}

impl View for ResolverSettings {
    type V = ResolverSettingsView;

    open spec fn view(&self) -> ResolverSettingsView {
        ResolverSettingsView {
            bucket_name: self.bucket_name@,
            project_name: self.project_name@,
            artifact_folder: self.artifact_folder@,
            use_defaults: self.use_defaults,
        }
    }
}

/// One entry of the resolved parameter set.
#[derive(Debug, Clone, PartialEq, Eq)]
pub struct ResolvedParameter {
    pub key: String,
    pub value: String,
}

impl View for ResolvedParameter {
    type V = (Seq<char>, Seq<char>);

    open spec fn view(&self) -> (Seq<char>, Seq<char>) {
        (self.key@, self.value@)
    }
}

/// The views of a vector of resolved parameters.
pub open spec fn resolved_views(parameters: Seq<ResolvedParameter>) -> Seq<(Seq<char>, Seq<char>)> {
    parameters.map_values(|p: ResolvedParameter| p@)
}

/// The keys of a resolved parameter set, in order.
pub open spec fn keys_of(resolved: Seq<(Seq<char>, Seq<char>)>) -> Seq<Seq<char>> {
    resolved.map_values(|entry: (Seq<char>, Seq<char>)| entry.0)
}

/// What the operator is shown before a value is read.
#[derive(Debug, Clone, PartialEq, Eq)]
pub struct Prompt {
    pub name: String,
    pub description: String,
    pub declared_type: String,
}

/// A `Prompt` with its texts as character sequences.
pub struct PromptView {
    pub name: Seq<char>,
    pub description: Seq<char>,
    pub declared_type: Seq<char>,
}

impl View for Prompt {
    type V = PromptView;

    open spec fn view(&self) -> PromptView {
        PromptView {
            name: self.name@,
            description: self.description@,
            declared_type: self.declared_type@,
        }
    }
}

/// What the caller of the resolver does next.
#[derive(Debug, Clone, PartialEq, Eq)]
pub enum ResolverAction {
    /// Show the prompt, read one line, and report it with `answer`; report
    /// a failed read with `read_failed`.
    Ask(Prompt),
    /// Resolution is complete: this is the resolved parameter set.
    Finish(Vec<ResolvedParameter>),
    /// Resolution failed; the deployment is over.
    Abort(DeployError),
}

/// A `ResolverAction` over views.
pub enum ResolverActionView {
    Ask(PromptView),
    Finish(Seq<(Seq<char>, Seq<char>)>),
    Abort(DeployErrorView),
}

impl View for ResolverAction {
    type V = ResolverActionView;

    open spec fn view(&self) -> ResolverActionView {
        match self {
            ResolverAction::Ask(prompt) => ResolverActionView::Ask(prompt@),
            ResolverAction::Finish(parameters) => ResolverActionView::Finish(
                resolved_views(parameters@),
            ),
            ResolverAction::Abort(error) => ResolverActionView::Abort(error@),
        }
    }
}

/// Where the value of `parameter` comes from. The default-use rule is
/// applied first, so a reserved name that declares a default is left out
/// like any other when defaults are in use.
pub open spec fn source_of(parameter: ParameterSpecView, use_defaults: bool) -> ValueSource {
    if use_defaults && parameter.has_default {
        ValueSource::Omitted
    } else if parameter.name == bucket_parameter_name() {
        ValueSource::DeploymentBucket
    } else if parameter.name == path_parameter_name() {
        ValueSource::DeploymentPath
    } else {
        ValueSource::Operator
    }
}

/// The value injected under the deployment path name.
pub open spec fn deployment_path(settings: ResolverSettingsView) -> Seq<char> {
    slash_joined(settings.project_name, settings.artifact_folder)
}

/// The prompt for `parameter`.
pub open spec fn prompt_for(parameter: ParameterSpecView) -> PromptView {
    PromptView {
        name: parameter.name,
        description: parameter.description_text(),
        declared_type: parameter.type_text(),
    }
}

/// Whether `parameter` is asked of the operator.
pub open spec fn is_prompted(parameter: ParameterSpecView, use_defaults: bool) -> bool {
    source_of(parameter, use_defaults) == ValueSource::Operator
}

/// Whether `parameter` gets an entry in the resolved set.
pub open spec fn is_kept(parameter: ParameterSpecView, use_defaults: bool) -> bool {
    source_of(parameter, use_defaults) != ValueSource::Omitted
}

/// The parameters that the operator is asked for, in the order of asking.
pub open spec fn prompted(schema: Seq<ParameterSpecView>, use_defaults: bool) -> Seq<
    ParameterSpecView,
> {
    schema.filter(prompted_test(use_defaults))
}

/// The resolved parameter set of `schema`, where `answers` are the lines
/// read from the operator, one for each prompted parameter, in order.
pub open spec fn resolved_set(
    schema: Seq<ParameterSpecView>,
    settings: ResolverSettingsView,
    answers: Seq<Seq<char>>,
) -> Seq<(Seq<char>, Seq<char>)>
    decreases schema.len(),
{
    if schema.len() == 0 {
        Seq::empty()
    } else {
        let parameter = schema.first();
        let rest = schema.drop_first();
        match source_of(parameter, settings.use_defaults) {
            ValueSource::Omitted => resolved_set(rest, settings, answers),
            ValueSource::DeploymentBucket => seq![(parameter.name, settings.bucket_name)]
                + resolved_set(rest, settings, answers),
            ValueSource::DeploymentPath => seq![(parameter.name, deployment_path(settings))]
                + resolved_set(rest, settings, answers),
            ValueSource::Operator => seq![(parameter.name, without_line_end(answers.first()))]
                + resolved_set(rest, settings, answers.drop_first()),
        }
    }
}

/// The state of a resolution: the parameters before `cursor` are dealt
/// with, and `resolved` holds their entries.
pub struct ResolverView {
    pub schema: Seq<ParameterSpecView>,
    pub settings: ResolverSettingsView,
    pub cursor: nat,
    pub resolved: Seq<(Seq<char>, Seq<char>)>,
    pub failed: bool,
}

impl ResolverView {
    /// Whether the resolver waits for the operator's answer.
    pub open spec fn awaiting(self) -> bool {
        !self.failed && self.cursor < self.schema.len()
    }

    /// Deals with every parameter from `cursor` on that needs no answer,
    /// up to the next one that does.
    pub open spec fn settle(self) -> ResolverView
        decreases self.schema.len() - self.cursor,
    {
        if self.cursor >= self.schema.len() {
            self
        } else {
            let parameter = self.schema[self.cursor as int];
            match source_of(parameter, self.settings.use_defaults) {
                ValueSource::Omitted => ResolverView { cursor: self.cursor + 1, ..self }.settle(),
                ValueSource::DeploymentBucket => ResolverView {
                    cursor: self.cursor + 1,
                    resolved: self.resolved.push((parameter.name, self.settings.bucket_name)),
                    ..self
                }.settle(),
                ValueSource::DeploymentPath => ResolverView {
                    cursor: self.cursor + 1,
                    resolved: self.resolved.push((parameter.name, deployment_path(self.settings))),
                    ..self
                }.settle(),
                ValueSource::Operator => self,
            }
        }
    }

    /// The state in which a resolution starts.
    pub open spec fn start(
        schema: Seq<ParameterSpecView>,
        settings: ResolverSettingsView,
    ) -> ResolverView {
        ResolverView { schema, settings, cursor: 0, resolved: Seq::empty(), failed: false }.settle()
    }

    /// The state after the operator's line `line` was read. The line counts
    /// without its one trailing line feed. A line that nobody waits for
    /// changes nothing.
    pub open spec fn answered(self, line: Seq<char>) -> ResolverView {
        if self.awaiting() {
            ResolverView {
                cursor: self.cursor + 1,
                resolved: self.resolved.push(
                    (self.schema[self.cursor as int].name, without_line_end(line)),
                ),
                ..self
            }.settle()
        } else {
            self
        }
    }

    /// The state after reading the operator's line failed.
    pub open spec fn read_failed(self) -> ResolverView {
        if self.awaiting() {
            ResolverView { failed: true, ..self }
        } else {
            self
        }
    }

    /// What the caller does next in this state.
    pub open spec fn action(self) -> ResolverActionView {
        if self.failed {
            ResolverActionView::Abort(DeployErrorView::Input)
        } else if self.cursor < self.schema.len() {
            ResolverActionView::Ask(prompt_for(self.schema[self.cursor as int]))
        } else {
            ResolverActionView::Finish(self.resolved)
        }
    }

    /// The state after the lines `answers` were read one after the other.
    pub open spec fn answered_all(self, answers: Seq<Seq<char>>) -> ResolverView
        decreases answers.len(),
    {
        if answers.len() == 0 {
            self
        } else {
            self.answered(answers.first()).answered_all(answers.drop_first())
        }
    }

    /// The cursor is inside the schema or at its end, and where it is
    /// inside, it stands on a parameter that is asked of the operator.
    pub open spec fn settled(self) -> bool {
        &&& self.cursor <= self.schema.len()
        &&& self.cursor < self.schema.len() ==> is_prompted(
            self.schema[self.cursor as int],
            self.settings.use_defaults,
        )
    }
}

/// Where the value of `parameter` comes from.
pub fn value_source(parameter: &ParameterSpec, use_defaults: bool) -> (r: ValueSource)
    ensures
        r == source_of(parameter@, use_defaults),
{
    if use_defaults && parameter.has_default {
        ValueSource::Omitted
    } else if parameter.name == String::from_str("CGDeploymentBucket") {
        ValueSource::DeploymentBucket
    } else if parameter.name == String::from_str("CGDeploymentPath") {
        ValueSource::DeploymentPath
    } else {
        ValueSource::Operator
    }
}

/// A copy of a resolved parameter set.
pub fn copy_resolved(parameters: &Vec<ResolvedParameter>) -> (r: Vec<ResolvedParameter>)
    ensures
        resolved_views(r@) == resolved_views(parameters@),
{
    let mut r: Vec<ResolvedParameter> = Vec::new();
    let mut i: usize = 0;
    while i < parameters.len()
        invariant
            i <= parameters.len(),
            r@.len() == i,
            forall|k: int| 0 <= k < i ==> (#[trigger] r@[k])@ == parameters@[k]@,
        decreases parameters.len() - i,
    {
        r.push(
            ResolvedParameter {
                key: parameters[i].key.clone(),
                value: parameters[i].value.clone(),
            },
        );
        i = i + 1;
    }
    assert(resolved_views(r@) =~= resolved_views(parameters@));
    r
}

/// A resolution in progress.
pub struct ParameterResolver {
    schema: TemplateSchema,
    settings: ResolverSettings,
    cursor: usize,
    resolved: Vec<ResolvedParameter>,
    failed: bool,
}

impl View for ParameterResolver {
    type V = ResolverView;

    closed spec fn view(&self) -> ResolverView {
        ResolverView {
            schema: self.schema@,
            settings: self.settings@,
            cursor: self.cursor as nat,
            resolved: resolved_views(self.resolved@),
            failed: self.failed,
        }
    }
}

impl ParameterResolver {
    /// Starts a resolution: every parameter that needs no answer, up to the
    /// first that does, is dealt with at once.
    pub fn new(schema: TemplateSchema, settings: ResolverSettings) -> (r: ParameterResolver)
        ensures
            r@ == ResolverView::start(schema@, settings@),
    {
        let mut r = ParameterResolver {
            schema,
            settings,
            cursor: 0,
            resolved: Vec::new(),
            failed: false,
        };
        assert(resolved_views(r.resolved@) =~= Seq::empty());
        r.settle();
        r
    }

    /// Starts the resolution of the parameters that the template `text`
    /// declares. A template without a usable `Parameters` section cannot be
    /// resolved.
    pub fn from_template(text: &str, settings: ResolverSettings) -> (r: Result<
        ParameterResolver,
        DeployError,
    >)
        ensures
            match r {
                Ok(resolver) => template_schema(text@) matches Ok(schema) && resolver@
                    == ResolverView::start(schema, settings@),
                Err(error) => template_schema(text@) matches Err(kind) && error@
                    == DeployErrorView::Schema(kind),
            },
    {
        match TemplateSchema::parse(text) {
            Ok(schema) => Ok(ParameterResolver::new(schema, settings)),
            Err(kind) => Err(DeployError::Schema(kind)),
        }
    }

    /// Deals with every parameter from the cursor on that needs no answer.
    fn settle(&mut self)
        ensures
            final(self)@ == old(self)@.settle(),
    {
        let n: usize = self.schema.len();
        while self.cursor < n
            invariant
                n == self.schema@.len(),
                self@.settle() == old(self)@.settle(),
            decreases n - self.cursor,
        {
            let ghost before = self@;
            let parameter = self.schema.parameter(self.cursor);
            match value_source(parameter, self.settings.use_defaults) {
                ValueSource::Omitted => {},
                ValueSource::DeploymentBucket => {
                    let entry = ResolvedParameter {
                        key: parameter.name.clone(),
                        value: self.settings.bucket_name.clone(),
                    };
                    self.resolved.push(entry);
                    assert(resolved_views(self.resolved@) =~= before.resolved.push(entry@));
                },
                ValueSource::DeploymentPath => {
                    let entry = ResolvedParameter {
                        key: parameter.name.clone(),
                        value: join_with_slash(
                            self.settings.project_name.as_str(),
                            self.settings.artifact_folder.as_str(),
                        ),
                    };
                    self.resolved.push(entry);
                    assert(resolved_views(self.resolved@) =~= before.resolved.push(entry@));
                },
                ValueSource::Operator => {
                    return ;
                },
            }
            self.cursor = self.cursor + 1;
        }
    }

    /// What the caller does next.
    pub fn next_action(&self) -> (r: ResolverAction)
        ensures
            r@ == self@.action(),
    {
        if self.failed {
            ResolverAction::Abort(DeployError::Input)
        } else if self.cursor < self.schema.len() {
            let parameter = self.schema.parameter(self.cursor);
            ResolverAction::Ask(
                Prompt {
                    name: parameter.name.clone(),
                    description: parameter.description_text(),
                    declared_type: parameter.type_text(),
                },
            )
        } else {
            ResolverAction::Finish(copy_resolved(&self.resolved))
        }
    }

    /// Takes the line that was read from the operator in answer to the
    /// pending prompt.
    pub fn answer(&mut self, line: &str)
        ensures
            final(self)@ == old(self)@.answered(line@),
    {
        if !self.failed && self.cursor < self.schema.len() {
            let ghost before = self@;
            let parameter = self.schema.parameter(self.cursor);
            let entry = ResolvedParameter {
                key: parameter.name.clone(),
                value: trim_line_end(line),
            };
            self.resolved.push(entry);
            assert(resolved_views(self.resolved@) =~= before.resolved.push(entry@));
            self.cursor = self.cursor + 1;
            self.settle();
        }
    }

    /// Takes note that reading the operator's line failed. Nothing is
    /// retried: from here on the only action is to abort.
    pub fn read_failed(&mut self)
        ensures
            final(self)@ == old(self)@.read_failed(),
    {
        if !self.failed && self.cursor < self.schema.len() {
            self.failed = true;
        }
    }
}

/// The test by which `prompted` filters.
pub open spec fn prompted_test(use_defaults: bool) -> spec_fn(ParameterSpecView) -> bool {
    |p: ParameterSpecView| is_prompted(p, use_defaults)
}

/// The test by which the kept parameters are told from the omitted ones.
pub open spec fn kept_test(use_defaults: bool) -> spec_fn(ParameterSpecView) -> bool {
    |p: ParameterSpecView| is_kept(p, use_defaults)
}

/// Filtering a sequence that is not empty: the first element is tested, and
/// the rest is filtered.
proof fn lemma_filter_first<A>(s: Seq<A>, test: spec_fn(A) -> bool)
    requires
        s.len() > 0,
    ensures
        s.filter(test) == (if test(s.first()) {
            seq![s.first()]
        } else {
            Seq::empty()
        }) + s.drop_first().filter(test),
{
    assert(s =~= seq![s.first()] + s.drop_first());
    s.drop_first().lemma_filter_prepend(s.first(), test);
}

/// The keys of a resolved set are the names of the parameters that are not
/// omitted, in schema order, whatever the operator answered.
pub proof fn lemma_resolved_keys(
    schema: Seq<ParameterSpecView>,
    settings: ResolverSettingsView,
    answers: Seq<Seq<char>>,
)
    ensures
        keys_of(resolved_set(schema, settings, answers)) == names_of(
            schema.filter(kept_test(settings.use_defaults)),
        ),
    decreases schema.len(),
{
    let test = kept_test(settings.use_defaults);
    if schema.len() == 0 {
        assert(schema.filter(test) =~= Seq::empty());
        assert(keys_of(resolved_set(schema, settings, answers)) =~= names_of(schema.filter(test)));
    } else {
        let parameter = schema.first();
        let rest = schema.drop_first();
        let rest_answers = if source_of(parameter, settings.use_defaults) == ValueSource::Operator {
            answers.drop_first()
        } else {
            answers
        };
        let whole = resolved_set(schema, settings, answers);
        let tail = resolved_set(rest, settings, rest_answers);
        lemma_filter_first(schema, test);
        lemma_resolved_keys(rest, settings, rest_answers);
        if source_of(parameter, settings.use_defaults) == ValueSource::Omitted {
            assert(whole == tail);
            assert(schema.filter(test) =~= rest.filter(test));
        } else {
            assert(whole.len() == tail.len() + 1);
            assert(whole[0].0 == parameter.name);
            assert(forall|k: int| 0 <= k < tail.len() ==> whole[k + 1] == tail[k]);
            assert(schema.filter(test) =~= seq![parameter] + rest.filter(test));
            assert(keys_of(whole) =~= seq![parameter.name] + keys_of(tail));
            assert(names_of(schema.filter(test)) =~= seq![parameter.name] + names_of(
                rest.filter(test),
            ));
        }
    }
}

/// Every key of a resolved set is the name of a declared parameter that is
/// not omitted, and every such name is a key.
pub proof fn lemma_resolved_key_membership(
    schema: Seq<ParameterSpecView>,
    settings: ResolverSettingsView,
    answers: Seq<Seq<char>>,
    name: Seq<char>,
)
    ensures
        keys_of(resolved_set(schema, settings, answers)).contains(name) <==> exists|i: int|
            0 <= i < schema.len() && (#[trigger] schema[i]).name == name && is_kept(
                schema[i],
                settings.use_defaults,
            ),
{
    broadcast use vstd::seq_lib::group_filter_ensures;

    let test = kept_test(settings.use_defaults);
    let kept = schema.filter(test);
    let keys = keys_of(resolved_set(schema, settings, answers));
    lemma_resolved_keys(schema, settings, answers);
    if keys.contains(name) {
        let k = choose|k: int| 0 <= k < keys.len() && keys[k] == name;
        assert(kept[k].name == name);
        assert(test(kept[k]));
        assert(kept.contains(kept[k]));
        schema.lemma_filter_contains_rev(test, kept[k]);
        let i = choose|i: int| 0 <= i < schema.len() && schema[i] == kept[k];
        assert(schema[i].name == name && is_kept(schema[i], settings.use_defaults));
    }
    if exists|i: int|
        0 <= i < schema.len() && (#[trigger] schema[i]).name == name && is_kept(
            schema[i],
            settings.use_defaults,
        ) {
        let i = choose|i: int|
            0 <= i < schema.len() && (#[trigger] schema[i]).name == name && is_kept(
                schema[i],
                settings.use_defaults,
            );
        assert(test(schema[i]));
        assert(kept.contains(schema[i]));
        let k = choose|k: int| 0 <= k < kept.len() && kept[k] == schema[i];
        assert(keys[k] == name);
    }
}

/// The key set of a resolution. Where no reserved name is left out under
/// the default-use rule, the keys are the declared names without those left
/// out under that rule, and each declared reserved name is among them.
pub proof fn law_resolved_key_set(
    schema: Seq<ParameterSpecView>,
    settings: ResolverSettingsView,
    answers: Seq<Seq<char>>,
)
    requires
        forall|i: int|
            0 <= i < schema.len() && is_reserved_name((#[trigger] schema[i]).name) ==> !(
            settings.use_defaults && schema[i].has_default),
    ensures
        forall|name: Seq<char>|
            #[trigger] keys_of(resolved_set(schema, settings, answers)).contains(name) <==> exists|
                i: int,
            |
                0 <= i < schema.len() && (#[trigger] schema[i]).name == name && !(
                settings.use_defaults && schema[i].has_default),
        forall|i: int|
            0 <= i < schema.len() && is_reserved_name((#[trigger] schema[i]).name) ==> keys_of(
                resolved_set(schema, settings, answers),
            ).contains(schema[i].name),
{
    let keys = keys_of(resolved_set(schema, settings, answers));
    assert forall|name: Seq<char>| #[trigger] keys.contains(name) <==> exists|i: int|
        0 <= i < schema.len() && (#[trigger] schema[i]).name == name && !(settings.use_defaults
            && schema[i].has_default) by {
        lemma_resolved_key_membership(schema, settings, answers, name);
    }
    assert forall|i: int|
        0 <= i < schema.len() && is_reserved_name(
            (#[trigger] schema[i]).name,
        ) implies keys.contains(schema[i].name) by {
        lemma_resolved_key_membership(schema, settings, answers, schema[i].name);
    }
}

/// A schema that declares each name once resolves to a set in which each
/// key occurs once.
pub proof fn lemma_resolved_keys_distinct(
    schema: Seq<ParameterSpecView>,
    settings: ResolverSettingsView,
    answers: Seq<Seq<char>>,
)
    requires
        well_formed_schema(schema),
    ensures
        keys_of(resolved_set(schema, settings, answers)).no_duplicates(),
    decreases schema.len(),
{
    let keys = keys_of(resolved_set(schema, settings, answers));
    if schema.len() > 0 {
        let parameter = schema.first();
        let rest = schema.drop_first();
        let rest_answers = if source_of(parameter, settings.use_defaults) == ValueSource::Operator {
            answers.drop_first()
        } else {
            answers
        };
        let rest_keys = keys_of(resolved_set(rest, settings, rest_answers));
        assert(well_formed_schema(rest)) by {
            let names = names_of(schema);
            let rest_names = names_of(rest);
            assert forall|a: int, b: int|
                0 <= a < rest_names.len() && 0 <= b < rest_names.len() && a != b implies rest_names[a]
                != rest_names[b] by {
                assert(rest_names[a] == names[a + 1]);
                assert(rest_names[b] == names[b + 1]);
            }
        }
        lemma_resolved_keys_distinct(rest, settings, rest_answers);
        if source_of(parameter, settings.use_defaults) == ValueSource::Omitted {
            assert(keys =~= rest_keys);
        } else {
            assert(keys =~= seq![parameter.name] + rest_keys);
            assert forall|k: int| 0 <= k < rest_keys.len() implies rest_keys[k]
                != parameter.name by {
                lemma_resolved_key_membership(rest, settings, rest_answers, rest_keys[k]);
                let i = choose|i: int|
                    0 <= i < rest.len() && (#[trigger] rest[i]).name == rest_keys[k] && is_kept(
                        rest[i],
                        settings.use_defaults,
                    );
                assert(names_of(schema)[i + 1] == rest[i].name);
                assert(names_of(schema)[0] == parameter.name);
            }
            assert forall|a: int, b: int|
                0 <= a < keys.len() && 0 <= b < keys.len() && a != b implies keys[a]
                != keys[b] by {
                if a > 0 {
                    assert(keys[a] == rest_keys[a - 1]);
                }
                if b > 0 {
                    assert(keys[b] == rest_keys[b - 1]);
                }
            }
        }
    } else {
        assert(keys =~= Seq::empty());
    }
}

/// Who is asked. The operator is asked for a name if and only if the name
/// is declared, is not left out under the default-use rule, and is not
/// reserved: a reserved name is never asked for.
pub proof fn law_prompted_names(
    schema: Seq<ParameterSpecView>,
    use_defaults: bool,
    name: Seq<char>,
)
    ensures
        (exists|k: int|
            0 <= k < prompted(schema, use_defaults).len() && (#[trigger] prompted(
                schema,
                use_defaults,
            )[k]).name == name) <==> (exists|i: int|
            0 <= i < schema.len() && (#[trigger] schema[i]).name == name && !(use_defaults
                && schema[i].has_default) && !is_reserved_name(name)),
{
    broadcast use vstd::seq_lib::group_filter_ensures;

    let test = prompted_test(use_defaults);
    let asked = prompted(schema, use_defaults);
    if exists|k: int| 0 <= k < asked.len() && (#[trigger] asked[k]).name == name {
        let k = choose|k: int| 0 <= k < asked.len() && (#[trigger] asked[k]).name == name;
        assert(test(asked[k]));
        assert(asked.contains(asked[k]));
        schema.lemma_filter_contains_rev(test, asked[k]);
        let i = choose|i: int| 0 <= i < schema.len() && schema[i] == asked[k];
        assert(schema[i].name == name && is_prompted(schema[i], use_defaults));
    }
    if exists|i: int|
        0 <= i < schema.len() && (#[trigger] schema[i]).name == name && !(use_defaults
            && schema[i].has_default) && !is_reserved_name(name) {
        let i = choose|i: int|
            0 <= i < schema.len() && (#[trigger] schema[i]).name == name && !(use_defaults
                && schema[i].has_default) && !is_reserved_name(name);
        assert(test(schema[i]));
        assert(asked.contains(schema[i]));
        let k = choose|k: int| 0 <= k < asked.len() && asked[k] == schema[i];
        assert(asked[k].name == name);
    }
}

/// What `settle` does: it stops where the next answer is needed, asks for no
/// answer on the way, and adds what the passed parameters resolve to.
proof fn lemma_settle(state: ResolverView, answers: Seq<Seq<char>>)
    requires
        state.cursor <= state.schema.len(),
    ensures
        ({
            let after = state.settle();
            let use_defaults = state.settings.use_defaults;
            &&& after.settled()
            &&& after.schema == state.schema
            &&& after.settings == state.settings
            &&& after.failed == state.failed
            &&& state.cursor <= after.cursor
            &&& state.schema.skip(after.cursor as int).filter(prompted_test(use_defaults))
                == state.schema.skip(state.cursor as int).filter(prompted_test(use_defaults))
            &&& after.resolved + resolved_set(
                state.schema.skip(after.cursor as int),
                state.settings,
                answers,
            ) == state.resolved + resolved_set(
                state.schema.skip(state.cursor as int),
                state.settings,
                answers,
            )
        }),
    decreases state.schema.len() - state.cursor,
{
    let after = state.settle();
    let use_defaults = state.settings.use_defaults;
    if state.cursor < state.schema.len() {
        let parameter = state.schema[state.cursor as int];
        let here = state.schema.skip(state.cursor as int);
        let beyond = state.schema.skip(state.cursor as int + 1);
        assert(here.first() == parameter);
        assert(here.drop_first() =~= beyond);
        lemma_filter_first(here, prompted_test(use_defaults));
        match source_of(parameter, use_defaults) {
            ValueSource::Omitted => {
                let next = ResolverView { cursor: state.cursor + 1, ..state };
                lemma_settle(next, answers);
            },
            ValueSource::DeploymentBucket => {
                let entry = (parameter.name, state.settings.bucket_name);
                let next = ResolverView {
                    cursor: state.cursor + 1,
                    resolved: state.resolved.push(entry),
                    ..state
                };
                lemma_settle(next, answers);
                assert(next.resolved + resolved_set(beyond, state.settings, answers)
                    =~= state.resolved + (seq![entry] + resolved_set(
                    beyond,
                    state.settings,
                    answers,
                )));
            },
            ValueSource::DeploymentPath => {
                let entry = (parameter.name, deployment_path(state.settings));
                let next = ResolverView {
                    cursor: state.cursor + 1,
                    resolved: state.resolved.push(entry),
                    ..state
                };
                lemma_settle(next, answers);
                assert(next.resolved + resolved_set(beyond, state.settings, answers)
                    =~= state.resolved + (seq![entry] + resolved_set(
                    beyond,
                    state.settings,
                    answers,
                )));
            },
            ValueSource::Operator => {},
        }
    }
}

/// What a settled resolver does with the operator's lines: while fewer lines
/// have come than there are parameters left to ask for, it asks for the next
/// of them; once all have come, it finishes with the resolved set.
proof fn lemma_answers(state: ResolverView, answers: Seq<Seq<char>>)
    requires
        state.settled(),
        !state.failed,
        answers.len() <= prompted(
            state.schema.skip(state.cursor as int),
            state.settings.use_defaults,
        ).len(),
    ensures
        ({
            let end = state.answered_all(answers);
            let left = prompted(
                state.schema.skip(state.cursor as int),
                state.settings.use_defaults,
            );
            &&& answers.len() < left.len() ==> end.action() == ResolverActionView::Ask(
                prompt_for(left[answers.len() as int]),
            )
            &&& answers.len() == left.len() ==> end.action() == ResolverActionView::Finish(
                state.resolved + resolved_set(
                    state.schema.skip(state.cursor as int),
                    state.settings,
                    answers,
                ),
            )
        }),
    decreases answers.len(),
{
    let use_defaults = state.settings.use_defaults;
    let here = state.schema.skip(state.cursor as int);
    let left = prompted(here, use_defaults);
    if state.cursor < state.schema.len() {
        assert(here.first() == state.schema[state.cursor as int]);
        lemma_filter_first(here, prompted_test(use_defaults));
        assert(left.len() > 0 && left[0] == state.schema[state.cursor as int]);
    } else {
        assert(here =~= Seq::empty());
        assert(state.resolved + resolved_set(here, state.settings, answers) =~= state.resolved);
    }
    if answers.len() > 0 {
        let parameter = state.schema[state.cursor as int];
        let beyond = state.schema.skip(state.cursor as int + 1);
        let entry = (parameter.name, without_line_end(answers.first()));
        let taken = ResolverView {
            cursor: state.cursor + 1,
            resolved: state.resolved.push(entry),
            ..state
        };
        let next = state.answered(answers.first());
        assert(next == taken.settle());
        assert(here.drop_first() =~= beyond);
        lemma_settle(taken, answers.drop_first());
        assert(prompted(state.schema.skip(next.cursor as int), use_defaults) =~= left.drop_first());
        lemma_answers(next, answers.drop_first());
        assert(taken.resolved + resolved_set(beyond, state.settings, answers.drop_first())
            =~= state.resolved + resolved_set(here, state.settings, answers));
    }
}

/// Running a resolution. While fewer lines have been read than there are
/// prompted parameters, the resolver asks for the next of them, in schema
/// order; once a line has been read for each, it finishes with the resolved
/// set of the schema.
pub proof fn law_resolution(
    schema: Seq<ParameterSpecView>,
    settings: ResolverSettingsView,
    answers: Seq<Seq<char>>,
)
    requires
        answers.len() <= prompted(schema, settings.use_defaults).len(),
    ensures
        ({
            let end = ResolverView::start(schema, settings).answered_all(answers);
            let asked = prompted(schema, settings.use_defaults);
            &&& answers.len() < asked.len() ==> end.action() == ResolverActionView::Ask(
                prompt_for(asked[answers.len() as int]),
            )
            &&& answers.len() == asked.len() ==> end.action() == ResolverActionView::Finish(
                resolved_set(schema, settings, answers),
            )
        }),
{
    let initial = ResolverView {
        schema,
        settings,
        cursor: 0,
        resolved: Seq::empty(),
        failed: false,
    };
    assert(schema.skip(0) =~= schema);
    lemma_settle(initial, answers);
    let started = initial.settle();
    lemma_answers(started, answers);
    assert(Seq::<(Seq<char>, Seq<char>)>::empty() + resolved_set(schema, settings, answers)
        =~= resolved_set(schema, settings, answers));
}


} // verus!
