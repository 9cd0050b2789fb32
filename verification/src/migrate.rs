use vstd::prelude::*;
use vstd::string::*;
use crate::api::Repo;
use crate::errors::RepoCopyError;
use crate::git::{
    batch_refspecs, batch_views, branch_views, duplicate_strings, is_batching, mapping_views,
    plan_local_branches, push_refspecs, remote_prefix, remote_url_of, spec_plan, spec_push_refs,
    string_views, topics_url, authenticated_remote_url, BranchMapping, RemoteBranch,
};
use crate::text::is_prefix;

verus! {

/// Whether a status code reports success.
pub open spec fn spec_is_success(status: u16) -> bool {
    200 <= status < 300
}

/// Whether a status code reports success.
pub fn is_success(status: u16) -> (r: bool)
    ensures
        r == spec_is_success(status),
{
    200 <= status && status < 300
}

/// What the destination lookup answered: the status, and the parsed
/// repository metadata when the caller needed and could parse it.
#[derive(Debug, PartialEq, Eq)]
pub struct CheckResponse {
    pub status: u16,
    pub metadata: Option<Repo>,
}

/// What the creation request answered: the status, and the parsed descriptor
/// of the created repository when the body could be parsed.
#[derive(Debug, PartialEq, Eq)]
pub struct CreateResponse {
    pub status: u16,
    pub created: Option<Repo>,
}

/// Whether a destination repository of the wanted name exists.
#[derive(Debug, PartialEq, Eq)]
pub enum LookupResult {
    NotFound,
    Exists { metadata: Option<Repo> },
}

/// The three-state destination policy: create a fresh repository, treat the
/// repository as already migrated, or reuse the existing destination.
#[derive(Debug, PartialEq, Eq)]
pub enum ResolveOutcome {
    CreateNew,
    AlreadyMigrated,
    Reuse { metadata: Option<Repo> },
}

/// How a lookup answer is read: a failed request or a non-success status both
/// count as "not found", so that creation, not the lookup, is the
/// authoritative signal.
pub open spec fn spec_interpret(result: Result<CheckResponse, RepoCopyError>) -> LookupResult {
    match result {
        Result::Ok(cr) => if spec_is_success(cr.status) {
            LookupResult::Exists { metadata: cr.metadata }
        } else {
            LookupResult::NotFound
        },
        Result::Err(_) => LookupResult::NotFound,
    }
}

/// Reads the destination lookup answer, tolerating a failed lookup.
pub fn interpret_check(result: Result<CheckResponse, RepoCopyError>) -> (r: LookupResult)
    ensures
        r == spec_interpret(result),
{
    match result {
        Result::Ok(cr) => {
            if is_success(cr.status) {
                LookupResult::Exists { metadata: cr.metadata }
            } else {
                LookupResult::NotFound
            }
        },
        Result::Err(_) => LookupResult::NotFound,
    }
}

/// The destination policy: absent means create; present without force-update
/// means already migrated; present with force-update means reuse the existing
/// destination's metadata.
pub open spec fn spec_resolve(lookup: LookupResult, force_update: bool) -> ResolveOutcome {
    match lookup {
        LookupResult::NotFound => ResolveOutcome::CreateNew,
        LookupResult::Exists { metadata } => if force_update {
            ResolveOutcome::Reuse { metadata }
        } else {
            ResolveOutcome::AlreadyMigrated
        },
    }
}

/// Decides the destination policy for one repository name.
pub fn resolve_destination(lookup: LookupResult, force_update: bool) -> (r: ResolveOutcome)
    ensures
        r == spec_resolve(lookup, force_update),
{
    match lookup {
        LookupResult::NotFound => ResolveOutcome::CreateNew,
        LookupResult::Exists { metadata } => {
            if force_update {
                ResolveOutcome::Reuse { metadata }
            } else {
                ResolveOutcome::AlreadyMigrated
            }
        },
    }
}

/// Decides the outcome of a creation request from its answer: a non-success
/// status is a creation failure carrying that status; a success status yields
/// the created descriptor, or a serialization failure when the body could not
/// be parsed.
pub fn create_repository_outcome(response: CreateResponse) -> (r: Result<Repo, RepoCopyError>)
    ensures
        !spec_is_success(response.status) ==> (r matches Result::Err(e) && e
            == RepoCopyError::CreateRepoError(response.status)),
        spec_is_success(response.status) ==> (response.created matches Option::Some(m) ==> (r
            matches Result::Ok(m2) && m2 == m)),
        spec_is_success(response.status) && response.created is None ==> (r matches Result::Err(e)
            && e is Json),
{
    if !is_success(response.status) {
        Result::Err(RepoCopyError::CreateRepoError(response.status))
    } else {
        match response.created {
            Option::Some(m) => Result::Ok(m),
            Option::None => Result::Err(
                RepoCopyError::Json(String::from_str("created repository answer had no descriptor")),
            ),
        }
    }
}

/// Decides the outcome of a topic update from its status: success if and only
/// if the status reports success, and otherwise a topics failure carrying
/// that status.
pub fn set_topics_outcome(status: u16) -> (r: Result<(), RepoCopyError>)
    ensures
        spec_is_success(status) ==> r is Ok,
        !spec_is_success(status) ==> (r matches Result::Err(e) && e
            == RepoCopyError::SetTopicsError(status)),
{
    if is_success(status) {
        Result::Ok(())
    } else {
        Result::Err(RepoCopyError::SetTopicsError(status))
    }
}

/// Everything fixed about one repository's migration: what to migrate, where
/// from, and under which policy.
pub struct RepoJob {
    pub name: String,
    pub clone_url: String,
    pub description: Option<String>,
    pub private: bool,
    pub topics: Vec<String>,
    pub token: String,
    pub force_update: bool,
}

/// Where one repository's migration stands.
#[derive(Debug, PartialEq, Eq)]
pub enum Phase {
    /// Waiting for the destination lookup.
    Checking,
    /// Waiting for the clone and fetch of the source.
    Mirroring { existing: Option<Repo> },
    /// Waiting for the local tracking branches to be materialized.
    Materializing { existing: Option<Repo>, refspecs: Vec<String> },
    /// Waiting for the destination repository to be created.
    Creating { refspecs: Vec<String> },
    /// Waiting for the topic update.
    SettingTopics { dest_full_name: String, refspecs: Vec<String> },
    /// Pushing the batches one by one; `next` is the first batch not yet
    /// handed out.
    Pushing { remote_url: String, batches: Vec<Vec<String>>, next: usize },
    /// Nothing is left to do.
    Finished { failure: Option<RepoCopyError> },
}

/// What the engine asks its surroundings to do next.
#[derive(Debug, PartialEq, Eq)]
pub enum Action {
    /// Look up whether the destination already has a repository of this name.
    CheckDestination { name: String },
    /// Clone the source into a fresh scoped temporary directory, configure
    /// the remote to fetch all branches, fetch, and report every
    /// remote-tracking branch with its target commit.
    MirrorSource { clone_url: String },
    /// Create or update the local tracking branch of every mapping, in order,
    /// and set its upstream to the remote-tracking ref.
    MaterializeBranches { plan: Vec<BranchMapping> },
    /// POST a creation request for the destination repository.
    CreateRepository { name: String, description: Option<String>, private: bool },
    /// PUT the full topic set to the destination's topics endpoint.
    PutTopics { url: String, names: Vec<String> },
    /// Push one batch of refspecs to the destination remote.
    PushBatch { remote_url: String, refspecs: Vec<String> },
    /// The migration of this repository is over; read off the outcome.
    Finish,
}

/// What the surroundings answered to the previous action.
#[derive(Debug, PartialEq, Eq)]
pub enum Event {
    Checked { result: Result<CheckResponse, RepoCopyError> },
    Mirrored { result: Result<Vec<RemoteBranch>, RepoCopyError> },
    Materialized { result: Result<(), RepoCopyError> },
    Created { result: Result<CreateResponse, RepoCopyError> },
    TopicsPut { result: Result<u16, RepoCopyError> },
    Pushed { result: Result<(), RepoCopyError> },
}

/// The migration engine for a single repository, driven by events.
pub struct RepoMigration {
    pub job: RepoJob,
    pub phase: Phase,
}

/// The step failed this repository: the error is recorded and nothing more is
/// asked for.
pub open spec fn fail_to(e: RepoCopyError, post: Phase, a: Action) -> bool {
    &&& post matches Phase::Finished { failure } && failure == Option::Some(e)
    &&& a is Finish
}

/// The step asked for the source to be mirrored.
pub open spec fn to_mirror_rel(job: RepoJob, existing: Option<Repo>, post: Phase, a: Action) -> bool {
    &&& post matches Phase::Mirroring { existing: e2 } && e2 == existing
    &&& a matches Action::MirrorSource { clone_url } && clone_url@ == job.clone_url@
}

/// The step entered the pushing stage: with no branch to push the migration
/// is already complete; otherwise the refspecs are batched and the first
/// batch is handed out, aimed at the authenticated destination remote.
pub open spec fn pushing_entry_rel(
    job: RepoJob,
    full_name: Seq<char>,
    refs: Seq<Seq<char>>,
    post: Phase,
    a: Action,
) -> bool {
    if refs.len() == 0 {
        &&& post matches Phase::Finished { failure } && failure is None
        &&& a is Finish
    } else {
        &&& post matches Phase::Pushing { remote_url, batches, next } && remote_url@
            == remote_url_of(job.token@, full_name) && is_batching(refs, batch_views(batches@))
            && next == 1
        &&& a matches Action::PushBatch { remote_url: ru, refspecs } && ru@ == remote_url_of(
            job.token@,
            full_name,
        ) && (post matches Phase::Pushing { batches, .. } && string_views(refspecs@)
            == batch_views(batches@)[0])
    }
}

/// The step entered the publication stage for a resolved destination: a
/// non-empty topic set is applied first; an empty one is a no-op and pushing
/// begins at once.
pub open spec fn publish_entry_rel(
    job: RepoJob,
    full_name: Seq<char>,
    url: Seq<char>,
    refs: Seq<Seq<char>>,
    post: Phase,
    a: Action,
) -> bool {
    if job.topics.len() > 0 {
        &&& post matches Phase::SettingTopics { dest_full_name, refspecs } && dest_full_name@
            == full_name && string_views(refspecs@) == refs
        &&& a matches Action::PutTopics { url: u, names } && u@ == url + "/topics"@
            && string_views(names@) == string_views(job.topics@)
    } else {
        pushing_entry_rel(job, full_name, refs, post, a)
    }
}

/// The description of an optional description.
pub open spec fn description_view(d: Option<String>) -> Option<Seq<char>> {
    match d {
        Option::Some(s) => Option::Some(s@),
        Option::None => Option::None,
    }
}

/// The whole transition relation of the engine: given the state before the
/// step and the event received, what the state after the step and the action
/// handed out must be.
pub open spec fn step_rel(pre: RepoMigration, ev: Event, post: Phase, a: Action) -> bool {
    match pre.phase {
        Phase::Checking => (ev matches Event::Checked { result } ==> match spec_resolve(
            spec_interpret(result),
            pre.job.force_update,
        ) {
            ResolveOutcome::CreateNew => to_mirror_rel(pre.job, Option::None, post, a),
            ResolveOutcome::AlreadyMigrated => {
                &&& post matches Phase::Finished { failure } && failure is None
                &&& a is Finish
            },
            ResolveOutcome::Reuse { metadata } => match metadata {
                Option::Some(m) => to_mirror_rel(pre.job, Option::Some(m), post, a),
                Option::None => {
                    &&& post matches Phase::Finished { failure } && failure matches Option::Some(e)
                        && e is Json
                    &&& a is Finish
                },
            },
        }),
        Phase::Mirroring { existing } => (ev matches Event::Mirrored { result } ==> match result {
            Result::Ok(branches) => {
                &&& post matches Phase::Materializing { existing: e2, refspecs } && e2 == existing
                    && string_views(refspecs@) == spec_push_refs(
                    spec_plan(branch_views(branches@)),
                )
                &&& a matches Action::MaterializeBranches { plan } && mapping_views(plan@)
                    == spec_plan(branch_views(branches@))
            },
            Result::Err(e) => fail_to(e, post, a),
        }),
        Phase::Materializing { existing, refspecs } => (ev matches Event::Materialized { result }
            ==> match result {
            Result::Ok(_) => match existing {
                Option::Some(m) => publish_entry_rel(
                    pre.job,
                    m.full_name@,
                    m.url@,
                    string_views(refspecs@),
                    post,
                    a,
                ),
                Option::None => {
                    &&& post matches Phase::Creating { refspecs: r2 } && r2 == refspecs
                    &&& a matches Action::CreateRepository { name, description, private } && name@
                        == pre.job.name@ && description_view(description) == description_view(
                        pre.job.description,
                    ) && private == pre.job.private
                },
            },
            Result::Err(e) => fail_to(e, post, a),
        }),
        Phase::Creating { refspecs } => (ev matches Event::Created { result } ==> match result {
            Result::Ok(cr) => if !spec_is_success(cr.status) {
                fail_to(RepoCopyError::CreateRepoError(cr.status), post, a)
            } else {
                match cr.created {
                    Option::Some(m) => publish_entry_rel(
                        pre.job,
                        m.full_name@,
                        m.url@,
                        string_views(refspecs@),
                        post,
                        a,
                    ),
                    Option::None => {
                        &&& post matches Phase::Finished { failure } && failure matches
                            Option::Some(e) && e is Json
                        &&& a is Finish
                    },
                }
            },
            Result::Err(e) => fail_to(e, post, a),
        }),
        Phase::SettingTopics { dest_full_name, refspecs } => (ev matches Event::TopicsPut { result }
            ==> match result {
            Result::Ok(status) => if spec_is_success(status) {
                pushing_entry_rel(pre.job, dest_full_name@, string_views(refspecs@), post, a)
            } else {
                fail_to(RepoCopyError::SetTopicsError(status), post, a)
            },
            Result::Err(e) => fail_to(e, post, a),
        }),
        Phase::Pushing { remote_url, batches, next } => (ev matches Event::Pushed { result }
            ==> match result {
            Result::Ok(_) => if next < batches@.len() {
                &&& post matches Phase::Pushing { remote_url: ru2, batches: b2, next: n2 } && ru2
                    == remote_url && b2 == batches && n2 == next + 1
                &&& a matches Action::PushBatch { remote_url: ru, refspecs } && ru@ == remote_url@
                    && string_views(refspecs@) == batch_views(batches@)[next as int]
            } else {
                &&& post matches Phase::Finished { failure } && failure is None
                &&& a is Finish
            },
            Result::Err(e) => fail_to(e, post, a),
        }),
        Phase::Finished { .. } => false,
    }
}

impl RepoMigration {
    /// The engine is done with this repository.
    pub open spec fn finished(&self) -> bool {
        self.phase is Finished
    }

    /// Which event the engine is waiting for; a mirrored branch listing must
    /// name every branch under the remote's prefix, as the transport does for
    /// a single named remote.
    pub open spec fn expects(&self, ev: Event) -> bool {
        match self.phase {
            Phase::Checking => ev is Checked,
            Phase::Mirroring { .. } => ev matches Event::Mirrored { result } && (result matches
                Result::Ok(branches) ==> forall|i: int|
                    0 <= i < branches@.len() ==> is_prefix(
                        remote_prefix(),
                        #[trigger] branches@[i].name@,
                    )),
            Phase::Materializing { .. } => ev is Materialized,
            Phase::Creating { .. } => ev is Created,
            Phase::SettingTopics { .. } => ev is TopicsPut,
            Phase::Pushing { .. } => ev is Pushed,
            Phase::Finished { .. } => false,
        }
    }

    /// Starts the migration of one repository: the first thing to do is the
    /// destination lookup by name.
    pub fn start(job: RepoJob) -> (r: (RepoMigration, Action))
        ensures
            r.0.job == job,
            r.0.phase is Checking,
            r.1 matches Action::CheckDestination { name } && name@ == job.name@,
    {
        let name = job.name.clone();
        (RepoMigration { job, phase: Phase::Checking }, Action::CheckDestination { name })
    }

    /// The engine is done with this repository.
    pub fn is_finished(&self) -> (r: bool)
        ensures
            r == self.finished(),
    {
        match &self.phase {
            Phase::Finished { .. } => true,
            _ => false,
        }
    }

    /// The outcome of a finished migration, recorded under the repository's
    /// name.
    pub fn into_outcome(self, name: String) -> (o: MigrationOutcome)
        requires
            self.finished(),
        ensures
            o.name == name,
            self.phase matches Phase::Finished { failure } ==> o.failure == failure,
    {
        match self.phase {
            Phase::Finished { failure } => MigrationOutcome { name, failure },
            _ => unreached(),
        }
    }

    /// Feed the engine the answer to its previous action; it moves one phase
    /// on and hands out the next action. Beyond the full transition relation,
    /// three standing guarantees are part of the contract: a creation request
    /// is only ever issued when the destination was resolved as absent, so a
    /// reused destination never sees a creation conflict; an empty topic set
    /// never issues a topic update; and a destination that already exists,
    /// without force-update, is reported migrated at once, with no mirror,
    /// creation, topic or push action.
    pub fn step(self, ev: Event) -> (r: (RepoMigration, Action))
        requires
            self.expects(ev),
        ensures
            r.0.job == self.job,
            step_rel(self, ev, r.0.phase, r.1),
            r.1 matches Action::CreateRepository { .. } ==> (self.phase matches
                Phase::Materializing { existing, .. } && existing is None),
            r.1 matches Action::PutTopics { .. } ==> self.job.topics.len() > 0,
            self.phase is Checking ==> (ev matches Event::Checked { result: Result::Ok(cr) } ==> (
            spec_is_success(cr.status) && !self.job.force_update ==> (r.0.phase matches
            Phase::Finished { failure } && failure is None && r.1 is Finish))),
            self.phase is Checking ==> (ev matches Event::Checked { result: Result::Ok(cr) } ==> (
            spec_is_success(cr.status) && self.job.force_update ==> (cr.metadata matches
            Option::Some(m) ==> (r.0.phase matches Phase::Mirroring { existing } && existing
                == Option::Some(m))))),
    {
        let RepoMigration { job, phase } = self;
        match phase {
            Phase::Checking => {
                let ev_result = match ev {
                    Event::Checked { result } => result,
                    _ => unreached(),
                };
                match resolve_destination(interpret_check(ev_result), job.force_update) {
                    ResolveOutcome::CreateNew => {
                        let clone_url = job.clone_url.clone();
                        (
                            RepoMigration { job, phase: Phase::Mirroring { existing: Option::None } },
                            Action::MirrorSource { clone_url },
                        )
                    },
                    ResolveOutcome::AlreadyMigrated => (
                        RepoMigration { job, phase: Phase::Finished { failure: Option::None } },
                        Action::Finish,
                    ),
                    ResolveOutcome::Reuse { metadata } => match metadata {
                        Option::Some(m) => {
                            let clone_url = job.clone_url.clone();
                            (
                                RepoMigration {
                                    job,
                                    phase: Phase::Mirroring { existing: Option::Some(m) },
                                },
                                Action::MirrorSource { clone_url },
                            )
                        },
                        Option::None => (
                            RepoMigration {
                                job,
                                phase: Phase::Finished {
                                    failure: Option::Some(
                                        RepoCopyError::Json(
                                            String::from_str(
                                                "existing repository answer had no descriptor",
                                            ),
                                        ),
                                    ),
                                },
                            },
                            Action::Finish,
                        ),
                    },
                }
            },
            Phase::Mirroring { existing } => {
                let ev_result = match ev {
                    Event::Mirrored { result } => result,
                    _ => unreached(),
                };
                match ev_result {
                    Result::Ok(branches) => {
                        let plan = plan_local_branches(&branches);
                        let refspecs = push_refspecs(&plan);
                        (
                            RepoMigration {
                                job,
                                phase: Phase::Materializing { existing, refspecs },
                            },
                            Action::MaterializeBranches { plan },
                        )
                    },
                    Result::Err(e) => (
                        RepoMigration { job, phase: Phase::Finished { failure: Option::Some(e) } },
                        Action::Finish,
                    ),
                }
            },
            Phase::Materializing { existing, refspecs } => {
                let ev_result = match ev {
                    Event::Materialized { result } => result,
                    _ => unreached(),
                };
                match ev_result {
                    Result::Ok(_) => match existing {
                        Option::Some(m) => {
                            let (phase, a) = enter_publish(&job, m.full_name, m.url, refspecs);
                            (RepoMigration { job, phase }, a)
                        },
                        Option::None => {
                            let name = job.name.clone();
                            let description = match &job.description {
                                Option::Some(d) => Option::Some(d.clone()),
                                Option::None => Option::None,
                            };
                            let private = job.private;
                            (
                                RepoMigration { job, phase: Phase::Creating { refspecs } },
                                Action::CreateRepository { name, description, private },
                            )
                        },
                    },
                    Result::Err(e) => (
                        RepoMigration { job, phase: Phase::Finished { failure: Option::Some(e) } },
                        Action::Finish,
                    ),
                }
            },
            Phase::Creating { refspecs } => {
                let ev_result = match ev {
                    Event::Created { result } => result,
                    _ => unreached(),
                };
                match ev_result {
                    Result::Ok(cr) => match create_repository_outcome(cr) {
                        Result::Ok(m) => {
                            let (phase, a) = enter_publish(&job, m.full_name, m.url, refspecs);
                            (RepoMigration { job, phase }, a)
                        },
                        Result::Err(e) => (
                            RepoMigration {
                                job,
                                phase: Phase::Finished { failure: Option::Some(e) },
                            },
                            Action::Finish,
                        ),
                    },
                    Result::Err(e) => (
                        RepoMigration { job, phase: Phase::Finished { failure: Option::Some(e) } },
                        Action::Finish,
                    ),
                }
            },
            Phase::SettingTopics { dest_full_name, refspecs } => {
                let ev_result = match ev {
                    Event::TopicsPut { result } => result,
                    _ => unreached(),
                };
                match ev_result {
                    Result::Ok(status) => match set_topics_outcome(status) {
                        Result::Ok(_) => {
                            let (phase, a) = enter_pushing(&job, dest_full_name, refspecs);
                            (RepoMigration { job, phase }, a)
                        },
                        Result::Err(e) => (
                            RepoMigration {
                                job,
                                phase: Phase::Finished { failure: Option::Some(e) },
                            },
                            Action::Finish,
                        ),
                    },
                    Result::Err(e) => (
                        RepoMigration { job, phase: Phase::Finished { failure: Option::Some(e) } },
                        Action::Finish,
                    ),
                }
            },
            Phase::Pushing { remote_url, batches, next } => {
                let ev_result = match ev {
                    Event::Pushed { result } => result,
                    _ => unreached(),
                };
                match ev_result {
                    Result::Ok(_) => {
                        if next < batches.len() {
                            let refspecs = duplicate_strings(&batches[next]);
                            let ru = remote_url.clone();
                            let n2 = next + 1;
                            (
                                RepoMigration {
                                    job,
                                    phase: Phase::Pushing { remote_url, batches, next: n2 },
                                },
                                Action::PushBatch { remote_url: ru, refspecs },
                            )
                        } else {
                            (
                                RepoMigration {
                                    job,
                                    phase: Phase::Finished { failure: Option::None },
                                },
                                Action::Finish,
                            )
                        }
                    },
                    Result::Err(e) => (
                        RepoMigration { job, phase: Phase::Finished { failure: Option::Some(e) } },
                        Action::Finish,
                    ),
                }
            },
            Phase::Finished { .. } => unreached(),
        }
    }
}

/// Enters the publication stage: apply a non-empty topic set first, or begin
/// pushing at once.
fn enter_publish(job: &RepoJob, dest_full_name: String, dest_url: String, refspecs: Vec<String>) -> (r:
    (Phase, Action))
    ensures
        publish_entry_rel(*job, dest_full_name@, dest_url@, string_views(refspecs@), r.0, r.1),
{
    if job.topics.len() > 0 {
        let names = duplicate_strings(&job.topics);
        let url = topics_url(dest_url.as_str());
        (Phase::SettingTopics { dest_full_name, refspecs }, Action::PutTopics { url, names })
    } else {
        enter_pushing(job, dest_full_name, refspecs)
    }
}

/// Enters the pushing stage: batch the refspecs and hand out the first batch,
/// or finish at once when there is nothing to push.
fn enter_pushing(job: &RepoJob, dest_full_name: String, refspecs: Vec<String>) -> (r: (Phase, Action))
    ensures
        pushing_entry_rel(*job, dest_full_name@, string_views(refspecs@), r.0, r.1),
{
    if refspecs.len() == 0 {
        (Phase::Finished { failure: Option::None }, Action::Finish)
    } else {
        let remote_url = authenticated_remote_url(job.token.as_str(), dest_full_name.as_str());
        let batches = batch_refspecs(&refspecs);
        proof {
            let n = string_views(refspecs@).len() as int;
            assert((n + 4) / 5 > 0) by (nonlinear_arith)
                requires
                    n > 0,
            ;
        }
        let first = duplicate_strings(&batches[0]);
        let ru = remote_url.clone();
        (
            Phase::Pushing { remote_url, batches, next: 1 },
            Action::PushBatch { remote_url: ru, refspecs: first },
        )
    }
}

/// The recorded end of one repository's migration: the name, and the failure
/// if it failed.
#[derive(Debug, PartialEq, Eq)]
pub struct MigrationOutcome {
    pub name: String,
    pub failure: Option<RepoCopyError>,
}

/// The names of the failed outcomes, in order.
pub open spec fn spec_report(outcomes: Seq<MigrationOutcome>) -> Seq<Seq<char>>
    decreases outcomes.len(),
{
    if outcomes.len() == 0 {
        Seq::empty()
    } else {
        let rest = spec_report(outcomes.drop_last());
        if outcomes.last().failure is Some {
            rest.push(outcomes.last().name@)
        } else {
            rest
        }
    }
}

/// Aggregates the per-repository outcomes into the failure report: the names
/// of the repositories that failed, in listing order. An empty report signals
/// full success; no failure aborts the run.
pub fn failure_report(outcomes: &Vec<MigrationOutcome>) -> (r: Vec<String>)
    ensures
        string_views(r@) == spec_report(outcomes@),
{
    let mut r: Vec<String> = Vec::new();
    let mut i: usize = 0;
    while i < outcomes.len()
        invariant
            0 <= i <= outcomes@.len(),
            string_views(r@) =~= spec_report(outcomes@.take(i as int)),
        decreases outcomes@.len() - i,
    {
        let ghost pre = outcomes@.take(i as int);
        let failed = match &outcomes[i].failure {
            Option::Some(_) => true,
            Option::None => false,
        };
        if failed {
            r.push(outcomes[i].name.clone());
        }
        i += 1;
        proof {
            let cur = outcomes@.take(i as int);
            assert(cur.drop_last() =~= pre);
            assert(cur.last() == outcomes@[i - 1]);
            assert(string_views(r@) =~= spec_report(cur));
        }
    }
    assert(outcomes@.take(outcomes@.len() as int) =~= outcomes@);
    r
}

/// Every name in the failure report belongs to an outcome that failed.
pub proof fn lemma_report_names(outcomes: Seq<MigrationOutcome>)
    ensures
        forall|x: Seq<char>|
            spec_report(outcomes).contains(x) ==> exists|i: int|
                0 <= i < outcomes.len() && #[trigger] outcomes[i].name@ == x && outcomes[i].failure
                    is Some,
    decreases outcomes.len(),
{
    if outcomes.len() > 0 {
        lemma_report_names(outcomes.drop_last());
        let rest = spec_report(outcomes.drop_last());
        assert forall|x: Seq<char>| spec_report(outcomes).contains(x) implies exists|i: int|
            0 <= i < outcomes.len() && #[trigger] outcomes[i].name@ == x && outcomes[i].failure
                is Some by {
            if rest.contains(x) {
                let i = choose|i: int|
                    0 <= i < outcomes.drop_last().len() && #[trigger] outcomes.drop_last()[i].name@
                        == x && outcomes.drop_last()[i].failure is Some;
                assert(outcomes[i].name@ == x && outcomes[i].failure is Some);
            } else {
                assert(outcomes.last().failure is Some && outcomes.last().name@ == x);
                assert(outcomes[outcomes.len() - 1].name@ == x);
            }
        }
    }
}

/// A run with no failed outcome has an empty failure report.
pub proof fn lemma_no_failure_empty_report(outcomes: Seq<MigrationOutcome>)
    requires
        forall|j: int| 0 <= j < outcomes.len() ==> #[trigger] outcomes[j].failure is None,
    ensures
        spec_report(outcomes) =~= Seq::<Seq<char>>::empty(),
    decreases outcomes.len(),
{
    if outcomes.len() > 0 {
        assert(forall|j: int|
            0 <= j < outcomes.len() - 1 ==> #[trigger] outcomes.drop_last()[j].failure is None);
        lemma_no_failure_empty_report(outcomes.drop_last());
    }
}

/// Partial failure is isolated: when exactly one outcome failed, the failure
/// report holds exactly that repository's name, and nothing else.
pub proof fn lemma_single_failure_isolated(outcomes: Seq<MigrationOutcome>, i: int)
    requires
        0 <= i < outcomes.len(),
        outcomes[i].failure is Some,
        forall|j: int| 0 <= j < outcomes.len() && j != i ==> #[trigger] outcomes[j].failure is None,
    ensures
        spec_report(outcomes) =~= seq![outcomes[i].name@],
    decreases outcomes.len(),
{
    if i == outcomes.len() - 1 {
        assert(forall|j: int|
            0 <= j < outcomes.drop_last().len() ==> #[trigger] outcomes.drop_last()[j].failure
                is None);
        lemma_no_failure_empty_report(outcomes.drop_last());
    } else {
        assert(forall|j: int|
            0 <= j < outcomes.drop_last().len() && j != i
                ==> #[trigger] outcomes.drop_last()[j].failure is None);
        lemma_single_failure_isolated(outcomes.drop_last(), i);
        assert(outcomes.last().failure is None);
    }
}

/// The outcome names a listed repository that was not skipped.
pub open spec fn from_unskipped(repos: Seq<Repo>, skip_forks: bool, o: MigrationOutcome) -> bool {
    exists|i: int|
        #![auto]
        0 <= i < repos.len() && !(skip_forks && repos[i].fork) && o.name@ == repos[i].name@
}

/// When every recorded outcome names a listed repository that was not
/// skipped, every name in the failure report belongs to such a repository:
/// skipped repositories contribute nothing to the report.
pub proof fn lemma_report_only_unskipped(
    repos: Seq<Repo>,
    outcomes: Seq<MigrationOutcome>,
    skip_forks: bool,
)
    requires
        forall|j: int|
            0 <= j < outcomes.len() ==> from_unskipped(repos, skip_forks, #[trigger] outcomes[j]),
    ensures
        forall|x: Seq<char>|
            spec_report(outcomes).contains(x) ==> exists|i: int|
                #![auto]
                0 <= i < repos.len() && !(skip_forks && repos[i].fork) && repos[i].name@ == x,
{
    lemma_report_names(outcomes);
    assert forall|x: Seq<char>| spec_report(outcomes).contains(x) implies exists|i: int|
        #![auto]
        0 <= i < repos.len() && !(skip_forks && repos[i].fork) && repos[i].name@ == x by {
        let j = choose|j: int|
            0 <= j < outcomes.len() && #[trigger] outcomes[j].name@ == x && outcomes[j].failure
                is Some;
        assert(from_unskipped(repos, skip_forks, outcomes[j]));
        let i = choose|i: int|
            #![auto]
            0 <= i < repos.len() && !(skip_forks && repos[i].fork) && outcomes[j].name@
                == repos[i].name@;
        assert(repos[i].name@ == x);
    }
}

/// Fork-skip: when fork skipping is on and every recorded outcome names a
/// repository that was not skipped, a fork's name is absent from the failure
/// report, provided no other listed repository carries the same name. The
/// proviso is inherent to a report keyed by name: a same-named repository
/// that was processed and failed would put the shared name there.
pub proof fn lemma_fork_skip(
    repos: Seq<Repo>,
    outcomes: Seq<MigrationOutcome>,
    skip_forks: bool,
    k: int,
)
    requires
        skip_forks,
        0 <= k < repos.len(),
        repos[k].fork,
        forall|j: int|
            0 <= j < outcomes.len() ==> from_unskipped(repos, skip_forks, #[trigger] outcomes[j]),
        forall|i: int|
            0 <= i < repos.len() && i != k ==> #[trigger] repos[i].name@ != repos[k].name@,
    ensures
        !spec_report(outcomes).contains(repos[k].name@),
{
    lemma_report_names(outcomes);
    if spec_report(outcomes).contains(repos[k].name@) {
        let j = choose|j: int|
            0 <= j < outcomes.len() && #[trigger] outcomes[j].name@ == repos[k].name@
                && outcomes[j].failure is Some;
        assert(from_unskipped(repos, skip_forks, outcomes[j]));
        let i = choose|i: int|
            #![auto]
            0 <= i < repos.len() && !(skip_forks && repos[i].fork) && outcomes[j].name@
                == repos[i].name@;
        assert(repos[i].name@ == repos[k].name@);
        assert(i == k);
        assert(false);
    }
}

} // verus!
