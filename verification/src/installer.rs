//! The install of a release and of what it requires, cut into steps. Each
//! step names one piece of outside work (a prompt, a read, a download, a
//! write, a fetch); the caller does the work and reports what came of it, and
//! the report decides the next step.

use vstd::prelude::*;
use crate::data_structs::{
    entry_of,
    records,
    stored,
    LockfileMod,
    LockfileModView,
    LockfileRead,
    ModpmLockfile,
};
use crate::error::ModpmError;
use crate::modrinth::{
    ModVersion,
    ModVersionDependencies,
    ModVersionDependenciesView,
    ModVersionFile,
    ModVersionFileView,
    ModVersionView,
    MpmMod,
};
use crate::polymc::{PolyInstance, PolyInstanceView};
use crate::latest::{latest_index, latest_of, published_times};
use crate::prompt::{selected, selection};
use crate::resolver::{compatible_versions, first_compatible, resolve, selected_file, Resolution};
use crate::text::{lemma_views_push, option_text, position, same_text, views};

verus! {

/// A prompt is open: the user has to pick one of `candidates`.
#[derive(Debug, PartialEq)]
pub struct Asking {
    pub profile: PolyInstance,
    pub candidates: Vec<ModVersion>,
    /// Where the latest of the candidates stands.
    pub latest: Option<usize>,
}

/// The lockfile has to be read, to see whether the project of `version` is
/// installed already.
#[derive(Debug, PartialEq)]
pub struct Guarding {
    pub profile: PolyInstance,
    pub version: ModVersion,
}

/// `file` has to be downloaded into the mods directory of the instance.
#[derive(Debug, PartialEq)]
pub struct Downloading {
    pub profile: PolyInstance,
    pub version: ModVersion,
    pub file: ModVersionFile,
    /// The dependencies that are still to be installed, next one first.
    pub pending: Vec<ModVersionDependencies>,
}

/// The lockfile has to be read, to add `file` of `version` to it.
#[derive(Debug, PartialEq)]
pub struct Recording {
    pub profile: PolyInstance,
    pub version: ModVersion,
    pub file: ModVersionFile,
    pub pending: Vec<ModVersionDependencies>,
}

/// `entries` have to be written as the whole lockfile.
#[derive(Debug, PartialEq)]
pub struct Writing {
    pub profile: PolyInstance,
    pub entries: Vec<LockfileMod>,
    pub pending: Vec<ModVersionDependencies>,
    /// Whether this is the second attempt, after the file was created.
    pub retried: bool,
}

/// The lockfile has to be created, because the write found no such path.
#[derive(Debug, PartialEq)]
pub struct Creating {
    pub profile: PolyInstance,
    pub entries: Vec<LockfileMod>,
    pub pending: Vec<ModVersionDependencies>,
}

/// The release `id` has to be fetched from the registry.
#[derive(Debug, PartialEq)]
pub struct FetchingVersion {
    pub profile: PolyInstance,
    pub id: String,
    pub pending: Vec<ModVersionDependencies>,
}

/// The releases of the project `id` have to be fetched from the registry.
#[derive(Debug, PartialEq)]
pub struct FetchingProject {
    pub profile: PolyInstance,
    pub id: String,
    pub pending: Vec<ModVersionDependencies>,
}

/// How a write of the lockfile ended.
#[derive(Debug, Clone, Copy, PartialEq, Eq, Structural)]
pub enum WriteOutcome {
    Written,
    /// The path of the lockfile does not exist.
    MissingPath,
    /// Any other failure.
    Failed,
}

/// What the caller has to do next, or how the install ended.
#[derive(Debug, PartialEq)]
pub enum Step {
    Ask(Asking),
    CheckLockfile(Guarding),
    Download(Downloading),
    ReadLockfile(Recording),
    WriteLockfile(Writing),
    CreateLockfile(Creating),
    FetchVersion(FetchingVersion),
    FetchProject(FetchingProject),
    Done,
    Fail(Failure),
}

/// Why an install stopped, and at which release or project: `at` holds the
/// id of the release whose install failed, or of the dependency that could
/// not be resolved. It is empty where the install failed before a release
/// was settled on.
#[derive(Debug, Clone, PartialEq)]
pub struct Failure {
    pub error: ModpmError,
    pub at: Option<String>,
}

/// What a `Step` holds.
pub enum StepView {
    Ask { profile: PolyInstanceView, candidates: Seq<ModVersionView>, latest: Option<int> },
    CheckLockfile { profile: PolyInstanceView, version: ModVersionView },
    Download {
        profile: PolyInstanceView,
        version: ModVersionView,
        file: ModVersionFileView,
        pending: Seq<ModVersionDependenciesView>,
    },
    ReadLockfile {
        profile: PolyInstanceView,
        version: ModVersionView,
        file: ModVersionFileView,
        pending: Seq<ModVersionDependenciesView>,
    },
    WriteLockfile {
        profile: PolyInstanceView,
        entries: Seq<LockfileModView>,
        pending: Seq<ModVersionDependenciesView>,
        retried: bool,
    },
    CreateLockfile {
        profile: PolyInstanceView,
        entries: Seq<LockfileModView>,
        pending: Seq<ModVersionDependenciesView>,
    },
    FetchVersion {
        profile: PolyInstanceView,
        id: Seq<char>,
        pending: Seq<ModVersionDependenciesView>,
    },
    FetchProject {
        profile: PolyInstanceView,
        id: Seq<char>,
        pending: Seq<ModVersionDependenciesView>,
    },
    Done,
    Fail { error: ModpmError, at: Option<Seq<char>> },
}

impl View for Step {
    type V = StepView;

    open spec fn view(&self) -> StepView {
        match *self {
            Step::Ask(s) => StepView::Ask {
                profile: s.profile@,
                candidates: views(s.candidates@),
                latest: position(s.latest),
            },
            Step::CheckLockfile(s) => StepView::CheckLockfile {
                profile: s.profile@,
                version: s.version@,
            },
            Step::Download(s) => StepView::Download {
                profile: s.profile@,
                version: s.version@,
                file: s.file@,
                pending: views(s.pending@),
            },
            Step::ReadLockfile(s) => StepView::ReadLockfile {
                profile: s.profile@,
                version: s.version@,
                file: s.file@,
                pending: views(s.pending@),
            },
            Step::WriteLockfile(s) => StepView::WriteLockfile {
                profile: s.profile@,
                entries: views(s.entries@),
                pending: views(s.pending@),
                retried: s.retried,
            },
            Step::CreateLockfile(s) => StepView::CreateLockfile {
                profile: s.profile@,
                entries: views(s.entries@),
                pending: views(s.pending@),
            },
            Step::FetchVersion(s) => StepView::FetchVersion {
                profile: s.profile@,
                id: s.id@,
                pending: views(s.pending@),
            },
            Step::FetchProject(s) => StepView::FetchProject {
                profile: s.profile@,
                id: s.id@,
                pending: views(s.pending@),
            },
            Step::Done => StepView::Done,
            Step::Fail(f) => StepView::Fail { error: f.error, at: option_text(f.at) },
        }
    }
}

/// The required ones among `dependencies`, in their order.
pub open spec fn required_of(dependencies: Seq<ModVersionDependenciesView>) -> Seq<
    ModVersionDependenciesView,
> {
    dependencies.filter(|d: ModVersionDependenciesView| d.required())
}

/// The end of an install that failed with `error` at `at`.
pub open spec fn failed(error: ModpmError, at: Option<Seq<char>>) -> StepView {
    StepView::Fail { error, at }
}

/// The id of the release that was added last to `entries`.
pub open spec fn last_id(entries: Seq<LockfileModView>) -> Option<Seq<char>> {
    if entries.len() > 0 {
        Some(entries.last().version.id)
    } else {
        None
    }
}

/// The start of the install of one release: its file is chosen and has to be
/// downloaded, and what the release requires goes in front of `pending`, so
/// that it is installed before anything that was waiting.
pub open spec fn install(
    profile: PolyInstanceView,
    version: ModVersionView,
    pending: Seq<ModVersionDependenciesView>,
) -> StepView {
    match selected_file(version.files) {
        Some(file) => StepView::Download {
            profile,
            version,
            file,
            pending: required_of(version.dependencies) + pending,
        },
        None => failed(ModpmError::NoPrimaryFile, Some(version.id)),
    }
}

/// What follows once a release is recorded: the next pending dependency is
/// fetched, by its release where it names one and else by its project; with
/// nothing pending the install is done.
pub open spec fn proceed(profile: PolyInstanceView, pending: Seq<ModVersionDependenciesView>) -> StepView {
    if pending.len() == 0 {
        StepView::Done
    } else {
        match pending.first().version_id {
            Some(id) => StepView::FetchVersion { profile, id, pending: pending.drop_first() },
            None => match pending.first().project_id {
                Some(id) => StepView::FetchProject { profile, id, pending: pending.drop_first() },
                None => failed(ModpmError::NoDependencyVersion, None),
            },
        }
    }
}

/// The first step of the install of a mod into an instance. An instance
/// without a modloader takes nothing. Otherwise the releases are filtered: if
/// none fits, the install fails; if one fits and no prompt is asked for, that
/// one is taken; else the user is asked.
pub open spec fn start_download(
    versions: Seq<ModVersionView>,
    profile: PolyInstanceView,
    choose_version: bool,
) -> StepView {
    let fitting = compatible_versions(versions, profile);
    if profile.vanilla() {
        failed(ModpmError::UnsupportedModloader, None)
    } else if fitting.len() == 0 {
        failed(ModpmError::NoCompatibleVersion, None)
    } else if fitting.len() == 1 && !choose_version {
        StepView::CheckLockfile { profile, version: fitting[0] }
    } else {
        StepView::Ask { profile, candidates: fitting, latest: latest_of(fitting) }
    }
}

/// The first step of the install of one given release.
pub open spec fn start_install(profile: PolyInstanceView, version: ModVersionView) -> StepView {
    if profile.vanilla() {
        failed(ModpmError::UnsupportedModloader, None)
    } else {
        install(profile, version, Seq::empty())
    }
}

/// The step after the candidate at position `i` was picked: a position
/// outside the list picks nothing.
pub open spec fn chosen(profile: PolyInstanceView, candidates: Seq<ModVersionView>, i: int) -> StepView {
    if 0 <= i < candidates.len() {
        StepView::CheckLockfile { profile, version: candidates[i] }
    } else {
        failed(ModpmError::InvalidSelection, None)
    }
}

/// The step after the user answered a prompt: the candidate whose number the
/// answer is has been picked.
pub open spec fn answered(
    profile: PolyInstanceView,
    candidates: Seq<ModVersionView>,
    answer: Seq<char>,
) -> StepView {
    match selection(answer, candidates.len()) {
        Some(i) => chosen(profile, candidates, i),
        None => failed(ModpmError::InvalidSelection, None),
    }
}

/// The step after the latest candidate was picked without a prompt.
pub open spec fn latest_taken(
    profile: PolyInstanceView,
    candidates: Seq<ModVersionView>,
    latest: Option<int>,
) -> StepView {
    match latest {
        Some(i) => chosen(profile, candidates, i),
        None => failed(ModpmError::InvalidSelection, None),
    }
}

/// The step after the lockfile was read for the check: a project that the
/// lockfile records is not installed again.
pub open spec fn checked(
    profile: PolyInstanceView,
    version: ModVersionView,
    lockfile: Option<Seq<LockfileModView>>,
) -> StepView {
    match lockfile {
        None => failed(ModpmError::CorruptLockfile, Some(version.id)),
        Some(entries) => if records(entries, version.project_id) {
            failed(ModpmError::AlreadyInstalled, Some(version.id))
        } else {
            install(profile, version, Seq::empty())
        },
    }
}

/// The step after a download ended.
pub open spec fn downloaded(
    profile: PolyInstanceView,
    version: ModVersionView,
    file: ModVersionFileView,
    pending: Seq<ModVersionDependenciesView>,
    ok: bool,
) -> StepView {
    if ok {
        StepView::ReadLockfile { profile, version, file, pending }
    } else {
        failed(ModpmError::DownloadFailed, Some(version.id))
    }
}

/// The step after the lockfile was read for an append.
pub open spec fn appended(
    profile: PolyInstanceView,
    version: ModVersionView,
    file: ModVersionFileView,
    pending: Seq<ModVersionDependenciesView>,
    lockfile: Option<Seq<LockfileModView>>,
) -> StepView {
    match lockfile {
        None => failed(ModpmError::CorruptLockfile, Some(version.id)),
        Some(entries) => StepView::WriteLockfile {
            profile,
            entries: entries.push(entry_of(version, file)),
            pending,
            retried: false,
        },
    }
}

/// The step after a write of the lockfile ended. A missing path is mended
/// once, by creating the file; anything else that goes wrong is final.
pub open spec fn written(
    profile: PolyInstanceView,
    entries: Seq<LockfileModView>,
    pending: Seq<ModVersionDependenciesView>,
    retried: bool,
    outcome: WriteOutcome,
) -> StepView {
    match outcome {
        WriteOutcome::Written => proceed(profile, pending),
        WriteOutcome::MissingPath => if retried {
            failed(ModpmError::LockfileWriteFailed, last_id(entries))
        } else {
            StepView::CreateLockfile { profile, entries, pending }
        },
        WriteOutcome::Failed => failed(ModpmError::LockfileWriteFailed, last_id(entries)),
    }
}

/// The step after the lockfile was created.
pub open spec fn created(
    profile: PolyInstanceView,
    entries: Seq<LockfileModView>,
    pending: Seq<ModVersionDependenciesView>,
    ok: bool,
) -> StepView {
    if ok {
        StepView::WriteLockfile { profile, entries, pending, retried: true }
    } else {
        failed(ModpmError::LockfileWriteFailed, last_id(entries))
    }
}

/// The step after the registry answered for a release.
pub open spec fn version_fetched(
    profile: PolyInstanceView,
    id: Seq<char>,
    pending: Seq<ModVersionDependenciesView>,
    version: Option<ModVersionView>,
) -> StepView {
    match version {
        Some(v) => install(profile, v, pending),
        None => failed(ModpmError::NotFound, Some(id)),
    }
}

/// The step after the registry answered for the releases of a project: the
/// first release that fits the instance is installed, without a prompt.
pub open spec fn project_fetched(
    profile: PolyInstanceView,
    id: Seq<char>,
    pending: Seq<ModVersionDependenciesView>,
    releases: Option<Seq<ModVersionView>>,
) -> StepView {
    match releases {
        None => failed(ModpmError::NotFound, Some(id)),
        Some(list) => if compatible_versions(list, profile).len() == 0 {
            failed(ModpmError::NoDependencyVersion, Some(id))
        } else {
            install(profile, compatible_versions(list, profile).first(), pending)
        },
    }
}

/// What an optional release holds.
pub open spec fn option_view(version: Option<ModVersion>) -> Option<ModVersionView> {
    match version {
        Some(v) => Some(v@),
        None => None,
    }
}

/// What an optional list of releases holds.
pub open spec fn option_views(releases: Option<Vec<ModVersion>>) -> Option<Seq<ModVersionView>> {
    match releases {
        Some(list) => Some(views(list@)),
        None => None,
    }
}

/// The required ones among `dependencies`, in their order.
pub fn required_dependencies(dependencies: &Vec<ModVersionDependencies>) -> (r: Vec<
    ModVersionDependencies,
>)
    ensures
        views(r@) == required_of(views(dependencies@)),
{
    let ghost pred = |d: ModVersionDependenciesView| d.required();
    let mut out: Vec<ModVersionDependencies> = Vec::new();
    let mut i: usize = 0;
    proof {
        assert(views(dependencies@).take(0) =~= Seq::<ModVersionDependenciesView>::empty());
        assert(views(out@) =~= Seq::<ModVersionDependenciesView>::empty());
        reveal(Seq::filter);
    }
    while i < dependencies.len()
        invariant
            i <= dependencies.len(),
            pred == (|d: ModVersionDependenciesView| d.required()),
            views(out@) == views(dependencies@).take(i as int).filter(pred),
        decreases dependencies.len() - i,
    {
        let ghost before = views(dependencies@).take(i as int);
        proof {
            assert(views(dependencies@).take(i + 1) =~= before.push(dependencies[i as int]@));
            before.lemma_filter_push(dependencies[i as int]@, pred);
        }
        if same_text(dependencies[i].dependency_type.as_str(), "required") {
            let copy = dependencies[i].clone();
            proof {
                lemma_views_push(out@, copy);
            }
            out.push(copy);
        }
        i = i + 1;
    }
    proof {
        assert(views(dependencies@).take(dependencies.len() as int) =~= views(dependencies@));
    }
    out
}

fn fail(error: ModpmError) -> (r: Step)
    ensures
        r@ == failed(error, None),
{
    Step::Fail(Failure { error, at: None })
}

fn fail_at(error: ModpmError, id: String) -> (r: Step)
    ensures
        r@ == failed(error, Some(id@)),
{
    Step::Fail(Failure { error, at: Some(id) })
}

fn fail_after(error: ModpmError, entries: &Vec<LockfileMod>) -> (r: Step)
    ensures
        r@ == failed(error, last_id(views(entries@))),
{
    if entries.len() > 0 {
        fail_at(error, entries[entries.len() - 1].version.id.clone())
    } else {
        fail(error)
    }
}

fn begin(profile: PolyInstance, version: ModVersion, pending: Vec<ModVersionDependencies>) -> (r:
    Step)
    ensures
        r@ == install(profile@, version@, views(pending@)),
{
    let file = match version.select_file() {
        Ok(file) => file.clone(),
        Err(e) => {
            return fail_at(e, version.id);
        },
    };
    let mut next = required_dependencies(&version.dependencies);
    let mut pending = pending;
    let ghost front = views(next@);
    let ghost back = views(pending@);
    next.append(&mut pending);
    proof {
        assert(views(next@) =~= front + back);
    }
    Step::Download(Downloading { profile, version, file, pending: next })
}

fn go_on(profile: PolyInstance, pending: Vec<ModVersionDependencies>) -> (r: Step)
    ensures
        r@ == proceed(profile@, views(pending@)),
{
    let mut pending = pending;
    if pending.len() == 0 {
        return Step::Done;
    }
    let ghost all = views(pending@);
    let ModVersionDependencies { version_id, project_id, dependency_type: _ } = pending.remove(0);
    proof {
        assert(views(pending@) =~= all.drop_first());
    }
    match version_id {
        Some(id) => Step::FetchVersion(FetchingVersion { profile, id, pending }),
        None => match project_id {
            Some(id) => Step::FetchProject(FetchingProject { profile, id, pending }),
            None => fail(ModpmError::NoDependencyVersion),
        },
    }
}

impl MpmMod {
    /// Starts the install of the mod into `instance`. With `choose_version`
    /// the user is asked even where only one release fits.
    pub fn download(&self, instance: &PolyInstance, choose_version: bool) -> (r: Step)
        ensures
            r@ == start_download(views(self.versions@), instance@, choose_version),
    {
        if instance.is_vanilla() {
            return fail(ModpmError::UnsupportedModloader);
        }
        let candidates = match resolve(&self.versions, instance) {
            Err(e) => {
                return fail(e);
            },
            Ok(Resolution::Unique(version)) => {
                if !choose_version {
                    return Step::CheckLockfile(Guarding { profile: instance.clone(), version });
                }
                let mut one: Vec<ModVersion> = Vec::new();
                one.push(version);
                assert(views(one@) =~= seq![version@]);
                one
            },
            Ok(Resolution::Ambiguous(list)) => list,
        };
        let times = published_times(&candidates);
        let latest = latest_index(&candidates, &times);
        Step::Ask(Asking { profile: instance.clone(), candidates, latest })
    }

    /// Starts the install of `version`, and of what it requires, into
    /// `instance`.
    pub fn download_specific_version(version: ModVersion, instance: &PolyInstance) -> (r: Step)
        ensures
            r@ == start_install(instance@, version@),
    {
        if instance.is_vanilla() {
            return fail(ModpmError::UnsupportedModloader);
        }
        let pending: Vec<ModVersionDependencies> = Vec::new();
        assert(views(pending@) =~= Seq::<ModVersionDependenciesView>::empty());
        begin(instance.clone(), version, pending)
    }
}

impl Asking {
    /// The candidate at `position` was picked, by whatever means.
    pub fn pick(self, position: usize) -> (r: Step)
        ensures
            r@ == chosen(self.profile@, views(self.candidates@), position as int),
    {
        let Asking { profile, candidates, latest: _ } = self;
        let mut candidates = candidates;
        if position < candidates.len() {
            let version = candidates.swap_remove(position);
            Step::CheckLockfile(Guarding { profile, version })
        } else {
            fail(ModpmError::InvalidSelection)
        }
    }

    /// The user answered the prompt with `answer`.
    pub fn answer(self, answer: &str) -> (r: Step)
        ensures
            r@ == answered(self.profile@, views(self.candidates@), answer@),
    {
        match selected(answer, self.candidates.len()) {
            Some(i) => self.pick(i),
            None => fail(ModpmError::InvalidSelection),
        }
    }

    /// Nobody is there to ask: the latest candidate is picked. Where no
    /// candidate has a date, nothing is picked.
    pub fn take_latest(self) -> (r: Step)
        ensures
            r@ == latest_taken(self.profile@, views(self.candidates@), position(self.latest)),
    {
        match self.latest {
            Some(i) => self.pick(i),
            None => fail(ModpmError::InvalidSelection),
        }
    }
}

impl Guarding {
    /// The lockfile was read.
    pub fn checked(self, read: LockfileRead) -> (r: Step)
        ensures
            r@ == checked(self.profile@, self.version@, stored(read)),
    {
        let Guarding { profile, version } = self;
        match ModpmLockfile::get_lockfile(read) {
            Err(e) => fail_at(e, version.id),
            Ok(entries) => {
                if ModpmLockfile::has_project(&entries, &version.project_id) {
                    fail_at(ModpmError::AlreadyInstalled, version.id)
                } else {
                    let pending: Vec<ModVersionDependencies> = Vec::new();
                    assert(views(pending@) =~= Seq::<ModVersionDependenciesView>::empty());
                    begin(profile, version, pending)
                }
            },
        }
    }
}

impl Downloading {
    /// The download ended; `ok` says whether the file is there.
    pub fn finished(self, ok: bool) -> (r: Step)
        ensures
            r@ == downloaded(self.profile@, self.version@, self.file@, views(self.pending@), ok),
    {
        let Downloading { profile, version, file, pending } = self;
        if ok {
            Step::ReadLockfile(Recording { profile, version, file, pending })
        } else {
            fail_at(ModpmError::DownloadFailed, version.id)
        }
    }
}

impl Recording {
    /// The lockfile was read.
    pub fn read(self, read: LockfileRead) -> (r: Step)
        ensures
            r@ == appended(
                self.profile@,
                self.version@,
                self.file@,
                views(self.pending@),
                stored(read),
            ),
    {
        let Recording { profile, version, file, pending } = self;
        match ModpmLockfile::add_to_lockfile(read, &version, &file) {
            Ok(entries) => Step::WriteLockfile(
                Writing { profile, entries, pending, retried: false },
            ),
            Err(e) => fail_at(e, version.id),
        }
    }
}

impl Writing {
    /// The write ended.
    pub fn written(self, outcome: WriteOutcome) -> (r: Step)
        ensures
            r@ == written(
                self.profile@,
                views(self.entries@),
                views(self.pending@),
                self.retried,
                outcome,
            ),
    {
        let Writing { profile, entries, pending, retried } = self;
        match outcome {
            WriteOutcome::Written => go_on(profile, pending),
            WriteOutcome::MissingPath => {
                if retried {
                    fail_after(ModpmError::LockfileWriteFailed, &entries)
                } else {
                    Step::CreateLockfile(Creating { profile, entries, pending })
                }
            },
            WriteOutcome::Failed => fail_after(ModpmError::LockfileWriteFailed, &entries),
        }
    }
}

impl Creating {
    /// The attempt to create the lockfile ended.
    pub fn created(self, ok: bool) -> (r: Step)
        ensures
            r@ == created(self.profile@, views(self.entries@), views(self.pending@), ok),
    {
        let Creating { profile, entries, pending } = self;
        if ok {
            Step::WriteLockfile(Writing { profile, entries, pending, retried: true })
        } else {
            fail_after(ModpmError::LockfileWriteFailed, &entries)
        }
    }
}

impl FetchingVersion {
    /// The registry answered: `None` where it knows no such release.
    pub fn fetched(self, version: Option<ModVersion>) -> (r: Step)
        ensures
            r@ == version_fetched(
                self.profile@,
                self.id@,
                views(self.pending@),
                option_view(version),
            ),
    {
        let FetchingVersion { profile, id, pending } = self;
        match version {
            Some(v) => begin(profile, v, pending),
            None => fail_at(ModpmError::NotFound, id),
        }
    }
}

impl FetchingProject {
    /// The registry answered: `None` where it knows no such project.
    pub fn fetched(self, releases: Option<Vec<ModVersion>>) -> (r: Step)
        ensures
            r@ == project_fetched(
                self.profile@,
                self.id@,
                views(self.pending@),
                option_views(releases),
            ),
    {
        let FetchingProject { profile, id, pending } = self;
        match releases {
            None => fail_at(ModpmError::NotFound, id),
            Some(list) => match first_compatible(&list, &profile) {
                Some(v) => begin(profile, v, pending),
                None => fail_at(ModpmError::NoDependencyVersion, id),
            },
        }
    }
}

/// An instance without a modloader takes nothing. On any other instance, a
/// mod of which no release fits fails at once, and a mod of which exactly one
/// release fits goes on with that release and asks nothing, unless a prompt
/// was asked for. Otherwise the prompt offers exactly the releases that fit.
pub proof fn lemma_first_step(
    versions: Seq<ModVersionView>,
    profile: PolyInstanceView,
    choose_version: bool,
)
    ensures
        profile.vanilla() ==> start_download(versions, profile, choose_version) == failed(
            ModpmError::UnsupportedModloader,
            None,
        ),
        !profile.vanilla() && compatible_versions(versions, profile).len() == 0 ==> start_download(
            versions,
            profile,
            choose_version,
        ) == failed(ModpmError::NoCompatibleVersion, None),
        !profile.vanilla() && compatible_versions(versions, profile).len() == 1 ==> start_download(
            versions,
            profile,
            false,
        ) == (StepView::CheckLockfile {
            profile,
            version: compatible_versions(versions, profile)[0],
        }),
        start_download(versions, profile, choose_version) matches StepView::Ask {
            candidates,
            latest,
            ..
        } ==> candidates == compatible_versions(versions, profile) && latest == latest_of(
            candidates,
        ) && (candidates.len() > 1 || choose_version),
{
}

/// A project that the lockfile records is not installed again: the check
/// fails, whichever release of it was chosen and however it was chosen. Up
/// to the check nothing is downloaded: the first step of an install and the
/// step after an answer are never a download.
pub proof fn lemma_installed_project_is_refused(
    versions: Seq<ModVersionView>,
    profile: PolyInstanceView,
    choose_version: bool,
    answer: Seq<char>,
    version: ModVersionView,
    entries: Seq<LockfileModView>,
)
    requires
        records(entries, version.project_id),
    ensures
        checked(profile, version, Some(entries)) == failed(
            ModpmError::AlreadyInstalled,
            Some(version.id),
        ),
        !(start_download(versions, profile, choose_version) is Download),
        start_download(versions, profile, choose_version) matches StepView::Ask {
            profile: p,
            candidates,
            ..
        } ==> !(answered(p, candidates, answer) is Download),
{
}

} // verus!
