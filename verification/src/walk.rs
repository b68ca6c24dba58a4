//! The order in which an install goes through a tree of dependencies.
//!
//! The steps of `installer` are played against a model of the world: a
//! registry that answers from fixed tables, downloads and writes that
//! succeed, and a lockfile that reads as it was last written. Played so, an
//! install records the release first, then all that its first required
//! dependency brings, then all that the second brings, and so on.

use vstd::prelude::*;
use crate::data_structs::{entry_of, records, LockfileModView};
use crate::error::ModpmError;
use crate::installer::{
    appended,
    checked,
    downloaded,
    failed,
    install,
    proceed,
    project_fetched,
    required_of,
    start_install,
    version_fetched,
    written,
    StepView,
    WriteOutcome,
};
use crate::modrinth::{ModVersionDependenciesView, ModVersionView};
use crate::polymc::PolyInstanceView;
use crate::resolver::{compatible_versions, selected_file};

verus! {

/// What a registry knows: releases by their id, and the releases of each
/// project by the id of the project.
pub struct RegistryView {
    pub versions: Map<Seq<char>, ModVersionView>,
    pub projects: Map<Seq<char>, Seq<ModVersionView>>,
}

impl RegistryView {
    /// The answer to a request for the release `id`.
    pub open spec fn release(self, id: Seq<char>) -> Option<ModVersionView> {
        if self.versions.dom().contains(id) {
            Some(self.versions[id])
        } else {
            None
        }
    }

    /// The answer to a request for the releases of the project `id`.
    pub open spec fn releases(self, id: Seq<char>) -> Option<Seq<ModVersionView>> {
        if self.projects.dom().contains(id) {
            Some(self.projects[id])
        } else {
            None
        }
    }

    /// The release that stands for a dependency on `profile`: the release
    /// that it names, or else the first release of the project that it names
    /// which fits. There is none where the registry does not know what is
    /// named, where no release of the project fits, or where nothing is named.
    pub open spec fn resolved(
        self,
        profile: PolyInstanceView,
        dependency: ModVersionDependenciesView,
    ) -> Option<ModVersionView> {
        match dependency.version_id {
            Some(id) => self.release(id),
            None => match dependency.project_id {
                Some(id) => match self.releases(id) {
                    Some(list) => if compatible_versions(list, profile).len() > 0 {
                        Some(compatible_versions(list, profile).first())
                    } else {
                        None
                    },
                    None => None,
                },
                None => None,
            },
        }
    }
}

/// One step of an install and what it leaves in the lockfile, where the
/// world does its part: the lockfile reads as `lockfile`, a write puts its
/// entries there, downloads succeed and the registry answers from its
/// tables. A prompt, the creation of a file and the two ends of an install
/// take no step here.
pub open spec fn tick(step: StepView, registry: RegistryView, lockfile: Seq<LockfileModView>) -> (
    StepView,
    Seq<LockfileModView>,
) {
    match step {
        StepView::CheckLockfile { profile, version } => (
            checked(profile, version, Some(lockfile)),
            lockfile,
        ),
        StepView::Download { profile, version, file, pending } => (
            downloaded(profile, version, file, pending, true),
            lockfile,
        ),
        StepView::ReadLockfile { profile, version, file, pending } => (
            appended(profile, version, file, pending, Some(lockfile)),
            lockfile,
        ),
        StepView::WriteLockfile { profile, entries, pending, retried } => (
            written(profile, entries, pending, retried, WriteOutcome::Written),
            entries,
        ),
        StepView::FetchVersion { profile, id, pending } => (
            version_fetched(profile, id, pending, registry.release(id)),
            lockfile,
        ),
        StepView::FetchProject { profile, id, pending } => (
            project_fetched(profile, id, pending, registry.releases(id)),
            lockfile,
        ),
        _ => (step, lockfile),
    }
}

/// `n` steps in a row.
pub open spec fn run(
    step: StepView,
    registry: RegistryView,
    lockfile: Seq<LockfileModView>,
    n: nat,
) -> (StepView, Seq<LockfileModView>)
    decreases n,
{
    if n == 0 {
        (step, lockfile)
    } else {
        let next = tick(step, registry, lockfile);
        run(next.0, registry, next.1, (n - 1) as nat)
    }
}

/// The entries that the install of `dependencies` adds to the lockfile, in
/// their order: for each dependency in turn the entry of its release, then
/// all that this release requires in turn, and only then what the next
/// dependency brings. `depth` bounds how deep the requirements may nest;
/// there is no list where they nest deeper, where a dependency has no
/// release, or where a release has no file to download.
pub open spec fn installed_by_all(
    registry: RegistryView,
    profile: PolyInstanceView,
    dependencies: Seq<ModVersionDependenciesView>,
    depth: nat,
) -> Option<Seq<LockfileModView>>
    decreases depth, dependencies.len(),
{
    if dependencies.len() == 0 {
        Some(Seq::empty())
    } else if depth == 0 {
        None
    } else {
        match registry.resolved(profile, dependencies.first()) {
            None => None,
            Some(version) => match selected_file(version.files) {
                None => None,
                Some(file) => match installed_by_all(
                    registry,
                    profile,
                    required_of(version.dependencies),
                    (depth - 1) as nat,
                ) {
                    None => None,
                    Some(below) => match installed_by_all(
                        registry,
                        profile,
                        dependencies.drop_first(),
                        depth,
                    ) {
                        None => None,
                        Some(after) => Some(seq![entry_of(version, file)] + below + after),
                    },
                },
            },
        }
    }
}

/// The entries that the install of `version` adds to the lockfile: its own,
/// then those of what it requires.
pub open spec fn installed_by(
    registry: RegistryView,
    profile: PolyInstanceView,
    version: ModVersionView,
    depth: nat,
) -> Option<Seq<LockfileModView>> {
    match selected_file(version.files) {
        None => None,
        Some(file) => match installed_by_all(
            registry,
            profile,
            required_of(version.dependencies),
            depth,
        ) {
            None => None,
            Some(below) => Some(seq![entry_of(version, file)] + below),
        },
    }
}

/// Steps add up.
pub proof fn lemma_run_add(
    step: StepView,
    registry: RegistryView,
    lockfile: Seq<LockfileModView>,
    a: nat,
    b: nat,
)
    ensures
        run(step, registry, lockfile, a + b) == run(
            run(step, registry, lockfile, a).0,
            registry,
            run(step, registry, lockfile, a).1,
            b,
        ),
    decreases a,
{
    if a > 0 {
        let next = tick(step, registry, lockfile);
        lemma_run_add(next.0, registry, next.1, (a - 1) as nat, b);
        assert(((a - 1) as nat + b) as nat == (a + b - 1) as nat);
    }
}

/// With `dependencies` next in line and `pending` behind them, four steps
/// for each release (fetch, download, read, write) install the dependencies
/// and all that they require, depth first and in the order in which they are
/// declared; the lockfile grows by their entries in that order, and what was
/// pending is then next in line, untouched.
pub proof fn lemma_dependencies_depth_first(
    registry: RegistryView,
    profile: PolyInstanceView,
    dependencies: Seq<ModVersionDependenciesView>,
    depth: nat,
    pending: Seq<ModVersionDependenciesView>,
    lockfile: Seq<LockfileModView>,
)
    requires
        installed_by_all(registry, profile, dependencies, depth) is Some,
    ensures
        run(
            proceed(profile, dependencies + pending),
            registry,
            lockfile,
            4 * installed_by_all(registry, profile, dependencies, depth)->0.len(),
        ) == (
            proceed(profile, pending),
            lockfile + installed_by_all(registry, profile, dependencies, depth)->0,
        ),
    decreases depth, dependencies.len(),
{
    let added = installed_by_all(registry, profile, dependencies, depth)->0;
    if dependencies.len() == 0 {
        assert(dependencies + pending =~= pending);
        assert(lockfile + added =~= lockfile);
    } else {
        let line = dependencies + pending;
        let first = dependencies.first();
        let behind = dependencies.drop_first() + pending;
        assert(line.first() == first);
        assert(line.drop_first() =~= behind);
        let version = registry.resolved(profile, first)->0;
        let file = selected_file(version.files)->0;
        let needs = required_of(version.dependencies);
        let below = installed_by_all(registry, profile, needs, (depth - 1) as nat)->0;
        let after = installed_by_all(registry, profile, dependencies.drop_first(), depth)->0;
        let entry = entry_of(version, file);
        assert(added == seq![entry] + below + after);

        // fetch, download, read, write
        let s0 = proceed(profile, line);
        let s1 = tick(s0, registry, lockfile);
        assert(s1.0 == install(profile, version, behind));
        assert(s1.0 == StepView::Download { profile, version, file, pending: needs + behind });
        let s2 = tick(s1.0, registry, s1.1);
        let s3 = tick(s2.0, registry, s2.1);
        let s4 = tick(s3.0, registry, s3.1);
        assert(s4.0 == proceed(profile, needs + behind));
        assert(s4.1 == lockfile.push(entry));
        assert(run(s0, registry, lockfile, 4) == s4) by {
            reveal_with_fuel(run, 5);
        }

        // what the release requires, then what stands behind it
        lemma_dependencies_depth_first(
            registry,
            profile,
            needs,
            (depth - 1) as nat,
            behind,
            lockfile.push(entry),
        );
        lemma_dependencies_depth_first(
            registry,
            profile,
            dependencies.drop_first(),
            depth,
            pending,
            lockfile.push(entry) + below,
        );
        lemma_run_add(s0, registry, lockfile, 4, 4 * below.len());
        lemma_run_add(s0, registry, lockfile, 4 + 4 * below.len(), 4 * after.len());
        assert(added.len() == 1 + below.len() + after.len());
        assert(4 + 4 * below.len() + 4 * after.len() == 4 * added.len());
        assert(lockfile.push(entry) + below + after =~= lockfile + added);
    }
}

/// The install of a release records the release, then all that its first
/// required dependency brings, then all that its second brings, and so on,
/// and ends: three steps for the release itself and four for each release
/// below it.
pub proof fn lemma_install_depth_first(
    registry: RegistryView,
    profile: PolyInstanceView,
    version: ModVersionView,
    depth: nat,
    lockfile: Seq<LockfileModView>,
)
    requires
        !profile.vanilla(),
        installed_by(registry, profile, version, depth) is Some,
    ensures
        run(
            start_install(profile, version),
            registry,
            lockfile,
            (4 * installed_by(registry, profile, version, depth)->0.len() - 1) as nat,
        ) == (StepView::Done, lockfile + installed_by(registry, profile, version, depth)->0),
{
    let added = installed_by(registry, profile, version, depth)->0;
    let file = selected_file(version.files)->0;
    let needs = required_of(version.dependencies);
    let below = installed_by_all(registry, profile, needs, depth)->0;
    let entry = entry_of(version, file);
    let none = Seq::<ModVersionDependenciesView>::empty();
    assert(needs + none =~= needs);

    let s0 = start_install(profile, version);
    assert(s0 == StepView::Download { profile, version, file, pending: needs });
    let s1 = tick(s0, registry, lockfile);
    let s2 = tick(s1.0, registry, s1.1);
    let s3 = tick(s2.0, registry, s2.1);
    assert(s3.0 == proceed(profile, needs));
    assert(s3.1 == lockfile.push(entry));
    assert(run(s0, registry, lockfile, 3) == s3) by {
        reveal_with_fuel(run, 4);
    }
    lemma_dependencies_depth_first(registry, profile, needs, depth, none, lockfile.push(entry));
    lemma_run_add(s0, registry, lockfile, 3, 4 * below.len());
    assert(proceed(profile, none) == StepView::Done);
    assert(added.len() == 1 + below.len());
    assert(lockfile.push(entry) + below =~= lockfile + added);
}

/// An install that starts at the check of the lockfile and finds the
/// project of the release unrecorded runs to its end; afterwards the
/// lockfile records the project, and the install of any release of that
/// project stops at the check, before anything is downloaded.
pub proof fn lemma_installed_again_is_refused(
    registry: RegistryView,
    profile: PolyInstanceView,
    version: ModVersionView,
    again: ModVersionView,
    depth: nat,
    lockfile: Seq<LockfileModView>,
)
    requires
        !profile.vanilla(),
        !records(lockfile, version.project_id),
        installed_by(registry, profile, version, depth) is Some,
        again.project_id == version.project_id,
    ensures
        run(
            StepView::CheckLockfile { profile, version },
            registry,
            lockfile,
            4 * installed_by(registry, profile, version, depth)->0.len(),
        ) == (StepView::Done, lockfile + installed_by(registry, profile, version, depth)->0),
        records(lockfile + installed_by(registry, profile, version, depth)->0, version.project_id),
        tick(
            StepView::CheckLockfile { profile, version: again },
            registry,
            lockfile + installed_by(registry, profile, version, depth)->0,
        ) == (
            failed(ModpmError::AlreadyInstalled, Some(again.id)),
            lockfile + installed_by(registry, profile, version, depth)->0,
        ),
{
    let added = installed_by(registry, profile, version, depth)->0;
    let after = lockfile + added;
    let check = StepView::CheckLockfile { profile, version };
    lemma_install_depth_first(registry, profile, version, depth, lockfile);
    assert(tick(check, registry, lockfile) == (start_install(profile, version), lockfile));
    lemma_run_add(check, registry, lockfile, 1, (4 * added.len() - 1) as nat);
    assert(run(check, registry, lockfile, 1) == tick(check, registry, lockfile)) by {
        reveal_with_fuel(run, 2);
    }
    assert(after[lockfile.len() as int].version.project_id == version.project_id);
}

} // verus!
