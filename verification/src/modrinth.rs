//! What the registry says about a mod: projects, releases, files, teams.

use vstd::prelude::*;
use crate::text::{clone_option, clone_strings, option_text, views};

verus! {

/// The digests that the registry lists for a file.
#[derive(Debug, PartialEq)]
pub struct ModVersionFileHashes {
    pub sha512: String,
}

/// One downloadable file of a release.
#[derive(Debug, PartialEq)]
pub struct ModVersionFile {
    pub hashes: ModVersionFileHashes,
    pub url: String,
    pub filename: String,
    pub primary: bool,
}

/// What a `ModVersionFile` holds.
pub struct ModVersionFileView {
    pub sha512: Seq<char>,
    pub url: Seq<char>,
    pub filename: Seq<char>,
    pub primary: bool,
}

impl View for ModVersionFile {
    type V = ModVersionFileView;

    open spec fn view(&self) -> ModVersionFileView {
        ModVersionFileView {
            sha512: self.hashes.sha512@,
            url: self.url@,
            filename: self.filename@,
            primary: self.primary,
        }
    }
}

impl Clone for ModVersionFileHashes {
    fn clone(&self) -> (r: Self)
        ensures
            r.sha512@ == self.sha512@,
    {
        ModVersionFileHashes { sha512: self.sha512.clone() }
    }
}

impl Clone for ModVersionFile {
    fn clone(&self) -> (r: Self)
        ensures
            r@ == self@,
    {
        ModVersionFile {
            hashes: self.hashes.clone(),
            url: self.url.clone(),
            filename: self.filename.clone(),
            primary: self.primary,
        }
    }
}

/// A relation of a release to another project or release.
#[derive(Debug, PartialEq)]
pub struct ModVersionDependencies {
    pub version_id: Option<String>,
    pub project_id: Option<String>,
    pub dependency_type: String,
}

/// What a `ModVersionDependencies` holds.
pub struct ModVersionDependenciesView {
    pub version_id: Option<Seq<char>>,
    pub project_id: Option<Seq<char>>,
    pub dependency_type: Seq<char>,
}

impl ModVersionDependenciesView {
    /// Only a dependency of this kind is installed along with its dependent.
    pub open spec fn required(self) -> bool {
        self.dependency_type == "required"@
    }
}

impl View for ModVersionDependencies {
    type V = ModVersionDependenciesView;

    open spec fn view(&self) -> ModVersionDependenciesView {
        ModVersionDependenciesView {
            version_id: option_text(self.version_id),
            project_id: option_text(self.project_id),
            dependency_type: self.dependency_type@,
        }
    }
}

impl Clone for ModVersionDependencies {
    fn clone(&self) -> (r: Self)
        ensures
            r@ == self@,
    {
        ModVersionDependencies {
            version_id: clone_option(&self.version_id),
            project_id: clone_option(&self.project_id),
            dependency_type: self.dependency_type.clone(),
        }
    }
}

/// One published build of a mod.
#[derive(Debug, PartialEq)]
pub struct ModVersion {
    /// The number under which a front end last listed the release, if it did.
    pub mpm_id: Option<u8>,
    pub id: String,
    pub name: String,
    pub version_number: String,
    pub loaders: Vec<String>,
    pub files: Vec<ModVersionFile>,
    pub game_versions: Vec<String>,
    pub project_id: String,
    pub date_published: String,
    pub dependencies: Vec<ModVersionDependencies>,
}

/// What a `ModVersion` holds.
pub struct ModVersionView {
    pub mpm_id: Option<u8>,
    pub id: Seq<char>,
    pub name: Seq<char>,
    pub version_number: Seq<char>,
    pub loaders: Seq<Seq<char>>,
    pub files: Seq<ModVersionFileView>,
    pub game_versions: Seq<Seq<char>>,
    pub project_id: Seq<char>,
    pub date_published: Seq<char>,
    pub dependencies: Seq<ModVersionDependenciesView>,
}

impl View for ModVersion {
    type V = ModVersionView;

    open spec fn view(&self) -> ModVersionView {
        ModVersionView {
            mpm_id: self.mpm_id,
            id: self.id@,
            name: self.name@,
            version_number: self.version_number@,
            loaders: views(self.loaders@),
            files: views(self.files@),
            game_versions: views(self.game_versions@),
            project_id: self.project_id@,
            date_published: self.date_published@,
            dependencies: views(self.dependencies@),
        }
    }
}

/// A copy of a list of files.
pub fn clone_files(list: &Vec<ModVersionFile>) -> (r: Vec<ModVersionFile>)
    ensures
        views(r@) == views(list@),
{
    let mut out: Vec<ModVersionFile> = Vec::new();
    let mut i: usize = 0;
    while i < list.len()
        invariant
            i <= list.len(),
            out.len() == i,
            forall|j: int| 0 <= j < i ==> out[j]@ == list[j]@,
        decreases list.len() - i,
    {
        out.push(list[i].clone());
        i = i + 1;
    }
    assert(views(out@) =~= views(list@));
    out
}

/// A copy of a list of dependencies.
pub fn clone_dependencies(list: &Vec<ModVersionDependencies>) -> (r: Vec<ModVersionDependencies>)
    ensures
        views(r@) == views(list@),
{
    let mut out: Vec<ModVersionDependencies> = Vec::new();
    let mut i: usize = 0;
    while i < list.len()
        invariant
            i <= list.len(),
            out.len() == i,
            forall|j: int| 0 <= j < i ==> out[j]@ == list[j]@,
        decreases list.len() - i,
    {
        out.push(list[i].clone());
        i = i + 1;
    }
    assert(views(out@) =~= views(list@));
    out
}

impl Clone for ModVersion {
    fn clone(&self) -> (r: Self)
        ensures
            r@ == self@,
    {
        ModVersion {
            mpm_id: self.mpm_id,
            id: self.id.clone(),
            name: self.name.clone(),
            version_number: self.version_number.clone(),
            loaders: clone_strings(&self.loaders),
            files: clone_files(&self.files),
            game_versions: clone_strings(&self.game_versions),
            project_id: self.project_id.clone(),
            date_published: self.date_published.clone(),
            dependencies: clone_dependencies(&self.dependencies),
        }
    }
}

/// The licence of a project.
#[derive(Debug, Clone, PartialEq)]
pub struct ModrinthLicense {
    pub id: String,
    pub name: String,
    pub url: String,
}

/// A place where a project takes donations.
#[derive(Debug, Clone, PartialEq)]
pub struct ModrinthDonationUrls {
    pub id: String,
    pub platform: String,
    pub url: String,
}

/// A user of the registry.
#[derive(Debug, Clone, PartialEq)]
pub struct ModrinthTeamUser {
    pub username: String,
    pub name: Option<String>,
    pub email: Option<String>,
    pub bio: Option<String>,
    pub id: String,
    pub github_id: u64,
    pub avatar_url: String,
    pub created: String,
    pub role: String,
}

/// A user's seat in the team of a project.
#[derive(Debug, Clone, PartialEq)]
pub struct ModrinthTeamMember {
    pub team_id: String,
    pub user: ModrinthTeamUser,
    pub role: String,
    pub permissions: Option<u64>,
    pub accepted: bool,
}

/// A project with its releases and its team.
#[derive(Debug, Clone, PartialEq)]
pub struct MpmMod {
    pub title: String,
    pub id: String,
    pub license: ModrinthLicense,
    pub versions: Vec<ModVersion>,
    pub description: String,
    pub categories: Vec<String>,
    pub source_url: String,
    pub donation_urls: Vec<ModrinthDonationUrls>,
    pub members: Vec<ModrinthTeamMember>,
}

impl ModrinthTeamUser {
    /// The name to show for the user: the chosen name, or else the login.
    pub fn display_name(&self) -> (r: String)
        ensures
            r@ == (match self.name {
                Some(n) => n@,
                None => self.username@,
            }),
    {
        match &self.name {
            Some(n) => n.clone(),
            None => self.username.clone(),
        }
    }
}

impl MpmMod {
    /// The first member whose role reads `Owner`.
    pub fn get_owner(&self) -> (r: Option<&ModrinthTeamMember>)
        ensures
            match r {
                Some(m) => exists|i: int| 0 <= i < self.members.len() && *m == self.members[i]
                    && self.members[i].role@ == "Owner"@
                    && forall|j: int| 0 <= j < i ==> self.members[j].role@ != "Owner"@,
                None => forall|j: int| 0 <= j < self.members.len() ==> self.members[j].role@ != "Owner"@,
            },
    {
        let mut i: usize = 0;
        while i < self.members.len()
            invariant
                i <= self.members.len(),
                forall|j: int| 0 <= j < i ==> self.members[j].role@ != "Owner"@,
            decreases self.members.len() - i,
        {
            if crate::text::same_text(self.members[i].role.as_str(), "Owner") {
                return Some(&self.members[i]);
            }
            i = i + 1;
        }
        None
    }
}

} // verus!
