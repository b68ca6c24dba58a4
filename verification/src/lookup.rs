//! Finding a project in the registry, cut into steps: each step names one
//! request, by its address; the caller makes it and hands back what the
//! registry said.

use vstd::prelude::*;
use crate::error::ModpmError;
use crate::modrinth::{
    ModVersion,
    ModrinthDonationUrls,
    ModrinthLicense,
    ModrinthTeamMember,
    MpmMod,
};
use crate::text::{joined, views};

verus! {

/// What the registry says of a project itself: its releases are listed by
/// their ids only.
#[derive(Debug, Clone, PartialEq)]
pub struct ProjectRecord {
    pub title: String,
    pub id: String,
    pub license: ModrinthLicense,
    pub versions: Vec<String>,
    pub description: String,
    pub categories: Vec<String>,
    pub source_url: String,
    pub donation_urls: Vec<ModrinthDonationUrls>,
}

/// The project `query`, an id or a slug, has to be fetched.
#[derive(Debug, PartialEq)]
pub struct FindingProject {
    pub query: String,
}

/// The release that owns the file with the digest `hash` has to be fetched.
#[derive(Debug, PartialEq)]
pub struct FindingByHash {
    pub hash: String,
}

/// The releases of `project` have to be fetched.
#[derive(Debug, PartialEq)]
pub struct FindingVersions {
    pub project: ProjectRecord,
}

/// The team of `project` has to be fetched.
#[derive(Debug, PartialEq)]
pub struct FindingMembers {
    pub project: ProjectRecord,
    pub versions: Vec<ModVersion>,
}

/// The request to make next, or how the search ended.
#[derive(Debug, PartialEq)]
pub enum Lookup {
    Project(FindingProject),
    ByHash(FindingByHash),
    Versions(FindingVersions),
    Members(FindingMembers),
    Found(MpmMod),
    Fail(ModpmError),
}

/// Where the registry answers.
pub open spec fn api() -> Seq<char> {
    "https://api.modrinth.com/v2/"@
}

/// `text` between double quotes.
pub open spec fn quoted(text: Seq<char>) -> Seq<char> {
    "\""@ + text + "\""@
}

/// `ids`, each between double quotes, with a comma and a blank between two.
pub open spec fn items_text(ids: Seq<Seq<char>>) -> Seq<char>
    decreases ids.len(),
{
    if ids.len() == 0 {
        Seq::empty()
    } else if ids.len() == 1 {
        quoted(ids[0])
    } else {
        items_text(ids.drop_last()) + ", "@ + quoted(ids.last())
    }
}

/// `ids` as a list in square brackets.
pub open spec fn list_text(ids: Seq<Seq<char>>) -> Seq<char> {
    "["@ + items_text(ids) + "]"@
}

/// `ids` as a list in square brackets, each id between double quotes.
pub fn ids_text(ids: &Vec<String>) -> (r: String)
    ensures
        r@ == list_text(views(ids@)),
{
    let ghost all = views(ids@);
    let mut out = String::from_str("[");
    let mut i: usize = 0;
    proof {
        assert("["@ + items_text(all.take(0)) =~= "["@);
    }
    while i < ids.len()
        invariant
            i <= ids.len(),
            all == views(ids@),
            out@ == "["@ + items_text(all.take(i as int)),
        decreases ids.len() - i,
    {
        let ghost before = out@;
        if i > 0 {
            out.append(", ");
        }
        out.append("\"");
        out.append(ids[i].as_str());
        out.append("\"");
        proof {
            let head = all.take(i + 1);
            assert(head.drop_last() =~= all.take(i as int));
            assert(head.last() == ids[i as int]@);
            if i == 0 {
                assert(items_text(all.take(0)) =~= Seq::<char>::empty());
                assert(out@ =~= "["@ + items_text(head));
            } else {
                assert(out@ =~= "["@ + items_text(head));
            }
        }
        i = i + 1;
    }
    proof {
        assert(all.take(ids.len() as int) =~= all);
    }
    out.append("]");
    out
}

impl ModVersion {
    /// Where the registry keeps the release `id`.
    pub fn url(id: &str) -> (r: String)
        ensures
            r@ == api() + "version/"@ + id@,
    {
        let out = joined("https://api.modrinth.com/v2/", "version/");
        out.concat(id)
    }
}

impl MpmMod {
    /// Starts the search for the project `query`.
    pub fn new(query: &str) -> (r: Lookup)
        ensures
            r matches Lookup::Project(step) && step.query@ == query@,
    {
        Lookup::Project(FindingProject { query: String::from_str(query) })
    }

    /// Starts the search for the project that owns a file with the SHA-512
    /// digest `hash`, written in hexadecimal.
    pub fn new_from_hash(hash: &str) -> (r: Lookup)
        ensures
            r matches Lookup::ByHash(step) && step.hash@ == hash@,
    {
        Lookup::ByHash(FindingByHash { hash: String::from_str(hash) })
    }
}

impl FindingProject {
    /// The address of the request.
    pub fn url(&self) -> (r: String)
        ensures
            r@ == api() + "project/"@ + self.query@,
    {
        let out = joined("https://api.modrinth.com/v2/", "project/");
        out.concat(self.query.as_str())
    }

    /// The registry answered: `None` where it knows no such project. A
    /// project that is known has its releases fetched next.
    pub fn fetched(self, project: Option<ProjectRecord>) -> (r: Lookup)
        ensures
            match project {
                Some(p) => r == Lookup::Versions(FindingVersions { project: p }),
                None => r == Lookup::Fail(ModpmError::NotFound),
            },
    {
        match project {
            Some(p) => Lookup::Versions(FindingVersions { project: p }),
            None => Lookup::Fail(ModpmError::NotFound),
        }
    }
}

impl FindingByHash {
    /// The address of the request.
    pub fn url(&self) -> (r: String)
        ensures
            r@ == api() + "version_file/"@ + self.hash@ + "?algorithm=sha512"@,
    {
        let out = joined("https://api.modrinth.com/v2/", "version_file/");
        let out = out.concat(self.hash.as_str());
        out.concat("?algorithm=sha512")
    }

    /// The registry answered: `None` where it knows no file of that digest.
    /// The project of the release that was found is searched next.
    pub fn fetched(self, version: Option<ModVersion>) -> (r: Lookup)
        ensures
            match version {
                Some(v) => r == Lookup::Project(FindingProject { query: v.project_id }),
                None => r == Lookup::Fail(ModpmError::NotFound),
            },
    {
        match version {
            Some(v) => Lookup::Project(FindingProject { query: v.project_id }),
            None => Lookup::Fail(ModpmError::NotFound),
        }
    }
}

impl FindingVersions {
    /// The address of the request: it lists the ids of all releases of the
    /// project.
    pub fn url(&self) -> (r: String)
        ensures
            r@ == api() + "versions?ids="@ + list_text(views(self.project.versions@)),
    {
        let out = joined("https://api.modrinth.com/v2/", "versions?ids=");
        let ids = ids_text(&self.project.versions);
        out.concat(ids.as_str())
    }

    /// The registry answered with the releases.
    pub fn fetched(self, versions: Vec<ModVersion>) -> (r: Lookup)
        ensures
            r == Lookup::Members(FindingMembers { project: self.project, versions }),
    {
        Lookup::Members(FindingMembers { project: self.project, versions })
    }
}

impl FindingMembers {
    /// The address of the request.
    pub fn url(&self) -> (r: String)
        ensures
            r@ == api() + "project/"@ + self.project.id@ + "/members"@,
    {
        let out = joined("https://api.modrinth.com/v2/", "project/");
        let out = out.concat(self.project.id.as_str());
        out.concat("/members")
    }

    /// The registry answered with the team: the project is complete.
    pub fn fetched(self, members: Vec<ModrinthTeamMember>) -> (r: Lookup)
        ensures
            r == Lookup::Found(
                MpmMod {
                    title: self.project.title,
                    id: self.project.id,
                    license: self.project.license,
                    versions: self.versions,
                    description: self.project.description,
                    categories: self.project.categories,
                    source_url: self.project.source_url,
                    donation_urls: self.project.donation_urls,
                    members,
                },
            ),
    {
        let FindingMembers { project, versions } = self;
        Lookup::Found(
            MpmMod {
                title: project.title,
                id: project.id,
                license: project.license,
                versions,
                description: project.description,
                categories: project.categories,
                source_url: project.source_url,
                donation_urls: project.donation_urls,
                members,
            },
        )
    }
}

} // verus!
