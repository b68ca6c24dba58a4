//! Which releases fit an instance, whether that settles the choice, and
//! which file of a release is downloaded.

use vstd::prelude::*;
use crate::error::ModpmError;
use crate::modrinth::{ModVersion, ModVersionFile, ModVersionFileView, ModVersionView};
use crate::polymc::{PolyInstance, PolyInstanceView};
use crate::text::{contains_text, lemma_first_where, lemma_views_push, views};

verus! {

/// A release fits an instance when it lists the instance's game version and
/// its modloader.
pub open spec fn compatible(v: ModVersionView, p: PolyInstanceView) -> bool {
    v.game_versions.contains(p.game_version) && v.loaders.contains(p.modloader)
}

/// The releases among `candidates` that fit `p`, in their order.
pub open spec fn compatible_versions(candidates: Seq<ModVersionView>, p: PolyInstanceView) -> Seq<
    ModVersionView,
> {
    candidates.filter(|v: ModVersionView| compatible(v, p))
}

impl ModVersion {
    /// Whether the release fits `instance`.
    pub fn fits(&self, instance: &PolyInstance) -> (r: bool)
        ensures
            r == compatible(self@, instance@),
    {
        contains_text(&self.game_versions, &instance.game_version) && contains_text(
            &self.loaders,
            &instance.modloader,
        )
    }
}

/// The releases among `candidates` that fit `instance`, in their order.
pub fn filter_compatible(candidates: &Vec<ModVersion>, instance: &PolyInstance) -> (r: Vec<
    ModVersion,
>)
    ensures
        views(r@) == compatible_versions(views(candidates@), instance@),
{
    let ghost pred = |v: ModVersionView| compatible(v, instance@);
    let mut out: Vec<ModVersion> = Vec::new();
    let mut i: usize = 0;
    proof {
        assert(views(candidates@).take(0) =~= Seq::<ModVersionView>::empty());
        assert(views(out@) =~= Seq::<ModVersionView>::empty());
        reveal(Seq::filter);
    }
    while i < candidates.len()
        invariant
            i <= candidates.len(),
            pred == (|v: ModVersionView| compatible(v, instance@)),
            views(out@) == views(candidates@).take(i as int).filter(pred),
        decreases candidates.len() - i,
    {
        let ghost before = views(candidates@).take(i as int);
        proof {
            assert(views(candidates@).take(i + 1) =~= before.push(candidates[i as int]@));
            before.lemma_filter_push(candidates[i as int]@, pred);
        }
        if candidates[i].fits(instance) {
            let copy = candidates[i].clone();
            proof {
                lemma_views_push(out@, copy);
            }
            out.push(copy);
        }
        i = i + 1;
    }
    proof {
        assert(views(candidates@).take(candidates.len() as int) =~= views(candidates@));
    }
    out
}

/// The first release among `candidates` that fits `instance`.
pub fn first_compatible(candidates: &Vec<ModVersion>, instance: &PolyInstance) -> (r: Option<
    ModVersion,
>)
    ensures
        match r {
            Some(v) => compatible_versions(views(candidates@), instance@).len() > 0 && v@
                == compatible_versions(views(candidates@), instance@).first(),
            None => compatible_versions(views(candidates@), instance@).len() == 0,
        },
{
    let ghost pred = |v: ModVersionView| compatible(v, instance@);
    let mut i: usize = 0;
    while i < candidates.len()
        invariant
            i <= candidates.len(),
            pred == (|v: ModVersionView| compatible(v, instance@)),
            forall|j: int| 0 <= j < i ==> !pred(views(candidates@)[j]),
        decreases candidates.len() - i,
    {
        if candidates[i].fits(instance) {
            proof {
                lemma_first_where(views(candidates@), pred, i as int);
            }
            return Some(candidates[i].clone());
        }
        i = i + 1;
    }
    proof {
        lemma_first_where(views(candidates@), pred, i as int);
    }
    None
}

/// What the filter leaves of a list of candidates.
#[derive(Debug, PartialEq)]
pub enum Resolution {
    /// Exactly one release fits.
    Unique(ModVersion),
    /// Several releases fit; the user has to pick one.
    Ambiguous(Vec<ModVersion>),
}

/// Filters `candidates` down to the releases that fit `profile` and says
/// whether that settles the choice.
pub fn resolve(candidates: &Vec<ModVersion>, profile: &PolyInstance) -> (r: Result<
    Resolution,
    ModpmError,
>)
    ensures
        match r {
            Err(e) => e == ModpmError::NoCompatibleVersion && compatible_versions(
                views(candidates@),
                profile@,
            ).len() == 0,
            Ok(Resolution::Unique(v)) => compatible_versions(views(candidates@), profile@)
                == seq![v@],
            Ok(Resolution::Ambiguous(list)) => list.len() > 1 && views(list@)
                == compatible_versions(views(candidates@), profile@),
        },
{
    let mut fitting = filter_compatible(candidates, profile);
    if fitting.len() == 0 {
        Err(ModpmError::NoCompatibleVersion)
    } else if fitting.len() == 1 {
        let ghost all = views(fitting@);
        let only = fitting.pop().unwrap();
        proof {
            assert(all =~= seq![only@]);
        }
        Ok(Resolution::Unique(only))
    } else {
        Ok(Resolution::Ambiguous(fitting))
    }
}

/// `i` is the first file of `files` that is flagged as primary.
pub open spec fn is_first_primary(files: Seq<ModVersionFileView>, i: int) -> bool {
    &&& 0 <= i < files.len()
    &&& files[i].primary
    &&& forall|j: int| 0 <= j < i ==> !files[j].primary
}

/// The file to download for a release with these files: the only file where
/// there is exactly one, whatever its flag; else the first that is flagged as
/// primary; none where no file is flagged.
pub open spec fn selected_file(files: Seq<ModVersionFileView>) -> Option<ModVersionFileView> {
    if files.len() == 1 {
        Some(files[0])
    } else if exists|i: int| is_first_primary(files, i) {
        Some(files[choose|i: int| is_first_primary(files, i)])
    } else {
        None
    }
}

impl ModVersion {
    /// The file to download for the release.
    pub fn select_file(&self) -> (r: Result<&ModVersionFile, ModpmError>)
        ensures
            match r {
                Ok(file) => selected_file(self@.files) == Some(file@) && exists|i: int|
                    0 <= i < self.files.len() && *file == self.files[i],
                Err(e) => e == ModpmError::NoPrimaryFile && selected_file(self@.files) is None,
            },
    {
        if self.files.len() == 1 {
            return Ok(&self.files[0]);
        }
        let mut i: usize = 0;
        while i < self.files.len()
            invariant
                i <= self.files.len(),
                forall|j: int| 0 <= j < i ==> !self.files[j].primary,
            decreases self.files.len() - i,
        {
            if self.files[i].primary {
                proof {
                    let files = self@.files;
                    assert(is_first_primary(files, i as int));
                    let other = choose|k: int| is_first_primary(files, k);
                    assert(is_first_primary(files, other));
                    assert(other == i);
                }
                return Ok(&self.files[i]);
            }
            i = i + 1;
        }
        proof {
            let files = self@.files;
            assert forall|k: int| !is_first_primary(files, k) by {
                if 0 <= k < files.len() {
                    assert(!self.files[k].primary);
                }
            }
        }
        Err(ModpmError::NoPrimaryFile)
    }
}

/// The releases that the filter keeps are exactly the candidates that fit: it
/// drops none that fits and lets none through that does not.
pub proof fn lemma_filter_keeps_exactly_the_compatible(
    candidates: Seq<ModVersionView>,
    p: PolyInstanceView,
    v: ModVersionView,
)
    ensures
        compatible_versions(candidates, p).contains(v) <==> candidates.contains(v) && compatible(
            v,
            p,
        ),
        compatible_versions(candidates, p).to_set() == candidates.to_set().filter(
            |c: ModVersionView| compatible(c, p),
        ),
{
    let pred = |c: ModVersionView| compatible(c, p);
    let kept = candidates.filter(pred);
    assert forall|c: ModVersionView| kept.contains(c) <==> candidates.contains(c) && compatible(
        c,
        p,
    ) by {
        if kept.contains(c) {
            candidates.lemma_filter_contains_rev(pred, c);
            let i = choose|i: int| 0 <= i < kept.len() && kept[i] == c;
            candidates.lemma_filter_pred(pred, i);
        }
        if candidates.contains(c) && compatible(c, p) {
            let i = choose|i: int| 0 <= i < candidates.len() && candidates[i] == c;
            candidates.lemma_filter_contains(pred, i);
        }
    }
    assert(kept.to_set() =~= candidates.to_set().filter(pred));
}

/// Which file is downloaded for a release: its only file where it has
/// exactly one, flagged or not; else its first file that is flagged as
/// primary; and none where it has several files, or no file, and flags none.
pub proof fn lemma_selected_file(files: Seq<ModVersionFileView>)
    ensures
        files.len() == 1 ==> selected_file(files) == Some(files[0]),
        files.len() != 1 && (exists|i: int| 0 <= i < files.len() && files[i].primary)
            ==> selected_file(files) is Some && selected_file(files)->0.primary && exists|i: int|
            is_first_primary(files, i) && selected_file(files) == Some(files[i]),
        files.len() != 1 && (forall|i: int| 0 <= i < files.len() ==> !files[i].primary)
            ==> selected_file(files) is None,
{
    if files.len() != 1 && (exists|i: int| 0 <= i < files.len() && files[i].primary) {
        let w = choose|i: int| 0 <= i < files.len() && files[i].primary;
        lemma_first_primary_exists(files, w);
    }
}

/// If file `w` is flagged, some file is the first flagged one.
proof fn lemma_first_primary_exists(files: Seq<ModVersionFileView>, w: int)
    requires
        0 <= w < files.len(),
        files[w].primary,
    ensures
        exists|i: int| is_first_primary(files, i),
    decreases w,
{
    if exists|j: int| 0 <= j < w && files[j].primary {
        let j = choose|j: int| 0 <= j < w && files[j].primary;
        lemma_first_primary_exists(files, j);
    } else {
        assert(is_first_primary(files, w));
    }
}

} // verus!
