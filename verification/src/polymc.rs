//! The launcher's instances.

use vstd::prelude::*;
use crate::config::{cfg_entries, cfg_get, cfg_value, parse_cfg_file};
use crate::text::{first_where, joined, lemma_first_where, same_text, views};

verus! {

/// One game instance of the launcher: the target that a release has to fit.
#[derive(Debug, PartialEq)]
pub struct PolyInstance {
    pub id: u32,
    pub name: String,
    pub folder_name: String,
    pub game_version: String,
    pub modloader: String,
}

/// What a `PolyInstance` holds.
pub struct PolyInstanceView {
    pub id: u32,
    pub name: Seq<char>,
    pub folder_name: Seq<char>,
    pub game_version: Seq<char>,
    pub modloader: Seq<char>,
}

impl PolyInstanceView {
    /// An instance without a modloader takes no mods.
    pub open spec fn vanilla(self) -> bool {
        self.modloader == "vanilla"@
    }
}

impl View for PolyInstance {
    type V = PolyInstanceView;

    open spec fn view(&self) -> PolyInstanceView {
        PolyInstanceView {
            id: self.id,
            name: self.name@,
            folder_name: self.folder_name@,
            game_version: self.game_version@,
            modloader: self.modloader@,
        }
    }
}

impl Clone for PolyInstance {
    fn clone(&self) -> (r: Self)
        ensures
            r@ == self@,
    {
        PolyInstance {
            id: self.id,
            name: self.name.clone(),
            folder_name: self.folder_name.clone(),
            game_version: self.game_version.clone(),
            modloader: self.modloader.clone(),
        }
    }
}

impl PolyInstance {
    /// The directory into which the mods of the instance go, given the
    /// directory of the launcher.
    pub fn mods_directory(&self, launcher: &str) -> (r: String)
        ensures
            r@ == launcher@ + "/instances/"@ + self.folder_name@ + "/.minecraft/mods"@,
    {
        let out = joined(launcher, "/instances/");
        let out = out.concat(self.folder_name.as_str());
        out.concat("/.minecraft/mods")
    }

    /// Whether the instance runs without a modloader.
    pub fn is_vanilla(&self) -> (r: bool)
        ensures
            r == self@.vanilla(),
    {
        same_text(self.modloader.as_str(), "vanilla")
    }
}

/// One component of an instance: the game itself, a modloader, a library.
#[derive(Debug, Clone, PartialEq)]
pub struct PolyInstanceDataComponent {
    pub uid: String,
    pub version: String,
}

/// What a `PolyInstanceDataComponent` holds.
pub struct PolyInstanceDataComponentView {
    pub uid: Seq<char>,
    pub version: Seq<char>,
}

impl View for PolyInstanceDataComponent {
    type V = PolyInstanceDataComponentView;

    open spec fn view(&self) -> PolyInstanceDataComponentView {
        PolyInstanceDataComponentView { uid: self.uid@, version: self.version@ }
    }
}

/// The component list of an instance.
#[derive(Debug, Clone, PartialEq)]
pub struct PolyInstanceDataJson {
    pub components: Vec<PolyInstanceDataComponent>,
}

impl View for PolyInstanceDataJson {
    type V = Seq<PolyInstanceDataComponentView>;

    open spec fn view(&self) -> Seq<PolyInstanceDataComponentView> {
        views(self.components@)
    }
}

/// What lies in the folder of one instance: the text of its settings file
/// and its component list.
#[derive(Debug, Clone, PartialEq)]
pub struct InstanceFolder {
    pub folder_name: String,
    pub config: String,
    pub pack: PolyInstanceDataJson,
}

/// What an `InstanceFolder` holds.
pub struct InstanceFolderView {
    pub folder_name: Seq<char>,
    pub config: Seq<char>,
    pub components: Seq<PolyInstanceDataComponentView>,
}

impl View for InstanceFolder {
    type V = InstanceFolderView;

    open spec fn view(&self) -> InstanceFolderView {
        InstanceFolderView {
            folder_name: self.folder_name@,
            config: self.config@,
            components: self.pack@,
        }
    }
}

/// The launcher.
pub struct PolyMC {}

/// The name of the modloader that a component is, if it is one.
pub open spec fn loader_name(uid: Seq<char>) -> Option<Seq<char>> {
    if uid == "net.fabricmc.fabric-loader"@ {
        Some("fabric"@)
    } else if uid == "org.quiltmc.quilt-loader"@ {
        Some("quilt"@)
    } else if uid == "net.minecraftforge"@ {
        Some("forge"@)
    } else {
        None
    }
}

/// The text of an optional string slice.
pub open spec fn option_str(o: Option<&str>) -> Option<Seq<char>> {
    match o {
        Some(s) => Some(s@),
        None => None,
    }
}

/// The game version of an instance: the version of its first component that
/// is the game.
pub open spec fn game_version_of(components: Seq<PolyInstanceDataComponentView>) -> Option<
    Seq<char>,
> {
    match first_where(components, |c: PolyInstanceDataComponentView| c.uid == "net.minecraft"@) {
        Some(c) => Some(c.version),
        None => None,
    }
}

/// The modloader of an instance: the name of its first component that is a
/// modloader, and `vanilla` where it has none.
pub open spec fn modloader_of(components: Seq<PolyInstanceDataComponentView>) -> Seq<char> {
    match first_where(components, |c: PolyInstanceDataComponentView| loader_name(c.uid) is Some) {
        Some(c) => loader_name(c.uid)->0,
        None => "vanilla"@,
    }
}

/// The instance that a folder holds, under the number `id`: its name is the
/// value of `name` in the settings. A folder whose settings cannot be read or
/// name no name, or whose components lack the game, holds no instance.
pub open spec fn instance_of(folder: InstanceFolderView, id: u32) -> Option<PolyInstanceView> {
    match cfg_entries(folder.config) {
        None => None,
        Some(entries) => match cfg_value(entries, "name"@) {
            None => None,
            Some(name) => match game_version_of(folder.components) {
                None => None,
                Some(game_version) => Some(
                    PolyInstanceView {
                        id,
                        name,
                        folder_name: folder.folder_name,
                        game_version,
                        modloader: modloader_of(folder.components),
                    },
                ),
            },
        },
    }
}

/// Where the launcher may keep its data, most likely place first.
pub open spec fn candidate_directories(os: Seq<char>, home: Seq<char>) -> Seq<Seq<char>> {
    if os == "linux"@ {
        seq![
            home + "/.local/share/PolyMC"@,
            home + "/.local/share/polymc"@,
            home + "/.var/app/org.polymc.PolyMC/data/PolyMC"@,
        ]
    } else if os == "macos"@ {
        seq![home + "/Library/Application Support/PolyMC"@]
    } else if os == "windows"@ {
        seq![home + "\\AppData\\Roaming\\PolyMC"@]
    } else {
        seq![home + "/.local/share/PolyMC"@]
    }
}

/// Whether candidate `i` was found on disk.
pub open spec fn found(present: Seq<bool>, i: int) -> bool {
    0 <= i < present.len() && present[i]
}

/// The directory of the launcher. On Linux it is the first candidate that was
/// found on disk, and there is none where no candidate was found; elsewhere
/// it is the one candidate, found or not.
pub open spec fn directory(os: Seq<char>, home: Seq<char>, present: Seq<bool>) -> Option<
    Seq<char>,
> {
    let places = candidate_directories(os, home);
    if os == "linux"@ {
        if found(present, 0) {
            Some(places[0])
        } else if found(present, 1) {
            Some(places[1])
        } else if found(present, 2) {
            Some(places[2])
        } else {
            None
        }
    } else {
        Some(places[0])
    }
}

/// Whether the directory of the launcher is there.
pub open spec fn installed(os: Seq<char>, present: Seq<bool>) -> bool {
    if os == "linux"@ {
        found(present, 0) || found(present, 1) || found(present, 2)
    } else {
        found(present, 0)
    }
}

fn flag(present: &Vec<bool>, i: usize) -> (r: bool)
    ensures
        r == found(present@, i as int),
{
    i < present.len() && present[i]
}

impl PolyMC {
    /// The name of the modloader that the component `uid` is, if it is one.
    pub fn get_loader_name(uid: &str) -> (r: Option<&'static str>)
        ensures
            option_str(r) == loader_name(uid@),
    {
        if same_text(uid, "net.fabricmc.fabric-loader") {
            Some("fabric")
        } else if same_text(uid, "org.quiltmc.quilt-loader") {
            Some("quilt")
        } else if same_text(uid, "net.minecraftforge") {
            Some("forge")
        } else {
            None
        }
    }

    /// Where the launcher may keep its data on the system `os` for the user
    /// whose home directory is `home`.
    pub fn directories(os: &str, home: &str) -> (r: Vec<String>)
        ensures
            views(r@) == candidate_directories(os@, home@),
    {
        let mut out: Vec<String> = Vec::new();
        if same_text(os, "linux") {
            out.push(joined(home, "/.local/share/PolyMC"));
            out.push(joined(home, "/.local/share/polymc"));
            out.push(joined(home, "/.var/app/org.polymc.PolyMC/data/PolyMC"));
        } else if same_text(os, "macos") {
            out.push(joined(home, "/Library/Application Support/PolyMC"));
        } else if same_text(os, "windows") {
            out.push(joined(home, "\\AppData\\Roaming\\PolyMC"));
        } else {
            out.push(joined(home, "/.local/share/PolyMC"));
        }
        assert(views(out@) =~= candidate_directories(os@, home@));
        out
    }

    /// The directory of the launcher. `present` says of each candidate of
    /// `directories`, in that order, whether it exists.
    pub fn get_directory(os: &str, home: &str, present: &Vec<bool>) -> (r: Option<String>)
        ensures
            crate::text::option_text(r) == directory(os@, home@, present@),
    {
        let mut places = PolyMC::directories(os, home);
        let ghost all = views(places@);
        let pick: usize = if same_text(os, "linux") {
            if flag(present, 0) {
                0
            } else if flag(present, 1) {
                1
            } else if flag(present, 2) {
                2
            } else {
                return None;
            }
        } else {
            0
        };
        assert(all.len() == places.len());
        assert(all[pick as int] == places[pick as int]@);
        let place = places.swap_remove(pick);
        Some(place)
    }

    /// Whether the directory of the launcher exists.
    pub fn is_installed(os: &str, present: &Vec<bool>) -> (r: bool)
        ensures
            r == installed(os@, present@),
    {
        if same_text(os, "linux") {
            flag(present, 0) || flag(present, 1) || flag(present, 2)
        } else {
            flag(present, 0)
        }
    }

    /// Whether an entry of the instances directory is an instance: a
    /// directory that is not one of the launcher's scratch folders.
    pub fn is_instance_folder(name: &str, is_directory: bool) -> (r: bool)
        ensures
            r == (name@ != ".LAUNCHER_TEMP"@ && name@ != "_LAUNCHER_TEMP"@ && is_directory),
    {
        !same_text(name, ".LAUNCHER_TEMP") && !same_text(name, "_LAUNCHER_TEMP") && is_directory
    }

    /// The game version among `components`.
    pub fn game_version(components: &Vec<PolyInstanceDataComponent>) -> (r: Option<String>)
        ensures
            crate::text::option_text(r) == game_version_of(views(components@)),
    {
        let ghost pred = |c: PolyInstanceDataComponentView| c.uid == "net.minecraft"@;
        let mut i: usize = 0;
        while i < components.len()
            invariant
                i <= components.len(),
                pred == (|c: PolyInstanceDataComponentView| c.uid == "net.minecraft"@),
                forall|j: int| 0 <= j < i ==> !pred(views(components@)[j]),
            decreases components.len() - i,
        {
            if same_text(components[i].uid.as_str(), "net.minecraft") {
                proof {
                    lemma_first_where(views(components@), pred, i as int);
                }
                return Some(components[i].version.clone());
            }
            i = i + 1;
        }
        proof {
            lemma_first_where(views(components@), pred, i as int);
        }
        None
    }

    /// The modloader among `components`.
    pub fn modloader(components: &Vec<PolyInstanceDataComponent>) -> (r: String)
        ensures
            r@ == modloader_of(views(components@)),
    {
        let ghost pred = |c: PolyInstanceDataComponentView| loader_name(c.uid) is Some;
        let mut i: usize = 0;
        while i < components.len()
            invariant
                i <= components.len(),
                pred == (|c: PolyInstanceDataComponentView| loader_name(c.uid) is Some),
                forall|j: int| 0 <= j < i ==> !pred(views(components@)[j]),
            decreases components.len() - i,
        {
            match PolyMC::get_loader_name(components[i].uid.as_str()) {
                Some(name) => {
                    proof {
                        lemma_first_where(views(components@), pred, i as int);
                    }
                    return String::from_str(name);
                },
                None => {},
            }
            i = i + 1;
        }
        proof {
            lemma_first_where(views(components@), pred, i as int);
        }
        String::from_str("vanilla")
    }

    /// The instance that `folder` holds, under the number `id`.
    pub fn instance(folder: &InstanceFolder, id: u32) -> (r: Option<PolyInstance>)
        ensures
            match r {
                Some(instance) => instance_of(folder@, id) == Some(instance@),
                None => instance_of(folder@, id) is None,
            },
    {
        let entries = match parse_cfg_file(folder.config.as_str()) {
            Some(entries) => entries,
            None => {
                return None;
            },
        };
        let name = match cfg_get(&entries, "name") {
            Some(name) => name.clone(),
            None => {
                return None;
            },
        };
        let game_version = match PolyMC::game_version(&folder.pack.components) {
            Some(version) => version,
            None => {
                return None;
            },
        };
        Some(
            PolyInstance {
                id,
                name,
                folder_name: folder.folder_name.clone(),
                game_version,
                modloader: PolyMC::modloader(&folder.pack.components),
            },
        )
    }

    /// The instances of the launcher: one for each folder, in their order,
    /// numbered from 1. If one folder holds no instance, there is no list.
    pub fn get_instances(folders: &Vec<InstanceFolder>) -> (r: Option<Vec<PolyInstance>>)
        requires
            folders.len() <= u32::MAX,
        ensures
            match r {
                Some(list) => list.len() == folders.len() && forall|i: int|
                    0 <= i < list.len() ==> instance_of(#[trigger] folders[i]@, (i + 1) as u32)
                        == Some(list[i]@),
                None => exists|i: int|
                    0 <= i < folders.len() && instance_of(#[trigger] folders[i]@, (i + 1) as u32)
                        is None,
            },
    {
        let mut out: Vec<PolyInstance> = Vec::new();
        let mut i: usize = 0;
        while i < folders.len()
            invariant
                i <= folders.len() <= u32::MAX,
                out.len() == i,
                forall|j: int|
                    0 <= j < i ==> instance_of(#[trigger] folders[j]@, (j + 1) as u32) == Some(
                        out[j]@,
                    ),
            decreases folders.len() - i,
        {
            let number: u32 = (i + 1) as u32;
            match PolyMC::instance(&folders[i], number) {
                Some(instance) => {
                    out.push(instance);
                },
                None => {
                    return None;
                },
            }
            i = i + 1;
        }
        Some(out)
    }
}

} // verus!
