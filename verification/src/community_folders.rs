//! Where the simulator keeps its add-on folders.

use vstd::prelude::*;

verus! {

/// The user directory that a location is given relative to.
#[derive(Clone, Copy, Debug, PartialEq, Eq, Structural)]
pub enum BaseDir {
    /// The user's local application data.
    LocalData,
    /// The user's roaming configuration data.
    Config,
}

/// A place where an add-on folder may be: a base directory, the directory
/// names that lead from it to the folder, and the kind of folder.
pub struct FolderLocation {
    pub base: BaseDir,
    pub segments: Vec<String>,
    pub folder_type: String,
}

/// A `FolderLocation` as plain values.
pub struct LocationView {
    pub base: BaseDir,
    pub segments: Seq<Seq<char>>,
    pub folder_type: Seq<char>,
}

impl View for FolderLocation {
    type V = LocationView;

    open spec fn view(&self) -> LocationView {
        LocationView {
            base: self.base,
            segments: Seq::new(self.segments@.len(), |i: int| self.segments@[i]@),
            folder_type: self.folder_type@,
        }
    }
}

/// The five places that are searched, in the order of the search: the 2020
/// store and Steam editions, the 2024 store edition with its streamed
/// packages, and the 2024 Steam edition.
pub open spec fn msfs_locations() -> Seq<LocationView> {
    seq![
        LocationView {
            base: BaseDir::LocalData,
            segments: seq![
                "Packages"@,
                "Microsoft.FlightSimulator_8wekyb3d8bbwe"@,
                "LocalCache"@,
                "Packages"@,
                "Community"@,
            ],
            folder_type: "Community"@,
        },
        LocationView {
            base: BaseDir::LocalData,
            segments: seq!["Microsoft Flight Simulator"@, "Packages"@, "Community"@],
            folder_type: "Community"@,
        },
        LocationView {
            base: BaseDir::LocalData,
            segments: seq![
                "Packages"@,
                "Microsoft.Limitless_8wekyb3d8bbwe"@,
                "LocalCache"@,
                "Packages"@,
                "Community"@,
            ],
            folder_type: "Community"@,
        },
        LocationView {
            base: BaseDir::LocalData,
            segments: seq![
                "Packages"@,
                "Microsoft.Limitless_8wekyb3d8bbwe"@,
                "LocalCache"@,
                "Packages"@,
                "StreamedPackages"@,
            ],
            folder_type: "StreamedPackages"@,
        },
        LocationView {
            base: BaseDir::Config,
            segments: seq!["Microsoft Flight Simulator 2024"@, "Packages"@, "Community"@],
            folder_type: "Community"@,
        },
    ]
}

/// A location made of the given names.
fn location(base: BaseDir, names: &Vec<&str>, folder_type: &str) -> (r: FolderLocation)
    ensures
        r@ == (LocationView {
            base,
            segments: Seq::new(names@.len(), |i: int| names@[i]@),
            folder_type: folder_type@,
        }),
{
    let mut segments: Vec<String> = Vec::new();
    let mut i: usize = 0;
    while i < names.len()
        invariant
            i <= names.len(),
            segments@.len() == i,
            forall|j: int| 0 <= j < i ==> (#[trigger] segments@[j])@ == names@[j]@,
        decreases names.len() - i,
    {
        segments.push(String::from_str(names[i]));
        i = i + 1;
    }
    let r = FolderLocation { base, segments, folder_type: String::from_str(folder_type) };
    assert(r@.segments =~= Seq::new(names@.len(), |i: int| names@[i]@));
    r
}

/// The places where the simulator's add-on folders are looked for.
pub fn community_folder_locations() -> (r: Vec<FolderLocation>)
    ensures
        r@.len() == msfs_locations().len(),
        forall|i: int| 0 <= i < r@.len() ==> (#[trigger] r@[i])@ == msfs_locations()[i],
{
    let store_2020 = location(
        BaseDir::LocalData,
        &vec![
            "Packages",
            "Microsoft.FlightSimulator_8wekyb3d8bbwe",
            "LocalCache",
            "Packages",
            "Community",
        ],
        "Community",
    );
    assert(store_2020@.segments =~= msfs_locations()[0].segments);
    let steam_2020 = location(
        BaseDir::LocalData,
        &vec!["Microsoft Flight Simulator", "Packages", "Community"],
        "Community",
    );
    assert(steam_2020@.segments =~= msfs_locations()[1].segments);
    let store_2024 = location(
        BaseDir::LocalData,
        &vec![
            "Packages",
            "Microsoft.Limitless_8wekyb3d8bbwe",
            "LocalCache",
            "Packages",
            "Community",
        ],
        "Community",
    );
    assert(store_2024@.segments =~= msfs_locations()[2].segments);
    let streamed_2024 = location(
        BaseDir::LocalData,
        &vec![
            "Packages",
            "Microsoft.Limitless_8wekyb3d8bbwe",
            "LocalCache",
            "Packages",
            "StreamedPackages",
        ],
        "StreamedPackages",
    );
    assert(streamed_2024@.segments =~= msfs_locations()[3].segments);
    let steam_2024 = location(
        BaseDir::Config,
        &vec!["Microsoft Flight Simulator 2024", "Packages", "Community"],
        "Community",
    );
    assert(steam_2024@.segments =~= msfs_locations()[4].segments);
    let mut r: Vec<FolderLocation> = Vec::new();
    r.push(store_2020);
    r.push(steam_2020);
    r.push(store_2024);
    r.push(streamed_2024);
    r.push(steam_2024);
    r
}

/// A place that was looked at: its full path, the kind of folder, and
/// whether a folder is there.
pub struct FolderProbe {
    pub path: String,
    pub folder_type: String,
    pub exists: bool,
}

/// The probed places at which a folder exists, in the order of the probes,
/// each as its path and kind.
pub open spec fn existing(probes: Seq<FolderProbe>) -> Seq<(Seq<char>, Seq<char>)>
    decreases probes.len(),
{
    if probes.len() == 0 {
        Seq::empty()
    } else if probes.last().exists {
        existing(probes.drop_last()).push((probes.last().path@, probes.last().folder_type@))
    } else {
        existing(probes.drop_last())
    }
}

/// The path and kind of each pair.
pub open spec fn pairs_view(v: Seq<(String, String)>) -> Seq<(Seq<char>, Seq<char>)> {
    Seq::new(v.len(), |i: int| (v[i].0@, v[i].1@))
}

/// Picks the add-on folders that exist among the probed places.
pub fn find_msfs_community_folders(probes: &Vec<FolderProbe>) -> (r: Vec<(String, String)>)
    ensures
        pairs_view(r@) == existing(probes@),
{
    let mut found: Vec<(String, String)> = Vec::new();
    assert(pairs_view(found@) =~= Seq::empty());
    let mut i: usize = 0;
    while i < probes.len()
        invariant
            i <= probes.len(),
            pairs_view(found@) == existing(probes@.take(i as int)),
        decreases probes.len() - i,
    {
        proof {
            assert(probes@.take(i + 1).drop_last() =~= probes@.take(i as int));
        }
        if probes[i].exists {
            let ghost before = pairs_view(found@);
            found.push((probes[i].path.clone(), probes[i].folder_type.clone()));
            assert(pairs_view(found@) =~= before.push(
                (probes@[i as int].path@, probes@[i as int].folder_type@),
            ));
        }
        i = i + 1;
    }
    assert(probes@.take(probes@.len() as int) =~= probes@);
    found
}

} // verus!
