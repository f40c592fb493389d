//! Where the bridge library is looked for.

use vstd::prelude::*;
use vstd::string::*;

use std::path::PathBuf;

verus! {

#[verifier::external_type_specification]
#[verifier::external_body]
pub struct ExPathBuf(PathBuf);

/// `PathBuf::clone` returns a path equal to the one cloned.
pub assume_specification[ <PathBuf as Clone>::clone ](path: &PathBuf) -> (copy: PathBuf)
    ensures
        copy == *path,
;

/// Options for overriding how the bridge library is located at runtime.
#[derive(Debug, Clone, Default)]
pub struct BridgeLoadOptions {
    /// An explicit full path to the bridge library file.
    pub explicit_library_path: Option<PathBuf>,
    /// An explicit directory that contains the bridge library file.
    pub explicit_library_dir: Option<PathBuf>,
}

impl BridgeLoadOptions {
    /// Options that load the bridge from an explicit file path.
    pub fn with_explicit_library_path(self, path: PathBuf) -> (o: Self)
        ensures
            o.explicit_library_path == Some(path),
            o.explicit_library_dir == self.explicit_library_dir,
    {
        BridgeLoadOptions { explicit_library_path: Some(path), explicit_library_dir: self.explicit_library_dir }
    }

    /// Options that load the bridge from an explicit directory.
    pub fn with_explicit_library_dir(self, path: PathBuf) -> (o: Self)
        ensures
            o.explicit_library_path == self.explicit_library_path,
            o.explicit_library_dir == Some(path),
    {
        BridgeLoadOptions { explicit_library_path: self.explicit_library_path, explicit_library_dir: Some(path) }
    }
}

/// A candidate file for the bridge library and whether it is an existing file.
#[derive(Debug, Clone, PartialEq, Eq)]
pub struct BridgeProbe {
    pub path: PathBuf,
    pub is_file: bool,
}

/// What the filesystem and the environment say about the places the bridge
/// library is looked for, besides the explicit path of the options:
/// the library file in the explicit directory, in the directory named by
/// `CBF_BRIDGE_LIB_DIR`, next to the executable, and in the `Frameworks`
/// directory of the macOS bundle the executable runs from. A place that does
/// not apply (no directory given, no variable set, no executable directory,
/// not in a bundle) is `None`.
#[derive(Debug, Clone, Default, PartialEq, Eq)]
pub struct BridgeSearch {
    /// Whether the options' explicit library path is an existing file.
    pub explicit_path_is_file: bool,
    pub explicit_dir_file: Option<BridgeProbe>,
    pub env_dir_file: Option<BridgeProbe>,
    pub beside_executable: Option<BridgeProbe>,
    pub bundle_frameworks: Option<BridgeProbe>,
}

/// The platform the bridge library is built for; it fixes the library's file
/// name, and whether an application bundle's `Frameworks` is searched.
#[derive(Debug, Clone, Copy, PartialEq, Eq, Structural)]
pub enum BridgePlatform {
    MacOs,
    Linux,
    Windows,
}

/// The file name of the bridge library on a platform.
pub open spec fn spec_bridge_lib_file_name(platform: BridgePlatform) -> Seq<char> {
    match platform {
        BridgePlatform::MacOs => "libcbf_bridge.dylib"@,
        BridgePlatform::Linux => "libcbf_bridge.so"@,
        BridgePlatform::Windows => "cbf_bridge.dll"@,
    }
}

/// The file name of the bridge library on a platform.
pub fn bridge_lib_file_name(platform: BridgePlatform) -> (name: &'static str)
    ensures
        name@ == spec_bridge_lib_file_name(platform),
{
    match platform {
        BridgePlatform::MacOs => "libcbf_bridge.dylib",
        BridgePlatform::Linux => "libcbf_bridge.so",
        BridgePlatform::Windows => "cbf_bridge.dll",
    }
}

/// What `Path::join` gives for a base path and a relative file name.
pub uninterp spec fn path_join(base: PathBuf, name: Seq<char>) -> PathBuf;

/// What `Path::parent` gives for a path: the path without its last
/// component, none for a root or an empty path.
pub uninterp spec fn path_parent(path: PathBuf) -> Option<PathBuf>;

/// What `Path::file_name` gives for a path, as text: none when the path has
/// no final name or the name is not valid Unicode.
pub uninterp spec fn path_file_name(path: PathBuf) -> Option<Seq<char>>;

/// Calls `Path::join`: the base path extended by a relative name.
#[verifier::external_body]
fn join_path(base: &PathBuf, name: &str) -> (joined: PathBuf)
    ensures
        joined == path_join(*base, name@),
{
    base.join(name)
}

/// Calls `Path::parent`, owning the result.
#[verifier::external_body]
fn parent_path(path: &PathBuf) -> (parent: Option<PathBuf>)
    ensures
        parent == path_parent(*path),
{
    path.parent().map(|parent| parent.to_path_buf())
}

/// Calls `Path::file_name`, as text when it is valid Unicode.
#[verifier::external_body]
fn file_name_text(path: &PathBuf) -> (name: Option<String>)
    ensures
        match name {
            Some(text) => path_file_name(*path) == Some(text@),
            None => path_file_name(*path) is None,
        },
{
    let name = path.file_name()?;
    let text = name.to_str()?;
    Some(text.to_string())
}

/// The files the bridge library may be, besides the explicit file: in the
/// explicit directory, in the directory of `CBF_BRIDGE_LIB_DIR`, next to the
/// executable, and in the `Frameworks` of the macOS bundle it runs from.
#[derive(Debug, Clone, Default, PartialEq, Eq)]
pub struct BridgeLocations {
    pub explicit_dir_file: Option<PathBuf>,
    pub env_dir_file: Option<PathBuf>,
    pub beside_executable: Option<PathBuf>,
    pub bundle_frameworks: Option<PathBuf>,
}

/// A directory's library file, when there is a directory.
pub open spec fn library_in(dir: Option<PathBuf>, file_name: Seq<char>) -> Option<PathBuf> {
    match dir {
        Some(d) => Some(path_join(d, file_name)),
        None => None,
    }
}

/// The `Frameworks` library file of the bundle whose `Contents` directory
/// holds the executable's directory: only on macOS, and only when the
/// executable directory's parent is named `Contents`.
pub open spec fn bundle_library(platform: BridgePlatform, exe_dir: Option<PathBuf>) -> Option<PathBuf> {
    match exe_dir {
        Some(dir) => match path_parent(dir) {
            Some(contents) => if platform == BridgePlatform::MacOs && path_file_name(contents)
                == Some("Contents"@) {
                Some(
                    path_join(
                        path_join(contents, "Frameworks"@),
                        spec_bridge_lib_file_name(platform),
                    ),
                )
            } else {
                None
            },
            None => None,
        },
        None => None,
    }
}

/// The search locations for the given options, the directory named by
/// `CBF_BRIDGE_LIB_DIR` (if set) and the running executable (if known).
pub open spec fn spec_locations(
    options: BridgeLoadOptions,
    platform: BridgePlatform,
    env_dir: Option<PathBuf>,
    current_exe: Option<PathBuf>,
) -> BridgeLocations {
    let file_name = spec_bridge_lib_file_name(platform);
    let exe_dir = match current_exe {
        Some(exe) => path_parent(exe),
        None => None,
    };
    BridgeLocations {
        explicit_dir_file: library_in(options.explicit_library_dir, file_name),
        env_dir_file: library_in(env_dir, file_name),
        beside_executable: library_in(exe_dir, file_name),
        bundle_frameworks: bundle_library(platform, exe_dir),
    }
}

fn library_in_dir(dir: &Option<PathBuf>, file_name: &str) -> (r: Option<PathBuf>)
    ensures
        r == library_in(*dir, file_name@),
{
    match dir {
        Some(d) => Some(join_path(d, file_name)),
        None => None,
    }
}

/// Compute where the bridge library is looked for.
pub fn bridge_library_locations(
    options: &BridgeLoadOptions,
    platform: BridgePlatform,
    env_dir: &Option<PathBuf>,
    current_exe: &Option<PathBuf>,
) -> (r: BridgeLocations)
    ensures
        r == spec_locations(*options, platform, *env_dir, *current_exe),
{
    let file_name = bridge_lib_file_name(platform);
    let exe_dir = match current_exe {
        Some(exe) => parent_path(exe),
        None => None,
    };
    let bundle_frameworks = match &exe_dir {
        Some(dir) => match parent_path(dir) {
            Some(contents) => {
                let is_contents = match file_name_text(&contents) {
                    Some(name) => {
                        proof {
                            reveal_strlit("Contents");
                        }
                        name == String::from_str("Contents")
                    },
                    None => false,
                };
                if platform == BridgePlatform::MacOs && is_contents {
                    let frameworks = join_path(&contents, "Frameworks");
                    Some(join_path(&frameworks, file_name))
                } else {
                    None
                }
            },
            None => None,
        },
        None => None,
    };
    BridgeLocations {
        explicit_dir_file: library_in_dir(&options.explicit_library_dir, file_name),
        env_dir_file: library_in_dir(env_dir, file_name),
        beside_executable: library_in_dir(&exe_dir, file_name),
        bundle_frameworks,
    }
}

/// Whether each search location is an existing file.
#[derive(Debug, Clone, Copy, Default, PartialEq, Eq)]
pub struct BridgePresence {
    pub explicit_path: bool,
    pub explicit_dir_file: bool,
    pub env_dir_file: bool,
    pub beside_executable: bool,
    pub bundle_frameworks: bool,
}

/// A location with whether it is an existing file.
pub open spec fn probe_of(path: Option<PathBuf>, is_file: bool) -> Option<BridgeProbe> {
    match path {
        Some(p) => Some(BridgeProbe { path: p, is_file }),
        None => None,
    }
}

/// The search that the locations and their presence make up.
pub open spec fn spec_search(locations: BridgeLocations, presence: BridgePresence) -> BridgeSearch {
    BridgeSearch {
        explicit_path_is_file: presence.explicit_path,
        explicit_dir_file: probe_of(locations.explicit_dir_file, presence.explicit_dir_file),
        env_dir_file: probe_of(locations.env_dir_file, presence.env_dir_file),
        beside_executable: probe_of(locations.beside_executable, presence.beside_executable),
        bundle_frameworks: probe_of(locations.bundle_frameworks, presence.bundle_frameworks),
    }
}

fn probe_location(path: Option<PathBuf>, is_file: bool) -> (r: Option<BridgeProbe>)
    ensures
        r == probe_of(path, is_file),
{
    match path {
        Some(p) => Some(BridgeProbe { path: p, is_file }),
        None => None,
    }
}

impl BridgeSearch {
    /// The search over the given locations, each found or not as `presence` says.
    pub fn from_locations(locations: BridgeLocations, presence: BridgePresence) -> (s: Self)
        ensures
            s == spec_search(locations, presence),
    {
        BridgeSearch {
            explicit_path_is_file: presence.explicit_path,
            explicit_dir_file: probe_location(locations.explicit_dir_file, presence.explicit_dir_file),
            env_dir_file: probe_location(locations.env_dir_file, presence.env_dir_file),
            beside_executable: probe_location(locations.beside_executable, presence.beside_executable),
            bundle_frameworks: probe_location(locations.bundle_frameworks, presence.bundle_frameworks),
        }
    }
}

/// The resolved bridge library path over the computed locations: the first of
/// the explicit file, the explicit directory's library file, the environment
/// directory's, the one next to the executable and the bundle's `Frameworks`
/// one that is an existing file.
pub open spec fn spec_resolve_at(
    options: BridgeLoadOptions,
    platform: BridgePlatform,
    env_dir: Option<PathBuf>,
    current_exe: Option<PathBuf>,
    presence: BridgePresence,
) -> Result<PathBuf, BridgeLoadError> {
    spec_resolve(options, spec_search(spec_locations(options, platform, env_dir, current_exe), presence))
}

/// Errors that can occur while locating or opening the bridge library.
#[derive(Debug, Clone, PartialEq, Eq)]
pub enum BridgeLoadError {
    /// No search location held the bridge library.
    PathNotFound,
    /// The library found at `path` could not be loaded.
    LoadLibrary { path: PathBuf },
}

/// A one-element or empty sequence of candidates.
pub open spec fn probe_seq(probe: Option<BridgeProbe>) -> Seq<BridgeProbe> {
    match probe {
        Some(p) => seq![p],
        None => Seq::empty(),
    }
}

/// The candidates in search order: the explicit file, the explicit
/// directory, the environment's directory, next to the executable, the
/// bundle's `Frameworks`.
pub open spec fn search_order(options: BridgeLoadOptions, search: BridgeSearch) -> Seq<BridgeProbe> {
    let explicit = match options.explicit_library_path {
        Some(path) => Some(BridgeProbe { path, is_file: search.explicit_path_is_file }),
        None => None,
    };
    probe_seq(explicit) + probe_seq(search.explicit_dir_file) + probe_seq(search.env_dir_file)
        + probe_seq(search.beside_executable) + probe_seq(search.bundle_frameworks)
}

/// `k` is the first candidate that is an existing file.
pub open spec fn is_first_existing(candidates: Seq<BridgeProbe>, k: int) -> bool {
    &&& 0 <= k < candidates.len()
    &&& candidates[k].is_file
    &&& forall|j: int| 0 <= j < k ==> !(#[trigger] candidates[j]).is_file
}

/// The resolved bridge library path: the first candidate that is an existing
/// file, or `PathNotFound` when none is.
pub open spec fn spec_resolve(options: BridgeLoadOptions, search: BridgeSearch) -> Result<PathBuf, BridgeLoadError> {
    let candidates = search_order(options, search);
    if exists|k: int| is_first_existing(candidates, k) {
        Ok(candidates[choose|k: int| is_first_existing(candidates, k)].path)
    } else {
        Err(BridgeLoadError::PathNotFound)
    }
}

fn copy_probe(probe: &BridgeProbe) -> (c: BridgeProbe)
    ensures
        c == *probe,
{
    BridgeProbe { path: probe.path.clone(), is_file: probe.is_file }
}

fn push_probe(candidates: &mut Vec<BridgeProbe>, probe: &Option<BridgeProbe>)
    ensures
        final(candidates)@ == old(candidates)@ + probe_seq(*probe),
{
    let ghost before = candidates@;
    match probe {
        Some(p) => {
            candidates.push(copy_probe(p));
            assert(before.push(*p) =~= before + seq![*p]);
        },
        None => {
            assert(before + Seq::<BridgeProbe>::empty() =~= before);
        },
    }
}

/// The bridge library candidates, in search order.
pub fn bridge_library_candidates(options: &BridgeLoadOptions, search: &BridgeSearch) -> (r: Vec<BridgeProbe>)
    ensures
        r@ == search_order(*options, *search),
{
    let mut candidates: Vec<BridgeProbe> = Vec::new();
    let explicit = match &options.explicit_library_path {
        Some(path) => Some(BridgeProbe { path: path.clone(), is_file: search.explicit_path_is_file }),
        None => None,
    };
    push_probe(&mut candidates, &explicit);
    push_probe(&mut candidates, &search.explicit_dir_file);
    push_probe(&mut candidates, &search.env_dir_file);
    push_probe(&mut candidates, &search.beside_executable);
    push_probe(&mut candidates, &search.bundle_frameworks);
    assert(candidates@ =~= search_order(*options, *search));
    candidates
}

/// The index of the first candidate that is an existing file, if any.
pub fn first_existing(candidates: &Vec<BridgeProbe>) -> (k: Option<usize>)
    ensures
        match k {
            Some(k) => is_first_existing(candidates@, k as int),
            None => forall|j: int| 0 <= j < candidates.len() ==> !(#[trigger] candidates@[j]).is_file,
        },
{
    let mut k: usize = 0;
    while k < candidates.len()
        invariant
            k <= candidates.len(),
            forall|j: int| 0 <= j < k ==> !(#[trigger] candidates@[j]).is_file,
        decreases candidates.len() - k,
    {
        if candidates[k].is_file {
            return Some(k);
        }
        k = k + 1;
    }
    None
}

/// Resolve the bridge library path: the explicit file if it exists, then the
/// library file in the explicit directory, then in `CBF_BRIDGE_LIB_DIR`, then
/// next to the executable, then in the bundle's `Frameworks`. The first
/// existing file wins; when there is none, `PathNotFound`.
pub fn resolve_bridge_library_path(options: &BridgeLoadOptions, search: &BridgeSearch) -> (r: Result<PathBuf, BridgeLoadError>)
    ensures
        r == spec_resolve(*options, *search),
{
    let candidates = bridge_library_candidates(options, search);
    match first_existing(&candidates) {
        Some(k) => {
            proof {
                let c = candidates@;
                assert forall|a: int, b: int| is_first_existing(c, a) && is_first_existing(c, b) implies a == b by {
                    if a < b {
                        assert(!c[a].is_file);
                    } else if b < a {
                        assert(!c[b].is_file);
                    }
                }
                assert(is_first_existing(c, k as int));
            }
            Ok(candidates[k].path.clone())
        },
        None => {
            proof {
                assert forall|k: int| !is_first_existing(candidates@, k) by {
                    if 0 <= k < candidates@.len() {
                        assert(!candidates@[k].is_file);
                    }
                }
            }
            Err(BridgeLoadError::PathNotFound)
        },
    }
}

/// Resolve the bridge library path from the options, the platform, the
/// directory named by `CBF_BRIDGE_LIB_DIR`, the running executable, and which
/// of the locations that these give are existing files (`presence`, as found
/// for `bridge_library_locations` of the same inputs).
pub fn resolve_bridge_library_path_at(
    options: &BridgeLoadOptions,
    platform: BridgePlatform,
    env_dir: &Option<PathBuf>,
    current_exe: &Option<PathBuf>,
    presence: BridgePresence,
) -> (r: Result<PathBuf, BridgeLoadError>)
    ensures
        r == spec_resolve_at(*options, platform, *env_dir, *current_exe, presence),
{
    let locations = bridge_library_locations(options, platform, env_dir, current_exe);
    let search = BridgeSearch::from_locations(locations, presence);
    resolve_bridge_library_path(options, &search)
}

/// A loaded bridge library, known by the file it was loaded from.
#[derive(Debug)]
pub struct BridgeLibrary {
    library_path: PathBuf,
}

impl BridgeLibrary {
    /// The file the library was loaded from.
    pub closed spec fn spec_library_path(self) -> PathBuf {
        self.library_path
    }

    /// Record a library loaded from `library_path`.
    pub fn loaded_from(library_path: PathBuf) -> (l: Self)
        ensures
            l.spec_library_path() == library_path,
    {
        BridgeLibrary { library_path }
    }

    /// Load the bridge library: resolve its path, then record the library
    /// opened from it. `opened` tells whether the dynamic loader opened the
    /// resolved file with every symbol the bridge needs. The path of a loaded
    /// library is always the resolved path.
    pub fn load(options: &BridgeLoadOptions, search: &BridgeSearch, opened: bool) -> (r: Result<Self, BridgeLoadError>)
        ensures
            match spec_resolve(*options, *search) {
                Err(e) => r == Err::<Self, BridgeLoadError>(e),
                Ok(path) => if opened {
                    r matches Ok(lib) && lib.spec_library_path() == path
                } else {
                    r == Err::<Self, BridgeLoadError>(BridgeLoadError::LoadLibrary { path })
                },
            },
            r matches Ok(lib) ==> spec_resolve(*options, *search) == Ok::<PathBuf, BridgeLoadError>(lib.spec_library_path()),
    {
        let path = resolve_bridge_library_path(options, search)?;
        if opened {
            Ok(BridgeLibrary::loaded_from(path))
        } else {
            Err(BridgeLoadError::LoadLibrary { path })
        }
    }

    /// The resolved file path of the loaded bridge library.
    pub fn library_path(&self) -> (p: &PathBuf)
        ensures
            *p == self.spec_library_path(),
    {
        &self.library_path
    }
}

} // verus!
