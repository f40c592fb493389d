use std::path::PathBuf;

use cbf_chrome::bridge_library::{
    bridge_lib_file_name, bridge_library_candidates, bridge_library_locations, first_existing,
    resolve_bridge_library_path, resolve_bridge_library_path_at, BridgeLibrary, BridgeLoadError,
    BridgeLoadOptions, BridgePlatform, BridgePresence, BridgeProbe, BridgeSearch,
};

fn probe(path: &str, is_file: bool) -> Option<BridgeProbe> {
    Some(BridgeProbe { path: PathBuf::from(path), is_file })
}

fn everywhere() -> BridgeSearch {
    BridgeSearch {
        explicit_path_is_file: true,
        explicit_dir_file: probe("/dir/libcbf_bridge.dylib", true),
        env_dir_file: probe("/env/libcbf_bridge.dylib", true),
        beside_executable: probe("/app/MacOS/libcbf_bridge.dylib", true),
        bundle_frameworks: probe("/app/Frameworks/libcbf_bridge.dylib", true),
    }
}

#[test]
fn explicit_existing_file_wins() {
    let options = BridgeLoadOptions::default().with_explicit_library_path(PathBuf::from("/x/lib.dylib"));
    assert_eq!(
        resolve_bridge_library_path(&options, &everywhere()),
        Ok(PathBuf::from("/x/lib.dylib"))
    );
}

#[test]
fn missing_explicit_file_falls_back_to_the_explicit_directory() {
    let options = BridgeLoadOptions::default().with_explicit_library_path(PathBuf::from("/x/lib.dylib"));
    let search = BridgeSearch { explicit_path_is_file: false, ..everywhere() };
    assert_eq!(
        resolve_bridge_library_path(&options, &search),
        Ok(PathBuf::from("/dir/libcbf_bridge.dylib"))
    );
}

#[test]
fn search_falls_through_to_the_bundle_frameworks() {
    let search = BridgeSearch {
        explicit_path_is_file: false,
        explicit_dir_file: probe("/dir/libcbf_bridge.dylib", false),
        env_dir_file: None,
        beside_executable: probe("/app/MacOS/libcbf_bridge.dylib", false),
        bundle_frameworks: probe("/app/Frameworks/libcbf_bridge.dylib", true),
    };
    let options = BridgeLoadOptions::default();
    assert_eq!(
        resolve_bridge_library_path(&options, &search),
        Ok(PathBuf::from("/app/Frameworks/libcbf_bridge.dylib"))
    );
}

#[test]
fn nothing_found_is_path_not_found() {
    let search = BridgeSearch { env_dir_file: probe("/env/libcbf_bridge.dylib", false), ..BridgeSearch::default() };
    assert_eq!(
        resolve_bridge_library_path(&BridgeLoadOptions::default(), &search),
        Err(BridgeLoadError::PathNotFound)
    );
    assert!(matches!(
        BridgeLibrary::load(&BridgeLoadOptions::default(), &search, true),
        Err(BridgeLoadError::PathNotFound)
    ));
}

#[test]
fn candidates_come_in_search_order() {
    let options = BridgeLoadOptions::default().with_explicit_library_path(PathBuf::from("/x/lib.dylib"));
    let candidates = bridge_library_candidates(&options, &everywhere());
    let paths: Vec<PathBuf> = candidates.iter().map(|c| c.path.clone()).collect();
    assert_eq!(
        paths,
        vec![
            PathBuf::from("/x/lib.dylib"),
            PathBuf::from("/dir/libcbf_bridge.dylib"),
            PathBuf::from("/env/libcbf_bridge.dylib"),
            PathBuf::from("/app/MacOS/libcbf_bridge.dylib"),
            PathBuf::from("/app/Frameworks/libcbf_bridge.dylib"),
        ]
    );
    assert_eq!(first_existing(&candidates), Some(0));
    let none: Vec<BridgeProbe> = vec![BridgeProbe { path: PathBuf::from("/a"), is_file: false }];
    assert_eq!(first_existing(&none), None);
}

#[test]
fn loaded_library_path_is_the_resolved_path() {
    let search = BridgeSearch { explicit_dir_file: None, ..everywhere() };
    let options = BridgeLoadOptions::default();
    let resolved = resolve_bridge_library_path(&options, &search).unwrap();
    let library = BridgeLibrary::load(&options, &search, true).unwrap();
    assert_eq!(library.library_path(), &resolved);
    assert_eq!(resolved, PathBuf::from("/env/libcbf_bridge.dylib"));
}

#[test]
fn library_that_fails_to_open_reports_its_path() {
    let search = BridgeSearch { explicit_dir_file: None, env_dir_file: None, ..everywhere() };
    assert_eq!(
        BridgeLibrary::load(&BridgeLoadOptions::default(), &search, false).err(),
        Some(BridgeLoadError::LoadLibrary { path: PathBuf::from("/app/MacOS/libcbf_bridge.dylib") })
    );
}


fn bundle_exe() -> Option<PathBuf> {
    Some(PathBuf::from("/Apps/Foo.app/Contents/MacOS/foo"))
}

#[test]
fn platform_file_names() {
    assert_eq!(bridge_lib_file_name(BridgePlatform::MacOs), "libcbf_bridge.dylib");
    assert_eq!(bridge_lib_file_name(BridgePlatform::Linux), "libcbf_bridge.so");
    assert_eq!(bridge_lib_file_name(BridgePlatform::Windows), "cbf_bridge.dll");
}

#[test]
fn locations_join_the_library_file_to_each_directory() {
    let options = BridgeLoadOptions::default().with_explicit_library_dir(PathBuf::from("/opt/x"));
    let env_dir = Some(PathBuf::from("/env"));
    let locations = bridge_library_locations(&options, BridgePlatform::MacOs, &env_dir, &bundle_exe());
    assert_eq!(locations.explicit_dir_file, Some(PathBuf::from("/opt/x/libcbf_bridge.dylib")));
    assert_eq!(locations.env_dir_file, Some(PathBuf::from("/env/libcbf_bridge.dylib")));
    assert_eq!(
        locations.beside_executable,
        Some(PathBuf::from("/Apps/Foo.app/Contents/MacOS/libcbf_bridge.dylib"))
    );
    assert_eq!(
        locations.bundle_frameworks,
        Some(PathBuf::from("/Apps/Foo.app/Contents/Frameworks/libcbf_bridge.dylib"))
    );
}

#[test]
fn bundle_frameworks_only_inside_contents_on_macos() {
    let options = BridgeLoadOptions::default();
    let linux = bridge_library_locations(&options, BridgePlatform::Linux, &None, &bundle_exe());
    assert_eq!(linux.bundle_frameworks, None);
    assert_eq!(
        linux.beside_executable,
        Some(PathBuf::from("/Apps/Foo.app/Contents/MacOS/libcbf_bridge.so"))
    );
    let plain = bridge_library_locations(
        &options,
        BridgePlatform::MacOs,
        &None,
        &Some(PathBuf::from("/usr/bin/foo")),
    );
    assert_eq!(plain.bundle_frameworks, None);
    assert_eq!(plain.explicit_dir_file, None);
    assert_eq!(plain.env_dir_file, None);
    let unknown = bridge_library_locations(&options, BridgePlatform::MacOs, &None, &None);
    assert_eq!(unknown.beside_executable, None);
    assert_eq!(unknown.bundle_frameworks, None);
}

#[test]
fn resolution_picks_the_first_present_location() {
    let options = BridgeLoadOptions::default().with_explicit_library_dir(PathBuf::from("/opt/x"));
    let env_dir = Some(PathBuf::from("/env"));
    let presence = BridgePresence { env_dir_file: true, bundle_frameworks: true, ..BridgePresence::default() };
    assert_eq!(
        resolve_bridge_library_path_at(&options, BridgePlatform::MacOs, &env_dir, &bundle_exe(), presence),
        Ok(PathBuf::from("/env/libcbf_bridge.dylib"))
    );
    let bundle_only = BridgePresence { bundle_frameworks: true, ..BridgePresence::default() };
    assert_eq!(
        resolve_bridge_library_path_at(&options, BridgePlatform::MacOs, &env_dir, &bundle_exe(), bundle_only),
        Ok(PathBuf::from("/Apps/Foo.app/Contents/Frameworks/libcbf_bridge.dylib"))
    );
    assert_eq!(
        resolve_bridge_library_path_at(&options, BridgePlatform::MacOs, &env_dir, &bundle_exe(), BridgePresence::default()),
        Err(BridgeLoadError::PathNotFound)
    );
}
