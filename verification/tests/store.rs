use std::collections::HashMap;

use onelauncher_core::client::{
    cache_entry_id, cache_file_name, find_version, id_text, load_manifests, parse_id, read_index,
    ClientManager, ClientType, CreateError, Instance, Manifest, VanillaClientProps, Version,
};
use onelauncher_core::wire::from_document;
use onelauncher_core::json::{parse_document, write_document, JsonValue};
use onelauncher_core::launch::{InvalidReason, LaunchError};
use onelauncher_core::login::{login_step, LoginStep, LOGIN_POLL_MS, LOGIN_TIMEOUT_MS};
use onelauncher_core::manifest::{MinecraftManifest, ReleaseType};
use onelauncher_core::menu::{cluster_locked_events, handle_menu_event, MenuAction, MenuEvent};
use onelauncher_core::program::get_program_info;
use onelauncher_core::skin::{
    copy_skins, find_current, find_skin, MinecraftSkin, SkinController, SkinError,
};
use onelauncher_core::utils::chain_iterator;

fn skin(id: u128, current: bool) -> MinecraftSkin {
    MinecraftSkin {
        id,
        name: format!("skin {}", id),
        src: format!("https://skins.example/{}", id),
        current,
    }
}

fn client() -> ClientType {
    ClientType::Vanilla(VanillaClientProps { version: "1.20.4".to_string() })
}

#[test]
fn chain_keeps_required_then_present_optional_items() {
    assert_eq!(chain_iterator(vec![1, 2], vec![Some(3), None, Some(4), None]), vec![1, 2, 3, 4]);
    assert_eq!(chain_iterator(Vec::<u8>::new(), vec![None, None]), Vec::<u8>::new());
    assert_eq!(chain_iterator(vec!["a".to_string()], vec![]), vec!["a".to_string()]);
    assert_eq!(chain_iterator(vec![], vec![Some('x')]), vec!['x']);
}

#[test]
fn identifiers_are_read_and_written() {
    let id = 0xa1a2a3a4_b1b2_c1c2_d1d2_d3d4d5d6d7d8u128;
    assert_eq!(id_text(id), "a1a2a3a4-b1b2-c1c2-d1d2-d3d4d5d6d7d8");
    assert_eq!(parse_id("a1a2a3a4-b1b2-c1c2-d1d2-d3d4d5d6d7d8"), Some(id));
    assert_eq!(parse_id("a1a2a3a4b1b2c1c2d1d2d3d4d5d6d7d8"), Some(id));
    assert_eq!(parse_id("A1A2A3A4-B1B2-C1C2-D1D2-D3D4D5D6D7D8"), Some(id));
    assert_eq!(parse_id("not an id"), None);
    assert_eq!(parse_id(""), None);
    assert_eq!(parse_id(&id_text(0)), Some(0));
    assert_eq!(parse_id(&id_text(u128::MAX)), Some(u128::MAX));
}

#[test]
fn cache_files_are_named_by_identifier() {
    let id = 0x550e8400_e29b_41d4_a716_446655440000u128;
    assert_eq!(cache_file_name(id), "550e8400-e29b-41d4-a716-446655440000.json");
    assert_eq!(cache_entry_id("550e8400-e29b-41d4-a716-446655440000.json"), Some(id));
    assert_eq!(cache_entry_id("550e8400-e29b-41d4-a716-446655440000"), Some(id));
    assert_eq!(cache_entry_id(&cache_file_name(id)), Some(id));
    assert_eq!(cache_entry_id("versions_cache.json"), None);
    assert_eq!(cache_entry_id(".json"), None);
}

#[test]
fn version_is_found_by_identifier() {
    let version = |id: &str, url: &str| Version {
        id: id.to_string(),
        url: url.to_string(),
        release_type: ReleaseType::Release,
        release_time: "2023-12-07T12:56:20+00:00".to_string(),
    };
    let index = vec![version("1.20.4", "u1"), version("1.8.9", "u2"), version("1.20.4", "u3")];
    assert_eq!(find_version(&index, "1.8.9").unwrap().url, "u2");
    assert_eq!(find_version(&index, "1.20.4").unwrap().url, "u1");
    assert_eq!(find_version(&index, "1.0"), None);
    assert_eq!(find_version(&vec![], "1.0"), None);
}

const LEGACY: &str = r#"{
  "assetIndex": {"id": "1.8", "sha1": "aa", "url": "https://a/1.8.json"},
  "downloads": {"client": {"sha1": "cc", "url": "https://c/client.jar"}},
  "id": "1.8.9",
  "javaVersion": {"majorVersion": 8},
  "libraries": [],
  "mainClass": "net.minecraft.client.main.Main",
  "minecraftArguments": "--username ${auth_player_name}",
  "releaseTime": "2015-12-03T09:24:39+00:00",
  "type": "release"
}"#;

fn index() -> Vec<Version> {
    let version = |id: &str, url: &str| Version {
        id: id.to_string(),
        url: url.to_string(),
        release_type: ReleaseType::Release,
        release_time: String::new(),
    };
    vec![version("1.20.4", "u1"), version("1.8.9", "u2"), version("1.20.4", "u3")]
}

#[test]
fn unknown_version_and_unreadable_document_make_no_instance() {
    let mut manager = ClientManager::new(HashMap::new(), HashMap::new());
    let document = parse_document(LEGACY).unwrap();
    assert_eq!(
        manager.create_instance(
            &index(),
            "1.0",
            &document,
            7,
            1,
            "First".to_string(),
            None,
            None,
            client()
        ),
        Err(CreateError::VersionNotFound)
    );
    assert_eq!(
        manager.create_instance(
            &index(),
            "1.0",
            &JsonValue::Null,
            7,
            1,
            "First".to_string(),
            None,
            None,
            client()
        ),
        Err(CreateError::VersionNotFound)
    );
    assert_eq!(
        manager.create_instance(
            &index(),
            "1.8.9",
            &JsonValue::Null,
            7,
            1,
            "First".to_string(),
            None,
            None,
            client()
        ),
        Err(CreateError::InvalidManifest(InvalidReason::WrongShape))
    );
    assert_eq!(
        manager.create_instance(
            &index(),
            "1.8.9",
            &JsonValue::Object(vec![]),
            7,
            1,
            "First".to_string(),
            None,
            None,
            client()
        ),
        Err(CreateError::InvalidManifest(InvalidReason::MissingField))
    );
    assert!(manager.instances.is_empty());
    assert!(manager.manifests.is_empty());
    assert_eq!(CreateError::VersionNotFound.describe(), "Version not found");
    assert_eq!(
        CreateError::InvalidManifest(InvalidReason::MissingField).describe(),
        "invalid manifest: a required field is missing"
    );
}

#[test]
fn cache_map_is_built_from_the_files() {
    let record = |id: u128, main: &str| {
        let mut manifest = from_document(&parse_document(LEGACY).unwrap()).unwrap();
        manifest.main_class = main.to_string();
        Manifest { id, manifest }
    };
    let one = 0x550e8400_e29b_41d4_a716_446655440000u128;
    let two = 0x550e8400_e29b_41d4_a716_446655440001u128;
    let files = vec![
        (cache_file_name(one), record(one, "a.Main").to_document()),
        ("versions_cache.json".to_string(), JsonValue::Null),
        (cache_file_name(two), record(two, "b.Main").to_document()),
        (id_text(one), record(two, "c.Main").to_document()),
    ];
    let map = load_manifests(&files).unwrap();
    assert_eq!(map.len(), 2);
    assert_eq!(map.get(&one), Some(&record(two, "c.Main")));
    assert_eq!(map.get(&two), Some(&record(two, "b.Main")));
    assert_eq!(load_manifests(&vec![]), Ok(HashMap::new()));
    let bad = vec![
        (cache_file_name(one), record(one, "a.Main").to_document()),
        (cache_file_name(two), JsonValue::Object(vec![])),
        (cache_file_name(one), JsonValue::Null),
    ];
    assert_eq!(
        load_manifests(&bad),
        Err(LaunchError::InvalidManifest(InvalidReason::MissingField))
    );
}

#[test]
fn manager_registers_and_finds_instances() {
    let mut manager = ClientManager::new(HashMap::new(), HashMap::new());
    assert!(manager.get_instances().is_empty());
    assert!(manager.get_instance(7).is_none());
    assert!(manager.get_manifest(7).is_none());
    let index = index();
    let document = parse_document(LEGACY).unwrap();
    let manifest = from_document(&document).unwrap();
    assert_eq!(
        manager.create_instance(
            &index,
            "1.8.9",
            &document,
            7,
            1_700_000_000_000,
            "First".to_string(),
            Some("cover.png".to_string()),
            None,
            client(),
        ),
        Ok(7)
    );
    assert_eq!(
        manager.create_instance(
            &index,
            "1.20.4",
            &document,
            9,
            1_700_000_000_001,
            "Second".to_string(),
            None,
            Some(7),
            client(),
        ),
        Ok(9)
    );
    assert_eq!(
        manager.get_instance(7),
        Some(&Instance {
            id: 7,
            created_at: 1_700_000_000_000,
            name: "First".to_string(),
            cover: Some("cover.png".to_string()),
            group: None,
            client: client(),
        })
    );
    assert_eq!(manager.get_manifest(7), Some(&Manifest { id: 7, manifest }));
    assert_eq!(manager.get_instance(9).unwrap().group, Some(7));
    assert!(manager.get_instance(8).is_none());
    let mut names: Vec<String> =
        manager.get_instances().iter().map(|i| i.name.clone()).collect();
    names.sort();
    assert_eq!(names, vec!["First".to_string(), "Second".to_string()]);
    let mut owned = manager.get_instances_owned();
    owned.sort_by_key(|i| i.id);
    assert_eq!(owned.len(), 2);
    assert_eq!(Some(&owned[0]), manager.get_instance(7));
    assert_eq!(Some(&owned[1]), manager.get_instance(9));
    assert_eq!(owned[0].duplicate(), owned[0]);
}

#[test]
fn skins_of_a_profile() {
    let mut store = SkinController::new();
    assert_eq!(store.get_profile_skins(1), Err(SkinError::ProfileNotFound));
    store.add_profile(1);
    assert_eq!(store.get_profile_skins(1), Ok(vec![]));
    store.add_skin(1, skin(10, false));
    store.add_skin(1, skin(11, true));
    assert_eq!(store.get_profile_skins(1), Ok(vec![skin(10, false), skin(11, true)]));
    assert_eq!(store.get_skin(1, 11), Ok(skin(11, true)));
    assert_eq!(store.get_skin(1, 12), Err(SkinError::SkinNotFound));
    assert_eq!(store.get_skin(2, 11), Err(SkinError::SkinNotFound));
    let all = store.get_skins();
    assert_eq!(all.len(), 1);
    assert_eq!(all.get(&1), Some(&vec![skin(10, false), skin(11, true)]));
    store.add_profile(1);
    assert_eq!(store.get_profile_skins(1), Ok(vec![]));
}

#[test]
fn wearing_a_skin() {
    let mut store = SkinController::initialize(&vec![
        (1, vec![skin(10, true), skin(11, false), skin(12, true)]),
        (2, vec![skin(20, true)]),
    ]);
    assert_eq!(store.get_current_skin(1), Ok(Some(skin(10, true))));
    assert_eq!(store.set_skin(1, &skin(11, false)), Ok(()));
    assert_eq!(
        store.get_profile_skins(1),
        Ok(vec![skin(10, false), skin(11, true), skin(12, false)])
    );
    assert_eq!(store.get_current_skin(1), Ok(Some(skin(11, true))));
    assert_eq!(store.get_profile_skins(2), Ok(vec![skin(20, true)]));
    assert_eq!(store.set_skin(1, &skin(99, false)), Err(SkinError::SkinNotFound));
    assert_eq!(store.set_skin(3, &skin(11, false)), Err(SkinError::SavingFailed));
    assert_eq!(
        store.get_profile_skins(1),
        Ok(vec![skin(10, false), skin(11, true), skin(12, false)])
    );
    assert_eq!(store.get_current_skin(3), Err(SkinError::NoCurrentSkin));
    store.add_profile(3);
    assert_eq!(store.get_current_skin(3), Ok(None));
}

#[test]
fn removing_a_skin() {
    let mut store =
        SkinController::initialize(&vec![(1, vec![skin(10, false), skin(11, true), skin(10, true)])]);
    assert_eq!(store.remove_skin(1, 10), Ok(()));
    assert_eq!(store.get_profile_skins(1), Ok(vec![skin(11, true), skin(10, true)]));
    assert_eq!(store.remove_skin(1, 12), Err(SkinError::SkinNotFound));
    assert_eq!(store.remove_skin(2, 10), Err(SkinError::RemovingFailed));
    assert_eq!(store.get_profile_skins(1), Ok(vec![skin(11, true), skin(10, true)]));
}

#[test]
fn later_library_of_a_profile_counts() {
    let store = SkinController::initialize(&vec![(1, vec![skin(10, false)]), (1, vec![skin(11, false)])]);
    assert_eq!(store.get_profile_skins(1), Ok(vec![skin(11, false)]));
    assert_eq!(store.skins.len(), 1);
}

#[test]
fn skin_helpers() {
    let skins = vec![skin(1, false), skin(2, true), skin(2, false)];
    assert_eq!(find_skin(&skins, 2), Some(1));
    assert_eq!(find_skin(&skins, 3), None);
    assert_eq!(find_current(&skins), Some(1));
    assert_eq!(find_current(&vec![skin(1, false)]), None);
    assert_eq!(copy_skins(&skins), skins);
    assert_eq!(skins[0].duplicate(), skins[0]);
}

#[test]
fn skin_error_messages() {
    assert_eq!(SkinError::ProfileNotFound.message(), "Profile not found");
    assert_eq!(SkinError::SkinNotFound.message(), "Skin not found");
    assert_eq!(SkinError::SavingFailed.message(), "Error saving skin");
    assert_eq!(SkinError::RemovingFailed.message(), "Error removing skin");
    assert_eq!(SkinError::NoCurrentSkin.message(), "Error getting current skin");
}

#[test]
fn menu_events_and_their_identifiers() {
    let all = [
        (MenuEvent::NewCluster, "NewCluster"),
        (MenuEvent::AddMod, "AddMod"),
        (MenuEvent::OpenMods, "OpenMods"),
        (MenuEvent::OpenScreenshots, "OpenScreenshots"),
        (MenuEvent::OpenSettings, "OpenSettings"),
        (MenuEvent::ReloadWebview, "ReloadWebview"),
        (MenuEvent::ToggleDeveloperTools, "ToggleDeveloperTools"),
    ];
    for (event, id) in all {
        assert_eq!(event.as_ref(), id);
        assert_eq!(MenuEvent::from_id(id), Some(event));
    }
    assert_eq!(MenuEvent::from_id("newcluster"), None);
    assert_eq!(MenuEvent::from_id(""), None);
}

#[test]
fn menu_events_and_what_they_do() {
    assert_eq!(handle_menu_event(MenuEvent::NewCluster), MenuAction::EmitKeybind("new_cluster"));
    assert_eq!(handle_menu_event(MenuEvent::AddMod), MenuAction::EmitKeybind("add_mod"));
    assert_eq!(handle_menu_event(MenuEvent::OpenMods), MenuAction::EmitKeybind("open_mods"));
    assert_eq!(
        handle_menu_event(MenuEvent::OpenScreenshots),
        MenuAction::EmitKeybind("open_screenshots")
    );
    assert_eq!(
        handle_menu_event(MenuEvent::OpenSettings),
        MenuAction::EmitKeybind("open_settings")
    );
    assert_eq!(handle_menu_event(MenuEvent::ReloadWebview), MenuAction::ReloadWebview);
    assert_eq!(
        handle_menu_event(MenuEvent::ToggleDeveloperTools),
        MenuAction::ToggleDeveloperTools
    );
    assert_eq!(
        cluster_locked_events(),
        vec![MenuEvent::AddMod, MenuEvent::OpenMods, MenuEvent::OpenScreenshots]
    );
    assert!(MenuEvent::AddMod.is_cluster_locked());
    assert!(MenuEvent::OpenMods.is_cluster_locked());
    assert!(MenuEvent::OpenScreenshots.is_cluster_locked());
    assert!(!MenuEvent::NewCluster.is_cluster_locked());
    assert!(!MenuEvent::OpenSettings.is_cluster_locked());
}

#[test]
fn login_steps() {
    let done = "https://login.live.com/oauth20_desktop.srf?code=M.C1&lc=1033";
    let code = Some("M.C1".to_string());
    assert_eq!(LOGIN_TIMEOUT_MS, 10 * 60 * 1000);
    assert_eq!(LOGIN_POLL_MS, 50);
    assert_eq!(login_step(0, true, done, code.clone()), LoginStep::Finish("M.C1".to_string()));
    assert_eq!(login_step(599_999, true, done, code.clone()), LoginStep::Finish("M.C1".to_string()));
    assert_eq!(login_step(600_000, true, done, code.clone()), LoginStep::TimedOut);
    assert_eq!(login_step(600_000, false, done, code.clone()), LoginStep::TimedOut);
    assert_eq!(login_step(10, false, done, code.clone()), LoginStep::Closed);
    assert_eq!(login_step(10, true, done, None), LoginStep::Wait);
    assert_eq!(
        login_step(10, true, "https://login.live.com/oauth20_authorize.srf?code=x", code.clone()),
        LoginStep::Wait
    );
    assert_eq!(login_step(10, true, "", code), LoginStep::Wait);
}

#[test]
fn program_info_names_an_unknown_webview() {
    let info = get_program_info("1.0.0", None, "2.0.0", true, "linux", "x86_64");
    assert_eq!(info.launcher_version, "1.0.0");
    assert_eq!(info.webview_version, "UNKNOWN");
    assert_eq!(info.tauri_version, "2.0.0");
    assert!(info.dev_build);
    assert_eq!(info.platform, "linux");
    assert_eq!(info.arch, "x86_64");
    let known = get_program_info("1.0.0", Some("120.1".to_string()), "2.0.0", false, "osx", "arm64");
    assert_eq!(known.webview_version, "120.1");
    assert!(!known.dev_build);
}

#[test]
fn version_index_is_read() {
    let doc = parse_document(
        r#"[
            {"id": "1.20.4", "type": "release", "url": "https://v/1.20.4.json",
             "time": "2023-12-07T12:56:20+00:00", "releaseTime": "2023-12-07T12:56:20+00:00"},
            {"id": "b1.7.3", "type": "old-beta", "url": "https://v/b1.7.3.json"},
            {"id": "23w51b", "url": "https://v/23w51b.json"}
        ]"#,
    )
    .unwrap();
    let index = read_index(&doc).unwrap();
    assert_eq!(
        index,
        vec![
            Version {
                id: "1.20.4".to_string(),
                url: "https://v/1.20.4.json".to_string(),
                release_type: ReleaseType::Release,
                release_time: "2023-12-07T12:56:20+00:00".to_string(),
            },
            Version {
                id: "b1.7.3".to_string(),
                url: "https://v/b1.7.3.json".to_string(),
                release_type: ReleaseType::OldBeta,
                release_time: String::new(),
            },
            Version {
                id: "23w51b".to_string(),
                url: "https://v/23w51b.json".to_string(),
                release_type: ReleaseType::Release,
                release_time: String::new(),
            },
        ]
    );
    assert_eq!(find_version(&index, "b1.7.3").unwrap().url, "https://v/b1.7.3.json");
    assert_eq!(read_index(&JsonValue::List(vec![])), Ok(vec![]));
    assert_eq!(
        read_index(&JsonValue::Object(vec![])),
        Err(LaunchError::InvalidManifest(InvalidReason::WrongShape))
    );
    assert_eq!(
        read_index(&parse_document(r#"[{"id": "1.0"}]"#).unwrap()),
        Err(LaunchError::InvalidManifest(InvalidReason::MissingField))
    );
    assert_eq!(
        read_index(&parse_document(r#"[{"id": "1.0", "url": "u", "releaseTime": null}]"#).unwrap()),
        Err(LaunchError::InvalidManifest(InvalidReason::WrongShape))
    );
    assert_eq!(
        read_index(&parse_document(r#"[{"id": "1.0", "url": 3}]"#).unwrap()),
        Err(LaunchError::InvalidManifest(InvalidReason::WrongShape))
    );
}

#[test]
fn manifest_record_of_the_cache() {
    let mut manifest = MinecraftManifest::default();
    manifest.version = "1.8.9".to_string();
    manifest.minecraft_arguments = Some("--demo".to_string());
    let record = Manifest { id: 0x550e8400_e29b_41d4_a716_446655440000u128, manifest };
    let doc = record.to_document();
    let text = write_document(&doc).unwrap();
    assert!(text.starts_with(r#"{"id":"550e8400-e29b-41d4-a716-446655440000","manifest":{"#));
    assert_eq!(Manifest::from_document(&parse_document(&text).unwrap()), Ok(record.clone()));
    assert_eq!(Manifest::from_document(&doc), Ok(record));
    assert_eq!(
        Manifest::from_document(&parse_document(r#"{"id": "nobody", "manifest": {}}"#).unwrap()),
        Err(LaunchError::InvalidManifest(InvalidReason::WrongShape))
    );
    assert_eq!(
        Manifest::from_document(&parse_document(r#"{"manifest": {}}"#).unwrap()),
        Err(LaunchError::InvalidManifest(InvalidReason::MissingField))
    );
    assert_eq!(
        Manifest::from_document(
            &parse_document(r#"{"id": "550e8400-e29b-41d4-a716-446655440000"}"#).unwrap()
        ),
        Err(LaunchError::InvalidManifest(InvalidReason::MissingField))
    );
    assert_eq!(
        Manifest::from_document(&JsonValue::Null),
        Err(LaunchError::InvalidManifest(InvalidReason::WrongShape))
    );
}

#[test]
fn errors_in_words() {
    assert_eq!(
        LaunchError::InvalidManifest(InvalidReason::MissingMainClass).describe(),
        "invalid manifest: the main class is missing"
    );
    assert_eq!(
        LaunchError::InvalidManifest(InvalidReason::NotJson).describe(),
        "invalid manifest: the text is no JSON document"
    );
    assert_eq!(LaunchError::UnsupportedHost.describe(), "this version is incompatible with your OS");
    assert_eq!(LaunchError::AssetMissing("/a/b.jar".to_string()).describe(), "missing file: /a/b.jar");
    assert_eq!(InvalidReason::MissingField.describe(), "a required field is missing");
    assert_eq!(InvalidReason::WrongShape.describe(), "a field has the wrong shape");
    assert_eq!(InvalidReason::BothArgumentForms.describe(), "both argument forms are present");
    assert_eq!(InvalidReason::NoArguments.describe(), "no argument form is present");
    assert_eq!(InvalidReason::MissingAssetIndex.describe(), "the asset index is missing");
}
