use onelauncher_core::host::HostSnapshot;
use onelauncher_core::launch::{
    Download, InstallRoots, InvalidReason, LaunchError, LaunchIdentity, LocalFile, LoggingPlan,
    NativeEntry,
};
use onelauncher_core::manifest::{
    ArgumentRule, Artifact, AssetIndex, Classifiers, Client, Client2, Downloads, Extract, File,
    JavaVersion, Library, LibraryDownload, Logging, MinecraftManifest, ModernArguments,
    ModernArgumentsItem, Os, ReleaseType, Rule, RuleAction,
};
use onelauncher_core::planner::{
    check_manifest, library_key, native_classifier_key, plan, plan_strict, release_type_text,
};

fn host(os: &str, arch: &str) -> HostSnapshot {
    HostSnapshot {
        os_name: os.to_string(),
        arch: arch.to_string(),
        os_version: "1.0".to_string(),
        features: vec![],
    }
}

fn roots() -> InstallRoots {
    InstallRoots {
        libraries_dir: "/mc/libraries".to_string(),
        natives_dir: "/mc/natives/one".to_string(),
        assets_dir: "/mc/assets".to_string(),
        game_dir: "/mc/game".to_string(),
        client_jar_path: "/mc/versions/client.jar".to_string(),
    }
}

fn identity() -> LaunchIdentity {
    LaunchIdentity {
        auth_player_name: "alice".to_string(),
        auth_uuid: "0123".to_string(),
        auth_access_token: "token".to_string(),
        user_type: "msa".to_string(),
        launcher_name: "OneLauncher".to_string(),
        launcher_version: "1.0.0".to_string(),
        user_properties: None,
    }
}

fn artifact(path: &str) -> Artifact {
    Artifact {
        path: path.to_string(),
        sha1: format!("sha-{}", path),
        url: format!("https://libraries.example/{}", path),
    }
}

fn library(name: &str, path: &str) -> Library {
    Library {
        downloads: LibraryDownload { artifact: Some(artifact(path)), classifiers: None },
        name: name.to_string(),
        rules: vec![],
        natives: None,
        extract: None,
    }
}

fn os_rule(action: RuleAction, os_name: Option<&str>) -> Rule {
    Rule {
        action,
        os: os_name.map(|n| Os { name: Some(n.to_string()), arch: None, version: None }),
        features: None,
    }
}

fn manifest(libraries: Vec<Library>) -> MinecraftManifest {
    MinecraftManifest {
        asset_index: AssetIndex {
            id: "12".to_string(),
            sha1: "aa".to_string(),
            url: "https://assets.example/12.json".to_string(),
        },
        downloads: Downloads {
            client: Client { sha1: "cc".to_string(), url: "https://client.example".to_string() },
        },
        java_version: JavaVersion { major_version: 17 },
        libraries,
        logging: None,
        main_class: "net.minecraft.client.main.Main".to_string(),
        release_time: "2023-12-07T12:56:20+00:00".to_string(),
        version: "1.20.4".to_string(),
        release_type: ReleaseType::Release,
        minecraft_arguments: None,
        arguments: Some(ModernArguments { game: vec![], jvm: vec![] }),
    }
}

fn simple(text: &str) -> ModernArgumentsItem {
    ModernArgumentsItem::Simple(text.to_string())
}

fn strings(items: &[&str]) -> Vec<String> {
    items.iter().map(|s| s.to_string()).collect()
}

#[test]
fn classpath_ends_with_the_client_jar() {
    let m = manifest(vec![library("a:b:1", "a/b/1/b-1.jar"), library("c:d:1", "c/d/1/d-1.jar")]);
    let p = plan(&m, &host("linux", "x86_64"), &roots(), &identity(), &vec![]).unwrap();
    assert_eq!(
        p.classpath,
        strings(&[
            "/mc/libraries/a/b/1/b-1.jar",
            "/mc/libraries/c/d/1/d-1.jar",
            "/mc/versions/client.jar"
        ])
    );
    assert_eq!(p.classpath.last().unwrap(), "/mc/versions/client.jar");
}

#[test]
fn plan_copies_the_fields_of_the_manifest() {
    let m = manifest(vec![library("a:b:1", "a/b/1/b-1.jar")]);
    let p = plan(&m, &host("linux", "x86_64"), &roots(), &identity(), &vec![]).unwrap();
    assert_eq!(p.main_class, "net.minecraft.client.main.Main");
    assert_eq!(p.asset_index_id, "12");
    assert_eq!(p.min_java_major, 17);
    assert_eq!(p.logging, None);
    assert!(p.natives.is_empty());
}

#[test]
fn modern_manifest_on_linux() {
    let mut lwjgl = library("org.lwjgl:lwjgl:3.3.1", "org/lwjgl/lwjgl/3.3.1/lwjgl-3.3.1.jar");
    lwjgl.natives = Some(vec![("linux".to_string(), "natives-linux".to_string())]);
    lwjgl.downloads.classifiers = Some(Classifiers {
        natives_osx: Some(artifact("org/lwjgl/lwjgl/3.3.1/lwjgl-3.3.1-natives-macos.jar")),
        natives_linux: Some(artifact("org/lwjgl/lwjgl/3.3.1/lwjgl-3.3.1-natives-linux.jar")),
        natives_windows: None,
        others: vec![],
    });
    let mut m = manifest(vec![lwjgl]);
    m.arguments = Some(ModernArguments {
        game: vec![simple("--username"), simple("${auth_player_name}")],
        jvm: vec![
            ModernArgumentsItem::Rule(ArgumentRule {
                rules: vec![os_rule(RuleAction::Allow, Some("osx"))],
                value: strings(&["-XstartOnFirstThread"]),
            }),
            simple("-cp"),
            simple("${classpath}"),
        ],
    });
    let p = plan(&m, &host("linux", "x86_64"), &roots(), &identity(), &vec![]).unwrap();
    assert_eq!(
        p.jvm_args,
        strings(&[
            "-cp",
            "/mc/libraries/org/lwjgl/lwjgl/3.3.1/lwjgl-3.3.1.jar:/mc/versions/client.jar"
        ])
    );
    assert!(p.jvm_args.contains(&"-cp".to_string()));
    assert!(p.jvm_args[1].contains(':'));
    assert!(!p.jvm_args.contains(&"-XstartOnFirstThread".to_string()));
    assert_eq!(p.game_args, strings(&["--username", "alice"]));
    assert_eq!(
        p.natives,
        vec![NativeEntry {
            source_archive_path:
                "/mc/libraries/org/lwjgl/lwjgl/3.3.1/lwjgl-3.3.1-natives-linux.jar".to_string(),
            extract_to: "/mc/natives/one".to_string(),
            exclude_globs: strings(&["META-INF/"]),
        }]
    );
}

#[test]
fn conditional_argument_is_emitted_where_its_rules_admit() {
    let mut m = manifest(vec![library("a:b:1", "b.jar")]);
    m.arguments = Some(ModernArguments {
        game: vec![],
        jvm: vec![
            ModernArgumentsItem::Rule(ArgumentRule {
                rules: vec![os_rule(RuleAction::Allow, Some("osx"))],
                value: strings(&["-XstartOnFirstThread", "-Dextra=1"]),
            }),
            ModernArgumentsItem::Rule(ArgumentRule { rules: vec![], value: strings(&["-Dalways"]) }),
        ],
    });
    let on_osx = plan(&m, &host("osx", "arm64"), &roots(), &identity(), &vec![]).unwrap();
    assert_eq!(on_osx.jvm_args, strings(&["-XstartOnFirstThread", "-Dextra=1", "-Dalways"]));
    let on_linux = plan(&m, &host("linux", "arm64"), &roots(), &identity(), &vec![]).unwrap();
    assert_eq!(on_linux.jvm_args, strings(&["-Dalways"]));
}

#[test]
fn legacy_manifest() {
    let mut m = manifest(vec![library("a:b:1", "a/b.jar")]);
    m.version = "1.8.9".to_string();
    m.arguments = None;
    m.minecraft_arguments =
        Some("--username ${auth_player_name} --version ${version_name}".to_string());
    let p = plan(&m, &host("linux", "x86_64"), &roots(), &identity(), &vec![]).unwrap();
    assert_eq!(p.game_args, strings(&["--username", "alice", "--version", "1.8.9"]));
    assert_eq!(
        p.jvm_args,
        strings(&[
            "-Djava.library.path=/mc/natives/one",
            "-cp",
            "/mc/libraries/a/b.jar:/mc/versions/client.jar"
        ])
    );
}

#[test]
fn legacy_line_is_split_on_any_whitespace() {
    let mut m = manifest(vec![library("a:b:1", "a/b.jar")]);
    m.arguments = None;
    m.minecraft_arguments = Some("  --demo\t--width   854\n".to_string());
    let p = plan(&m, &host("linux", "x86_64"), &roots(), &identity(), &vec![]).unwrap();
    assert_eq!(p.game_args, strings(&["--demo", "--width", "854"]));
}

#[test]
fn values_are_not_split_or_scanned_again() {
    let mut m = manifest(vec![library("a:b:1", "a/b.jar")]);
    m.arguments = None;
    m.minecraft_arguments = Some("--username ${auth_player_name}".to_string());
    let mut who = identity();
    who.auth_player_name = "al ice ${auth_uuid}".to_string();
    let p = plan(&m, &host("linux", "x86_64"), &roots(), &who, &vec![]).unwrap();
    assert_eq!(p.game_args, strings(&["--username", "al ice ${auth_uuid}"]));
}

#[test]
fn disallow_rule() {
    let mut ruled = library("x:natives:1", "x/natives.jar");
    ruled.rules = vec![os_rule(RuleAction::Allow, None), os_rule(RuleAction::Disallow, Some("osx"))];
    ruled.natives = Some(vec![
        ("osx".to_string(), "natives-osx".to_string()),
        ("linux".to_string(), "natives-linux".to_string()),
    ]);
    ruled.downloads.classifiers = Some(Classifiers {
        natives_osx: Some(artifact("x/natives-osx.jar")),
        natives_linux: Some(artifact("x/natives-linux.jar")),
        natives_windows: None,
        others: vec![],
    });
    let m = manifest(vec![library("a:b:1", "a/b.jar"), ruled]);
    let on_osx = plan(&m, &host("osx", "x86_64"), &roots(), &identity(), &vec![]).unwrap();
    assert_eq!(on_osx.classpath, strings(&["/mc/libraries/a/b.jar", "/mc/versions/client.jar"]));
    assert!(on_osx.natives.is_empty());
    let on_linux = plan(&m, &host("linux", "x86_64"), &roots(), &identity(), &vec![]).unwrap();
    assert_eq!(
        on_linux.classpath,
        strings(&["/mc/libraries/a/b.jar", "/mc/libraries/x/natives.jar", "/mc/versions/client.jar"])
    );
    assert_eq!(on_linux.natives.len(), 1);
    assert_eq!(on_linux.natives[0].source_archive_path, "/mc/libraries/x/natives-linux.jar");
}

#[test]
fn arch_templated_classifier() {
    assert_eq!(
        native_classifier_key("natives-windows-${arch}", &host("windows", "x86_64")),
        "natives-windows-64"
    );
    assert_eq!(
        native_classifier_key("natives-windows-${arch}", &host("windows", "x86")),
        "natives-windows-32"
    );
    assert_eq!(native_classifier_key("natives-osx", &host("osx", "arm64")), "natives-osx");
    assert_eq!(native_classifier_key("${arch}${arch}", &host("linux", "arm64")), "6464");
}

#[test]
fn arch_templated_classifier_is_resolved_in_the_plan() {
    let mut lib = library("x:y:1", "x/y.jar");
    lib.natives = Some(vec![("windows".to_string(), "natives-windows-${arch}".to_string())]);
    lib.downloads.classifiers = Some(Classifiers {
        natives_osx: None,
        natives_linux: None,
        natives_windows: Some(artifact("x/y-natives-windows.jar")),
        others: vec![
            ("natives-windows-32".to_string(), artifact("x/y-natives-windows-32.jar")),
            ("natives-windows-64".to_string(), artifact("x/y-natives-windows-64.jar")),
            ("natives-windows-64".to_string(), artifact("x/y-natives-windows-64b.jar")),
        ],
    });
    let m = manifest(vec![lib]);
    let wide = plan(&m, &host("windows", "x86_64"), &roots(), &identity(), &vec![]).unwrap();
    assert_eq!(wide.natives.len(), 1);
    assert_eq!(wide.natives[0].source_archive_path, "/mc/libraries/x/y-natives-windows-64b.jar");
    let narrow = plan(&m, &host("windows", "x86"), &roots(), &identity(), &vec![]).unwrap();
    assert_eq!(narrow.natives.len(), 1);
    assert_eq!(narrow.natives[0].source_archive_path, "/mc/libraries/x/y-natives-windows-32.jar");
    assert_eq!(
        narrow.required_downloads.iter().map(|d| d.dest_path.clone()).collect::<Vec<_>>(),
        strings(&[
            "/mc/libraries/x/y.jar",
            "/mc/libraries/x/y-natives-windows-32.jar",
            "/mc/versions/client.jar"
        ])
    );
    let elsewhere = plan(&m, &host("linux", "x86_64"), &roots(), &identity(), &vec![]).unwrap();
    assert!(elsewhere.natives.is_empty());
}

#[test]
fn unresolved_classifier_gives_no_natives_entry() {
    let mut lib = library("x:y:1", "x/y.jar");
    lib.natives = Some(vec![("windows".to_string(), "natives-windows-${arch}".to_string())]);
    lib.downloads.classifiers = Some(Classifiers {
        natives_osx: None,
        natives_linux: None,
        natives_windows: Some(artifact("x/y-natives-windows.jar")),
        others: vec![],
    });
    let m = manifest(vec![lib]);
    let p = plan(&m, &host("windows", "x86_64"), &roots(), &identity(), &vec![]).unwrap();
    assert!(p.natives.is_empty());
    assert_eq!(p.classpath.len(), 2);
}

#[test]
fn unknown_placeholder() {
    let mut m = manifest(vec![library("a:b:1", "a/b.jar")]);
    m.arguments = Some(ModernArguments {
        game: vec![simple("--foo=${bogus}"), simple("${unterminated"), simple("$${user_type}}")],
        jvm: vec![],
    });
    let p = plan(&m, &host("linux", "x86_64"), &roots(), &identity(), &vec![]).unwrap();
    assert_eq!(p.game_args, strings(&["--foo=${bogus}", "${unterminated", "$msa}"]));
}

#[test]
fn every_placeholder_is_filled() {
    let mut m = manifest(vec![library("a:b:1", "a/b.jar")]);
    m.release_type = ReleaseType::OldBeta;
    let names = [
        "auth_player_name",
        "version_name",
        "game_directory",
        "assets_root",
        "assets_index_name",
        "auth_uuid",
        "auth_access_token",
        "user_type",
        "version_type",
        "natives_directory",
        "launcher_name",
        "launcher_version",
        "classpath",
        "classpath_separator",
        "library_directory",
        "user_properties",
    ];
    m.arguments = Some(ModernArguments {
        game: names.iter().map(|n| simple(&format!("<${{{}}}>", n))).collect(),
        jvm: vec![],
    });
    let p = plan(&m, &host("windows", "x86_64"), &roots(), &identity(), &vec![]).unwrap();
    assert_eq!(
        p.game_args,
        strings(&[
            "<alice>",
            "<1.20.4>",
            "</mc/game>",
            "</mc/assets>",
            "<12>",
            "<0123>",
            "<token>",
            "<msa>",
            "<old-beta>",
            "</mc/natives/one>",
            "<OneLauncher>",
            "<1.0.0>",
            "</mc/libraries/a/b.jar;/mc/versions/client.jar>",
            "<;>",
            "</mc/libraries>",
            "<{}>",
        ])
    );
    let mut who = identity();
    who.user_properties = Some("{\"a\":1}".to_string());
    let q = plan(&m, &host("linux", "x86_64"), &roots(), &who, &vec![]).unwrap();
    assert_eq!(q.game_args[15], "<{\"a\":1}>");
    assert_eq!(q.game_args[13], "<:>");
}

#[test]
fn last_library_of_a_group_and_artifact_wins() {
    let m = manifest(vec![
        library("org.ow2.asm:asm:9.3", "asm-9.3.jar"),
        library("com.example:other:1", "other.jar"),
        library("org.ow2.asm:asm:9.6", "asm-9.6.jar"),
        library("org.ow2.asm:asm-tree:9.6", "asm-tree.jar"),
    ]);
    let p = plan(&m, &host("linux", "x86_64"), &roots(), &identity(), &vec![]).unwrap();
    assert_eq!(
        p.classpath,
        strings(&[
            "/mc/libraries/other.jar",
            "/mc/libraries/asm-9.6.jar",
            "/mc/libraries/asm-tree.jar",
            "/mc/versions/client.jar"
        ])
    );
    assert_eq!(
        p.required_downloads.iter().map(|d| d.dest_path.clone()).collect::<Vec<_>>(),
        strings(&[
            "/mc/libraries/other.jar",
            "/mc/libraries/asm-9.6.jar",
            "/mc/libraries/asm-tree.jar",
            "/mc/versions/client.jar"
        ])
    );
}

#[test]
fn a_refused_later_library_supersedes_nothing() {
    let mut refused = library("org.ow2.asm:asm:9.6", "asm-9.6.jar");
    refused.rules = vec![os_rule(RuleAction::Allow, Some("osx"))];
    let m = manifest(vec![library("org.ow2.asm:asm:9.3", "asm-9.3.jar"), refused]);
    let p = plan(&m, &host("linux", "x86_64"), &roots(), &identity(), &vec![]).unwrap();
    assert_eq!(p.classpath, strings(&["/mc/libraries/asm-9.3.jar", "/mc/versions/client.jar"]));
}

#[test]
fn library_key_is_group_and_artifact() {
    assert_eq!(library_key("org.lwjgl:lwjgl:3.3.1"), "org.lwjgl:lwjgl");
    assert_eq!(library_key("org.lwjgl:lwjgl:3.3.1:natives-linux"), "org.lwjgl:lwjgl");
    assert_eq!(library_key("org.lwjgl:lwjgl"), "org.lwjgl:lwjgl");
    assert_eq!(library_key("plain"), "plain");
    assert_eq!(library_key(""), "");
    assert_eq!(library_key("a::b"), "a:");
}

#[test]
fn natives_are_not_deduplicated_and_honour_extract() {
    let mut one = library("x:y:1", "x/y-1.jar");
    one.downloads.artifact = None;
    one.natives = Some(vec![("linux".to_string(), "natives-linux".to_string())]);
    one.downloads.classifiers = Some(Classifiers {
        natives_osx: None,
        natives_linux: Some(artifact("x/y-natives.jar")),
        natives_windows: None,
        others: vec![],
    });
    one.extract = Some(Extract { exclude: strings(&["META-INF/", "*.sha1"]) });
    let mut two = one.clone();
    two.extract = Some(Extract { exclude: vec![] });
    let m = manifest(vec![one, two, library("a:b:1", "a/b.jar")]);
    let p = plan(&m, &host("linux", "x86_64"), &roots(), &identity(), &vec![]).unwrap();
    assert_eq!(p.natives.len(), 2);
    assert_eq!(p.natives[0].exclude_globs, strings(&["META-INF/", "*.sha1"]));
    assert_eq!(p.natives[1].exclude_globs, Vec::<String>::new());
    assert_eq!(p.natives[0].source_archive_path, p.natives[1].source_archive_path);
    assert_eq!(p.classpath, strings(&["/mc/libraries/a/b.jar", "/mc/versions/client.jar"]));
}

#[test]
fn required_downloads_leave_out_what_is_in_place() {
    let mut lib = library("x:y:1", "x/y.jar");
    lib.natives = Some(vec![("linux".to_string(), "natives-linux".to_string())]);
    lib.downloads.classifiers = Some(Classifiers {
        natives_osx: None,
        natives_linux: Some(artifact("x/y-natives.jar")),
        natives_windows: None,
        others: vec![],
    });
    let m = manifest(vec![lib, library("a:b:1", "a/b.jar")]);
    let h = host("linux", "x86_64");
    let all = plan(&m, &h, &roots(), &identity(), &vec![]).unwrap();
    assert_eq!(
        all.required_downloads,
        vec![
            Download {
                url: "https://libraries.example/x/y.jar".to_string(),
                dest_path: "/mc/libraries/x/y.jar".to_string(),
                sha1: "sha-x/y.jar".to_string(),
                size: None,
            },
            Download {
                url: "https://libraries.example/x/y-natives.jar".to_string(),
                dest_path: "/mc/libraries/x/y-natives.jar".to_string(),
                sha1: "sha-x/y-natives.jar".to_string(),
                size: None,
            },
            Download {
                url: "https://libraries.example/a/b.jar".to_string(),
                dest_path: "/mc/libraries/a/b.jar".to_string(),
                sha1: "sha-a/b.jar".to_string(),
                size: None,
            },
            Download {
                url: "https://client.example".to_string(),
                dest_path: "/mc/versions/client.jar".to_string(),
                sha1: "cc".to_string(),
                size: None,
            },
        ]
    );
    let inventory = vec![
        LocalFile { path: "/mc/libraries/x/y.jar".to_string(), sha1: "sha-x/y.jar".to_string() },
        LocalFile { path: "/mc/libraries/a/b.jar".to_string(), sha1: "stale".to_string() },
        LocalFile { path: "/mc/versions/client.jar".to_string(), sha1: "cc".to_string() },
    ];
    let some = plan(&m, &h, &roots(), &identity(), &inventory).unwrap();
    assert_eq!(
        some.required_downloads.iter().map(|d| d.dest_path.clone()).collect::<Vec<_>>(),
        strings(&["/mc/libraries/x/y-natives.jar", "/mc/libraries/a/b.jar"])
    );
    let stale = vec![LocalFile {
        path: "/mc/versions/client.jar".to_string(),
        sha1: "old".to_string(),
    }];
    let again = plan(&m, &h, &roots(), &identity(), &stale).unwrap();
    assert_eq!(again.required_downloads.len(), 4);
    assert_eq!(again.required_downloads[3].dest_path, "/mc/versions/client.jar");
}

#[test]
fn logging_argument_and_download() {
    let mut m = manifest(vec![library("a:b:1", "a/b.jar")]);
    m.logging = Some(Logging {
        client: Client2 {
            argument: "-Dlog4j.configurationFile=${path} ${path}".to_string(),
            file: File {
                id: "client-1.12.xml".to_string(),
                sha1: "ff".to_string(),
                url: "https://log.example/client-1.12.xml".to_string(),
            },
            type_field: "log4j2-xml".to_string(),
        },
    });
    let h = host("linux", "x86_64");
    let p = plan(&m, &h, &roots(), &identity(), &vec![]).unwrap();
    assert_eq!(
        p.logging,
        Some(LoggingPlan {
            argument_with_path: "-Dlog4j.configurationFile=/mc/assets/log_configs/client-1.12.xml /mc/assets/log_configs/client-1.12.xml".to_string()
        })
    );
    assert_eq!(
        p.required_downloads.last().unwrap(),
        &Download {
            url: "https://log.example/client-1.12.xml".to_string(),
            dest_path: "/mc/assets/log_configs/client-1.12.xml".to_string(),
            sha1: "ff".to_string(),
            size: None,
        }
    );
    let inventory = vec![LocalFile {
        path: "/mc/assets/log_configs/client-1.12.xml".to_string(),
        sha1: "other".to_string(),
    }];
    let q = plan(&m, &h, &roots(), &identity(), &inventory).unwrap();
    assert_eq!(
        q.required_downloads.iter().map(|d| d.dest_path.clone()).collect::<Vec<_>>(),
        strings(&["/mc/libraries/a/b.jar", "/mc/versions/client.jar"])
    );
}

#[test]
fn directory_with_a_trailing_slash_gets_no_second_one() {
    let mut r = roots();
    r.libraries_dir = "/mc/libraries/".to_string();
    let m = manifest(vec![library("a:b:1", "a/b.jar")]);
    let p = plan(&m, &host("linux", "x86_64"), &r, &identity(), &vec![]).unwrap();
    assert_eq!(p.classpath[0], "/mc/libraries/a/b.jar");
    r.libraries_dir = String::new();
    let q = plan(&m, &host("linux", "x86_64"), &r, &identity(), &vec![]).unwrap();
    assert_eq!(q.classpath[0], "a/b.jar");
}

#[test]
fn invalid_manifests_are_refused() {
    let h = host("linux", "x86_64");
    let good = manifest(vec![library("a:b:1", "a/b.jar")]);
    assert_eq!(check_manifest(&good), None);

    let mut both = good.clone();
    both.minecraft_arguments = Some("--demo".to_string());
    assert_eq!(
        plan(&both, &h, &roots(), &identity(), &vec![]),
        Err(LaunchError::InvalidManifest(InvalidReason::BothArgumentForms))
    );

    let mut neither = good.clone();
    neither.arguments = None;
    assert_eq!(
        plan(&neither, &h, &roots(), &identity(), &vec![]),
        Err(LaunchError::InvalidManifest(InvalidReason::NoArguments))
    );

    let mut no_main = good.clone();
    no_main.main_class = String::new();
    assert_eq!(
        plan(&no_main, &h, &roots(), &identity(), &vec![]),
        Err(LaunchError::InvalidManifest(InvalidReason::MissingMainClass))
    );

    let mut no_index = good.clone();
    no_index.asset_index = AssetIndex::default();
    assert_eq!(
        plan(&no_index, &h, &roots(), &identity(), &vec![]),
        Err(LaunchError::InvalidManifest(InvalidReason::MissingAssetIndex))
    );
    assert_eq!(
        check_manifest(&MinecraftManifest::default()),
        Some(InvalidReason::NoArguments)
    );
}

#[test]
fn host_that_no_library_admits_is_unsupported() {
    let mut only = library("a:b:1", "a/b.jar");
    only.rules = vec![os_rule(RuleAction::Allow, Some("osx"))];
    let m = manifest(vec![only]);
    assert_eq!(
        plan(&m, &host("linux", "x86_64"), &roots(), &identity(), &vec![]),
        Err(LaunchError::UnsupportedHost)
    );
    assert!(plan(&m, &host("osx", "x86_64"), &roots(), &identity(), &vec![]).is_ok());
    assert_eq!(
        plan(&manifest(vec![]), &host("linux", "x86_64"), &roots(), &identity(), &vec![]),
        Err(LaunchError::UnsupportedHost)
    );
    let mut invalid = manifest(vec![]);
    invalid.main_class = String::new();
    assert_eq!(
        plan(&invalid, &host("linux", "x86_64"), &roots(), &identity(), &vec![]),
        Err(LaunchError::InvalidManifest(InvalidReason::MissingMainClass))
    );
}

#[test]
fn strict_plan_names_the_first_missing_file() {
    let m = manifest(vec![library("a:b:1", "a/b.jar"), library("c:d:1", "c/d.jar")]);
    let h = host("linux", "x86_64");
    assert_eq!(
        plan_strict(&m, &h, &roots(), &identity(), &vec![]),
        Err(LaunchError::AssetMissing("/mc/libraries/a/b.jar".to_string()))
    );
    let mut inventory = vec![
        LocalFile { path: "/mc/libraries/a/b.jar".to_string(), sha1: "sha-a/b.jar".to_string() },
        LocalFile { path: "/mc/libraries/c/d.jar".to_string(), sha1: "sha-c/d.jar".to_string() },
    ];
    assert_eq!(
        plan_strict(&m, &h, &roots(), &identity(), &inventory),
        Err(LaunchError::AssetMissing("/mc/versions/client.jar".to_string()))
    );
    inventory
        .push(LocalFile { path: "/mc/versions/client.jar".to_string(), sha1: "cc".to_string() });
    let strict = plan_strict(&m, &h, &roots(), &identity(), &inventory).unwrap();
    assert_eq!(strict, plan(&m, &h, &roots(), &identity(), &inventory).unwrap());
    assert!(strict.required_downloads.is_empty());
    let mut refused = m.clone();
    refused.main_class = String::new();
    assert_eq!(
        plan_strict(&refused, &h, &roots(), &identity(), &inventory),
        Err(LaunchError::InvalidManifest(InvalidReason::MissingMainClass))
    );
}

#[test]
fn release_types_are_written_in_kebab_case() {
    assert_eq!(release_type_text(ReleaseType::Release), "release");
    assert_eq!(release_type_text(ReleaseType::Snapshot), "snapshot");
    assert_eq!(release_type_text(ReleaseType::OldBeta), "old-beta");
    assert_eq!(release_type_text(ReleaseType::OldAlpha), "old-alpha");
    assert_eq!(ReleaseType::default(), ReleaseType::Release);
}
