use onelauncher_core::json::{has_real, parse_document, write_document, JsonValue};
use onelauncher_core::launch::{InvalidReason, LaunchError};
use onelauncher_core::manifest::{
    ArgumentRule, Artifact, Classifiers, Extract, MinecraftManifest, ModernArgumentsItem, Os,
    ReleaseType, Rule, RuleAction,
};
use onelauncher_core::wire::{from_document, parse, serialize, to_document};

const MODERN: &str = r#"{
  "arguments": {
    "game": [
      "--username",
      "${auth_player_name}",
      {"rules": [{"action": "allow", "features": {"is_demo_user": true}}], "value": "--demo"},
      {"rules": [{"action": "allow", "features": {"has_custom_resolution": true}}],
       "value": ["--width", "${resolution_width}"]}
    ],
    "jvm": [
      {"rules": [{"action": "allow", "os": {"name": "osx"}}], "value": ["-XstartOnFirstThread"]},
      {"rules": [{"action": "allow", "os": {"name": "windows", "version": "^10\\."}}],
       "value": "-Dos.name=Windows 10"},
      {"rules": [{"action": "allow", "os": {"arch": "x86"}}], "value": "-Xss1M"},
      "-cp",
      "${classpath}"
    ]
  },
  "assetIndex": {"id": "12", "sha1": "aa", "size": 1, "totalSize": 2, "url": "https://a/12.json"},
  "assets": "12",
  "complianceLevel": 1,
  "downloads": {
    "client": {"sha1": "cc", "size": 3, "url": "https://c/client.jar"},
    "server": {"sha1": "dd", "size": 4, "url": "https://c/server.jar"}
  },
  "id": "1.20.4",
  "javaVersion": {"component": "java-runtime-gamma", "majorVersion": 17},
  "libraries": [
    {
      "downloads": {"artifact": {"path": "a/b/1/b-1.jar", "sha1": "l1", "size": 5, "url": "https://l/b-1.jar"}},
      "name": "a:b:1"
    },
    {
      "downloads": {
        "artifact": {"path": "x/y/1/y-1.jar", "sha1": "l2", "size": 6, "url": "https://l/y-1.jar"},
        "classifiers": {
          "natives-linux": {"path": "x/y/1/y-1-natives-linux.jar", "sha1": "l3", "size": 7, "url": "https://l/y-nl.jar"},
          "natives-osx": {"path": "x/y/1/y-1-natives-osx.jar", "sha1": "l4", "size": 8, "url": "https://l/y-no.jar"},
          "javadoc": {"path": "x/y/1/y-1-javadoc.jar", "sha1": "l5", "size": 9, "url": "https://l/y-jd.jar"}
        }
      },
      "extract": {"exclude": ["META-INF/"]},
      "name": "x:y:1",
      "natives": {"linux": "natives-linux", "osx": "natives-osx"},
      "rules": [{"action": "allow"}, {"action": "disallow", "os": {"name": "osx"}}]
    }
  ],
  "logging": {
    "client": {
      "argument": "-Dlog4j.configurationFile=${path}",
      "file": {"id": "client-1.12.xml", "sha1": "ff", "size": 10, "url": "https://g/client-1.12.xml"},
      "type": "log4j2-xml"
    }
  },
  "mainClass": "net.minecraft.client.main.Main",
  "minimumLauncherVersion": 21,
  "releaseTime": "2023-12-07T12:56:20+00:00",
  "time": "2023-12-07T12:56:20+00:00",
  "type": "release"
}"#;

const LEGACY: &str = r#"{
  "assetIndex": {"id": "1.8", "sha1": "aa", "url": "https://a/1.8.json"},
  "downloads": {"client": {"sha1": "cc", "url": "https://c/client.jar"}},
  "id": "1.8.9",
  "javaVersion": {"majorVersion": 8},
  "libraries": [],
  "mainClass": "net.minecraft.client.main.Main",
  "minecraftArguments": "--username ${auth_player_name} --version ${version_name}",
  "releaseTime": "2015-12-03T09:24:39+00:00",
  "type": "old-beta"
}"#;

fn text(s: &str) -> JsonValue {
    JsonValue::Text(s.to_string())
}

fn object(members: Vec<(&str, JsonValue)>) -> JsonValue {
    JsonValue::Object(members.into_iter().map(|(k, v)| (k.to_string(), v)).collect())
}

fn without_member(doc: &str, name: &str) -> JsonValue {
    match parse_document(doc).unwrap() {
        JsonValue::Object(members) => {
            JsonValue::Object(members.into_iter().filter(|m| m.0 != name).collect())
        }
        other => other,
    }
}

fn with_member(doc: &str, name: &str, value: JsonValue) -> JsonValue {
    match without_member(doc, name) {
        JsonValue::Object(mut members) => {
            members.push((name.to_string(), value));
            JsonValue::Object(members)
        }
        other => other,
    }
}

fn invalid(reason: InvalidReason) -> Result<MinecraftManifest, LaunchError> {
    Err(LaunchError::InvalidManifest(reason))
}

#[test]
fn document_is_read_from_text() {
    let doc = parse_document(r#"{"b": [1, -2, 1.5, true, null, "x"], "a": {}}"#).unwrap();
    assert_eq!(
        doc,
        object(vec![
            ("a", JsonValue::Object(vec![])),
            (
                "b",
                JsonValue::List(vec![
                    JsonValue::Unsigned(1),
                    JsonValue::Negative(-2),
                    JsonValue::Real("1.5".to_string()),
                    JsonValue::Bool(true),
                    JsonValue::Null,
                    text("x"),
                ])
            ),
        ])
    );
    assert_eq!(parse_document("{"), None);
    assert_eq!(parse_document(""), None);
    assert_eq!(parse_document("\"x\""), Some(text("x")));
}

#[test]
fn document_is_written_as_text() {
    let doc = object(vec![
        ("b", JsonValue::List(vec![JsonValue::Unsigned(1), JsonValue::Negative(-2), text("x")])),
        ("a", JsonValue::Bool(false)),
        ("c", JsonValue::Null),
        ("a", JsonValue::Unsigned(7)),
    ]);
    assert_eq!(
        write_document(&doc),
        Some(r#"{"a":7,"b":[1,-2,"x"],"c":null}"#.to_string())
    );
    assert_eq!(write_document(&text("a\"b")), Some(r#""a\"b""#.to_string()));
}

#[test]
fn other_numbers_are_not_written() {
    let real = || JsonValue::Real("1.5".to_string());
    assert!(has_real(&real()));
    assert!(has_real(&JsonValue::List(vec![JsonValue::Null, real()])));
    assert!(has_real(&object(vec![("a", text("x")), ("b", JsonValue::List(vec![real()]))])));
    assert!(!has_real(&object(vec![("a", text("1.5")), ("b", JsonValue::Unsigned(1))])));
    assert!(!has_real(&parse_document(MODERN).unwrap()));
    assert_eq!(write_document(&real()), None);
    assert_eq!(write_document(&object(vec![("a", JsonValue::List(vec![real()]))])), None);
    assert_eq!(write_document(&JsonValue::List(vec![])), Some("[]".to_string()));
}

#[test]
fn modern_manifest_is_parsed() {
    let m = parse(MODERN).unwrap();
    assert_eq!(m.version, "1.20.4");
    assert_eq!(m.release_type, ReleaseType::Release);
    assert_eq!(m.release_time, "2023-12-07T12:56:20+00:00");
    assert_eq!(m.main_class, "net.minecraft.client.main.Main");
    assert_eq!(m.asset_index.id, "12");
    assert_eq!(m.asset_index.sha1, "aa");
    assert_eq!(m.asset_index.url, "https://a/12.json");
    assert_eq!(m.downloads.client.sha1, "cc");
    assert_eq!(m.downloads.client.url, "https://c/client.jar");
    assert_eq!(m.java_version.major_version, 17);
    assert_eq!(m.minecraft_arguments, None);
    let logging = m.logging.clone().unwrap();
    assert_eq!(logging.client.argument, "-Dlog4j.configurationFile=${path}");
    assert_eq!(logging.client.file.id, "client-1.12.xml");
    assert_eq!(logging.client.type_field, "log4j2-xml");

    assert_eq!(m.libraries.len(), 2);
    assert_eq!(m.libraries[0].name, "a:b:1");
    assert_eq!(m.libraries[0].rules, vec![]);
    assert_eq!(m.libraries[0].natives, None);
    assert_eq!(m.libraries[0].extract, None);
    assert_eq!(
        m.libraries[0].downloads.artifact,
        Some(Artifact {
            path: "a/b/1/b-1.jar".to_string(),
            sha1: "l1".to_string(),
            url: "https://l/b-1.jar".to_string()
        })
    );
    let second = &m.libraries[1];
    assert_eq!(
        second.rules,
        vec![
            Rule { action: RuleAction::Allow, os: None, features: None },
            Rule {
                action: RuleAction::Disallow,
                os: Some(Os { name: Some("osx".to_string()), arch: None, version: None }),
                features: None
            },
        ]
    );
    assert_eq!(
        second.natives,
        Some(vec![
            ("linux".to_string(), "natives-linux".to_string()),
            ("osx".to_string(), "natives-osx".to_string())
        ])
    );
    assert_eq!(second.extract, Some(Extract { exclude: vec!["META-INF/".to_string()] }));
    let classifiers: Classifiers = second.downloads.classifiers.clone().unwrap();
    assert_eq!(classifiers.natives_linux.unwrap().path, "x/y/1/y-1-natives-linux.jar");
    assert_eq!(classifiers.natives_osx.unwrap().path, "x/y/1/y-1-natives-osx.jar");
    assert_eq!(classifiers.natives_windows, None);
    assert_eq!(
        classifiers.others,
        vec![(
            "javadoc".to_string(),
            Artifact {
                path: "x/y/1/y-1-javadoc.jar".to_string(),
                sha1: "l5".to_string(),
                url: "https://l/y-jd.jar".to_string()
            }
        )]
    );

    let arguments = m.arguments.unwrap();
    assert_eq!(arguments.game.len(), 4);
    assert_eq!(arguments.game[0], ModernArgumentsItem::Simple("--username".to_string()));
    assert_eq!(
        arguments.game[2],
        ModernArgumentsItem::Rule(ArgumentRule {
            rules: vec![Rule {
                action: RuleAction::Allow,
                os: None,
                features: Some(vec![("is_demo_user".to_string(), true)])
            }],
            value: vec!["--demo".to_string()],
        })
    );
    assert_eq!(
        arguments.game[3],
        ModernArgumentsItem::Rule(ArgumentRule {
            rules: vec![Rule {
                action: RuleAction::Allow,
                os: None,
                features: Some(vec![("has_custom_resolution".to_string(), true)])
            }],
            value: vec!["--width".to_string(), "${resolution_width}".to_string()],
        })
    );
    assert_eq!(arguments.jvm.len(), 5);
    assert_eq!(
        arguments.jvm[1],
        ModernArgumentsItem::Rule(ArgumentRule {
            rules: vec![Rule {
                action: RuleAction::Allow,
                os: Some(Os {
                    name: Some("windows".to_string()),
                    arch: None,
                    version: Some("^10\\.".to_string())
                }),
                features: None
            }],
            value: vec!["-Dos.name=Windows 10".to_string()],
        })
    );
}

#[test]
fn legacy_manifest_is_parsed() {
    let m = parse(LEGACY).unwrap();
    assert_eq!(
        m.minecraft_arguments,
        Some("--username ${auth_player_name} --version ${version_name}".to_string())
    );
    assert_eq!(m.arguments, None);
    assert_eq!(m.release_type, ReleaseType::OldBeta);
    assert_eq!(m.logging, None);
    assert_eq!(m.libraries, vec![]);
    assert_eq!(m.java_version.major_version, 8);
}

#[test]
fn exactly_one_argument_form_after_parse() {
    for doc in [MODERN, LEGACY] {
        let m = parse(doc).unwrap();
        assert!(m.minecraft_arguments.is_some() != m.arguments.is_some());
    }
    let both = with_member(MODERN, "minecraftArguments", text("--demo"));
    let m = from_document(&both).unwrap();
    assert!(m.arguments.is_some());
    assert_eq!(m.minecraft_arguments, None);
    assert_eq!(
        from_document(&without_member(LEGACY, "minecraftArguments")),
        invalid(InvalidReason::MissingField)
    );
}

#[test]
fn round_trip() {
    for doc in [MODERN, LEGACY] {
        let first = parse(doc).unwrap();
        let written = serialize(&first);
        let second = parse(&written).unwrap();
        assert_eq!(second, first);
        assert_eq!(from_document(&to_document(&first)), Ok(first.clone()));
        assert_eq!(serialize(&second), written);
    }
}

#[test]
fn classifiers_under_other_keys_are_kept() {
    let archive = |path: &str| {
        object(vec![("path", text(path)), ("sha1", text("s")), ("url", text("u"))])
    };
    let library = object(vec![
        (
            "downloads",
            object(vec![(
                "classifiers",
                object(vec![
                    ("natives-windows-64", archive("w64.jar")),
                    ("natives-osx", archive("osx.jar")),
                    ("natives-windows-32", archive("w32.jar")),
                    ("natives-linux", JsonValue::Null),
                ]),
            )]),
        ),
        ("name", text("x:y:1")),
        ("natives", object(vec![("windows", text("natives-windows-${arch}"))])),
    ]);
    let m = from_document(&with_member(LEGACY, "libraries", JsonValue::List(vec![library])))
        .unwrap();
    let classifiers = m.libraries[0].downloads.classifiers.clone().unwrap();
    assert_eq!(classifiers.natives_osx.clone().unwrap().path, "osx.jar");
    assert_eq!(classifiers.natives_linux, None);
    assert_eq!(
        classifiers.others.iter().map(|e| (e.0.as_str(), e.1.path.as_str())).collect::<Vec<_>>(),
        vec![("natives-windows-64", "w64.jar"), ("natives-windows-32", "w32.jar")]
    );
    let written = serialize(&m);
    assert!(written.contains(r#""natives-windows-64":{"path":"w64.jar""#));
    let again = parse(&written).unwrap();
    assert_eq!(serialize(&again), written);
    assert_eq!(from_document(&to_document(&m)), Ok(m.clone()));
    let bad = object(vec![
        ("downloads", object(vec![("classifiers", object(vec![("sources", text("s.jar"))]))])),
        ("name", text("x:y:1")),
    ]);
    assert_eq!(
        from_document(&with_member(LEGACY, "libraries", JsonValue::List(vec![bad]))),
        invalid(InvalidReason::WrongShape)
    );
}

#[test]
fn bare_value_round_trips_as_a_list() {
    let doc = with_member(
        LEGACY,
        "arguments",
        object(vec![
            ("game", JsonValue::List(vec![object(vec![("value", text("x"))])])),
            ("jvm", JsonValue::List(vec![])),
        ]),
    );
    let m = from_document(&doc).unwrap();
    let item = m.arguments.clone().unwrap().game[0].clone();
    assert_eq!(
        item,
        ModernArgumentsItem::Rule(ArgumentRule { rules: vec![], value: vec!["x".to_string()] })
    );
    let written = serialize(&m);
    assert!(written.contains(r#""value":["x"]"#));
    assert!(!written.contains("minecraftArguments"));
    assert_eq!(parse(&written).unwrap(), m);
}

#[test]
fn empty_rules_and_values_are_left_out() {
    let mut m = parse(MODERN).unwrap();
    let mut arguments = m.arguments.clone().unwrap();
    arguments.game = vec![ModernArgumentsItem::Rule(ArgumentRule { rules: vec![], value: vec![] })];
    arguments.jvm = vec![];
    m.arguments = Some(arguments);
    m.libraries.truncate(1);
    m.logging = None;
    let written = serialize(&m);
    assert!(!written.contains("rules"));
    assert!(!written.contains("value"));
    assert!(!written.contains("logging"));
    assert!(!written.contains("natives"));
    assert!(!written.contains("extract"));
    assert!(written.contains(r#""game":[{}]"#));
    assert_eq!(parse(&written).unwrap(), m);
}

#[test]
fn legacy_manifest_is_written_without_modern_arguments() {
    let m = parse(LEGACY).unwrap();
    let written = serialize(&m);
    assert!(written.contains("minecraftArguments"));
    assert!(!written.contains("\"arguments\""));
    assert!(written.contains(r#""type":"old-beta""#));
    assert!(written.contains(r#""javaVersion":{"majorVersion":8}"#));
}

#[test]
fn release_types_on_the_wire() {
    let kinds = [
        ("release", ReleaseType::Release),
        ("snapshot", ReleaseType::Snapshot),
        ("old-beta", ReleaseType::OldBeta),
        ("old-alpha", ReleaseType::OldAlpha),
    ];
    for (name, kind) in kinds {
        let m = from_document(&with_member(LEGACY, "type", text(name))).unwrap();
        assert_eq!(m.release_type, kind);
        assert!(serialize(&m).contains(&format!(r#""type":"{}""#, name)));
    }
    assert_eq!(
        from_document(&without_member(LEGACY, "type")).unwrap().release_type,
        ReleaseType::Release
    );
    assert_eq!(
        from_document(&with_member(LEGACY, "type", text("old_beta"))),
        invalid(InvalidReason::WrongShape)
    );
}

#[test]
fn text_that_is_no_json_is_refused() {
    assert_eq!(parse("not json"), invalid(InvalidReason::NotJson));
    assert_eq!(parse(""), invalid(InvalidReason::NotJson));
    assert_eq!(parse("[]"), invalid(InvalidReason::WrongShape));
    assert_eq!(parse("{}"), invalid(InvalidReason::MissingField));
}

#[test]
fn missing_fields_are_refused() {
    for name in
        ["assetIndex", "downloads", "javaVersion", "libraries", "mainClass", "releaseTime", "id"]
    {
        assert_eq!(
            from_document(&without_member(MODERN, name)),
            invalid(InvalidReason::MissingField),
            "{}",
            name
        );
        assert_eq!(
            from_document(&with_member(MODERN, name, JsonValue::Null)),
            invalid(InvalidReason::WrongShape),
            "{}",
            name
        );
    }
    assert!(from_document(&without_member(MODERN, "logging")).is_ok());
    assert!(from_document(&with_member(MODERN, "logging", JsonValue::Null)).is_ok());
}

#[test]
fn null_stands_for_an_absent_field_only_where_the_field_may_be_absent() {
    let item = |members: Vec<(&str, JsonValue)>| {
        with_member(
            LEGACY,
            "arguments",
            object(vec![
                ("game", JsonValue::List(vec![object(members)])),
                ("jvm", JsonValue::List(vec![])),
            ]),
        )
    };
    assert!(from_document(&item(vec![])).is_ok());
    assert_eq!(
        from_document(&item(vec![("value", JsonValue::Null)])),
        invalid(InvalidReason::WrongShape)
    );
    assert_eq!(
        from_document(&item(vec![("rules", JsonValue::Null)])),
        invalid(InvalidReason::WrongShape)
    );
    assert_eq!(
        from_document(&with_member(LEGACY, "type", JsonValue::Null)),
        invalid(InvalidReason::WrongShape)
    );
    let rule = object(vec![
        ("action", text("allow")),
        ("os", JsonValue::Null),
        ("features", JsonValue::Null),
    ]);
    let m = from_document(&item(vec![("rules", JsonValue::List(vec![rule]))])).unwrap();
    assert_eq!(
        m.arguments.unwrap().game[0],
        ModernArgumentsItem::Rule(ArgumentRule {
            rules: vec![Rule { action: RuleAction::Allow, os: None, features: None }],
            value: vec![],
        })
    );
    let legacy = from_document(&with_member(LEGACY, "arguments", JsonValue::Null)).unwrap();
    assert!(legacy.minecraft_arguments.is_some());
}

#[test]
fn wrong_shapes_are_refused() {
    let cases = vec![
        ("mainClass", JsonValue::Unsigned(1)),
        ("libraries", object(vec![])),
        ("libraries", JsonValue::List(vec![text("a:b:1")])),
        ("javaVersion", object(vec![("majorVersion", JsonValue::Unsigned(256))])),
        ("javaVersion", object(vec![("majorVersion", text("17"))])),
        ("javaVersion", object(vec![("majorVersion", JsonValue::Negative(-1))])),
        ("arguments", JsonValue::List(vec![])),
        (
            "arguments",
            object(vec![
                ("game", JsonValue::List(vec![JsonValue::Unsigned(3)])),
                ("jvm", JsonValue::List(vec![])),
            ]),
        ),
        (
            "arguments",
            object(vec![
                (
                    "game",
                    JsonValue::List(vec![object(vec![(
                        "rules",
                        JsonValue::List(vec![object(vec![("action", text("permit"))])]),
                    )])]),
                ),
                ("jvm", JsonValue::List(vec![])),
            ]),
        ),
        ("logging", text("none")),
        ("assetIndex", JsonValue::List(vec![])),
    ];
    for (name, value) in cases {
        assert_eq!(
            from_document(&with_member(MODERN, name, value)),
            invalid(InvalidReason::WrongShape),
            "{}",
            name
        );
    }
    assert_eq!(
        from_document(&with_member(
            MODERN,
            "javaVersion",
            object(vec![("majorVersion", JsonValue::Unsigned(255))])
        ))
        .unwrap()
        .java_version
        .major_version,
        255
    );
}

#[test]
fn first_fault_in_the_order_of_the_fields_is_reported() {
    let doc = with_member(MODERN, "assetIndex", text("x"));
    let doc = match doc {
        JsonValue::Object(members) => {
            JsonValue::Object(members.into_iter().filter(|m| m.0 != "mainClass").collect())
        }
        other => other,
    };
    assert_eq!(from_document(&doc), invalid(InvalidReason::WrongShape));
}

#[test]
fn later_member_of_a_name_counts() {
    let doc = match parse_document(LEGACY).unwrap() {
        JsonValue::Object(mut members) => {
            members.push(("mainClass".to_string(), text("other.Main")));
            JsonValue::Object(members)
        }
        other => other,
    };
    assert_eq!(from_document(&doc).unwrap().main_class, "other.Main");
}
