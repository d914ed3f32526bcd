use crate::json::JsonView;
use crate::launch::InvalidReason;
use crate::manifest::{
    ArgumentRuleView, ArtifactView, AssetIndexView, ClassifiersView, Client2View, ClientView,
    DownloadsView, ExtractView, FileView, JavaVersionView, LibraryDownloadView, LibraryView,
    LoggingView, MinecraftManifestView, ModernArgumentsItemView, ModernArgumentsView, OsView,
    ReleaseType, RuleAction, RuleView,
};
use crate::plan_model::release_type_name;
use vstd::prelude::*;

verus! {

/// The members of a JSON object, in the order of the document.
pub type Members = Seq<(Seq<char>, JsonView)>;

/// What decoding a value of type `T` yields.
pub type Decoded<T> = Result<T, InvalidReason>;

/// The value of the last member with this name.
pub open spec fn member(entries: Members, key: Seq<char>) -> Option<JsonView>
    decreases entries.len(),
{
    if entries.len() == 0 {
        None
    } else if entries.last().0 == key {
        Some(entries.last().1)
    } else {
        member(entries.drop_last(), key)
    }
}

/// The field of this name where the field may be absent: the value of the
/// member, and nothing where the member is absent or `null`. A field that
/// is required, or that stands for an empty list where it is absent, is
/// looked up with [`member`]: `null` is then a value of the wrong shape.
pub open spec fn present(entries: Members, key: Seq<char>) -> Option<JsonView> {
    match member(entries, key) {
        Some(JsonView::Null) => None,
        other => other,
    }
}

/// A text.
pub open spec fn decode_text(v: JsonView) -> Decoded<Seq<char>> {
    match v {
        JsonView::Text(t) => Ok(t),
        _ => Err(InvalidReason::WrongShape),
    }
}

/// A field that must be there and hold a text.
pub open spec fn required_text(field: Option<JsonView>) -> Decoded<Seq<char>> {
    match field {
        Some(v) => decode_text(v),
        None => Err(InvalidReason::MissingField),
    }
}

/// A field that holds a text where it is there.
pub open spec fn optional_text(field: Option<JsonView>) -> Decoded<Option<Seq<char>>> {
    match field {
        Some(v) => match decode_text(v) {
            Ok(t) => Ok(Some(t)),
            Err(e) => Err(e),
        },
        None => Ok(None),
    }
}

/// The first `n` items of a list as texts.
pub open spec fn decode_texts(items: Seq<JsonView>, n: int) -> Decoded<Seq<Seq<char>>>
    decreases n,
{
    if n <= 0 || n > items.len() {
        Ok(Seq::empty())
    } else {
        match decode_texts(items, n - 1) {
            Ok(front) => match decode_text(items[n - 1]) {
                Ok(t) => Ok(front.push(t)),
                Err(e) => Err(e),
            },
            Err(e) => Err(e),
        }
    }
}

/// A list of texts.
pub open spec fn decode_text_list(v: JsonView) -> Decoded<Seq<Seq<char>>> {
    match v {
        JsonView::List(items) => decode_texts(items, items.len() as int),
        _ => Err(InvalidReason::WrongShape),
    }
}

/// The values of an argument entry: a single text stands for the list of
/// that one text; an absent field for the empty list.
pub open spec fn decode_values(field: Option<JsonView>) -> Decoded<Seq<Seq<char>>> {
    match field {
        Some(JsonView::Text(t)) => Ok(seq![t]),
        Some(v) => decode_text_list(v),
        None => Ok(Seq::empty()),
    }
}

/// An artifact: `path`, `sha1` and `url`, all required.
pub open spec fn decode_artifact(v: JsonView) -> Decoded<ArtifactView> {
    match v {
        JsonView::Object(entries) => {
            let path = required_text(member(entries, "path"@));
            let sha1 = required_text(member(entries, "sha1"@));
            let url = required_text(member(entries, "url"@));
            if path is Err {
                Err(path->Err_0)
            } else if sha1 is Err {
                Err(sha1->Err_0)
            } else if url is Err {
                Err(url->Err_0)
            } else {
                Ok(ArtifactView { path: path->Ok_0, sha1: sha1->Ok_0, url: url->Ok_0 })
            }
        },
        _ => Err(InvalidReason::WrongShape),
    }
}

/// A field that holds an artifact where it is there.
pub open spec fn optional_artifact(field: Option<JsonView>) -> Decoded<Option<ArtifactView>> {
    match field {
        Some(v) => match decode_artifact(v) {
            Ok(a) => Ok(Some(a)),
            Err(e) => Err(e),
        },
        None => Ok(None),
    }
}

/// Whether a classifier key is that of one of the three platforms.
pub open spec fn platform_key(key: Seq<char>) -> bool {
    key == "natives-osx"@ || key == "natives-linux"@ || key == "natives-windows"@
}

/// The first `n` members of an object of classifiers that stand under no
/// platform key, each as an artifact under its key.
pub open spec fn decode_extras(entries: Members, n: int) -> Decoded<
    Seq<(Seq<char>, ArtifactView)>,
>
    decreases n,
{
    if n <= 0 || n > entries.len() {
        Ok(Seq::empty())
    } else {
        match decode_extras(entries, n - 1) {
            Ok(front) => if platform_key(entries[n - 1].0) {
                Ok(front)
            } else {
                match decode_artifact(entries[n - 1].1) {
                    Ok(a) => Ok(front.push((entries[n - 1].0, a))),
                    Err(e) => Err(e),
                }
            },
            Err(e) => Err(e),
        }
    }
}

/// The classifiers of a library: `natives-osx`, `natives-linux` and
/// `natives-windows`, each optional, and every member under another key.
pub open spec fn decode_classifiers(v: JsonView) -> Decoded<ClassifiersView> {
    match v {
        JsonView::Object(entries) => {
            let osx = optional_artifact(present(entries, "natives-osx"@));
            let linux = optional_artifact(present(entries, "natives-linux"@));
            let windows = optional_artifact(present(entries, "natives-windows"@));
            let others = decode_extras(entries, entries.len() as int);
            if osx is Err {
                Err(osx->Err_0)
            } else if linux is Err {
                Err(linux->Err_0)
            } else if windows is Err {
                Err(windows->Err_0)
            } else if others is Err {
                Err(others->Err_0)
            } else {
                Ok(
                    ClassifiersView {
                        natives_osx: osx->Ok_0,
                        natives_linux: linux->Ok_0,
                        natives_windows: windows->Ok_0,
                        others: others->Ok_0,
                    },
                )
            }
        },
        _ => Err(InvalidReason::WrongShape),
    }
}

/// The downloads of a library: `artifact` and `classifiers`, each optional.
pub open spec fn decode_library_download(v: JsonView) -> Decoded<LibraryDownloadView> {
    match v {
        JsonView::Object(entries) => {
            let artifact = optional_artifact(present(entries, "artifact"@));
            let classifiers: Decoded<Option<ClassifiersView>> = match present(
                entries,
                "classifiers"@,
            ) {
                Some(c) => match decode_classifiers(c) {
                    Ok(x) => Ok(Some(x)),
                    Err(e) => Err(e),
                },
                None => Ok(None),
            };
            if artifact is Err {
                Err(artifact->Err_0)
            } else if classifiers is Err {
                Err(classifiers->Err_0)
            } else {
                Ok(
                    LibraryDownloadView {
                        artifact: artifact->Ok_0,
                        classifiers: classifiers->Ok_0,
                    },
                )
            }
        },
        _ => Err(InvalidReason::WrongShape),
    }
}

/// The extraction settings of a library: `exclude`, a list of texts that
/// is empty where the field is absent.
pub open spec fn decode_extract(v: JsonView) -> Decoded<ExtractView> {
    match v {
        JsonView::Object(entries) => match member(entries, "exclude"@) {
            Some(list) => match decode_text_list(list) {
                Ok(exclude) => Ok(ExtractView { exclude }),
                Err(e) => Err(e),
            },
            None => Ok(ExtractView { exclude: Seq::empty() }),
        },
        _ => Err(InvalidReason::WrongShape),
    }
}

/// The operating-system part of a rule: `name`, `arch` and `version`, each optional.
pub open spec fn decode_os(v: JsonView) -> Decoded<OsView> {
    match v {
        JsonView::Object(entries) => {
            let name = optional_text(present(entries, "name"@));
            let arch = optional_text(present(entries, "arch"@));
            let version = optional_text(present(entries, "version"@));
            if name is Err {
                Err(name->Err_0)
            } else if arch is Err {
                Err(arch->Err_0)
            } else if version is Err {
                Err(version->Err_0)
            } else {
                Ok(OsView { name: name->Ok_0, arch: arch->Ok_0, version: version->Ok_0 })
            }
        },
        _ => Err(InvalidReason::WrongShape),
    }
}

/// The first `n` members of an object as feature flags: each value a boolean.
pub open spec fn decode_flags(entries: Members, n: int) -> Decoded<Seq<(Seq<char>, bool)>>
    decreases n,
{
    if n <= 0 || n > entries.len() {
        Ok(Seq::empty())
    } else {
        match decode_flags(entries, n - 1) {
            Ok(front) => match entries[n - 1].1 {
                JsonView::Bool(b) => Ok(front.push((entries[n - 1].0, b))),
                _ => Err(InvalidReason::WrongShape),
            },
            Err(e) => Err(e),
        }
    }
}

/// The features of a rule: an object of booleans.
pub open spec fn decode_features(v: JsonView) -> Decoded<Seq<(Seq<char>, bool)>> {
    match v {
        JsonView::Object(entries) => decode_flags(entries, entries.len() as int),
        _ => Err(InvalidReason::WrongShape),
    }
}

/// The first `n` members of an object as names: each value a text.
pub open spec fn decode_names(entries: Members, n: int) -> Decoded<Seq<(Seq<char>, Seq<char>)>>
    decreases n,
{
    if n <= 0 || n > entries.len() {
        Ok(Seq::empty())
    } else {
        match decode_names(entries, n - 1) {
            Ok(front) => match entries[n - 1].1 {
                JsonView::Text(t) => Ok(front.push((entries[n - 1].0, t))),
                _ => Err(InvalidReason::WrongShape),
            },
            Err(e) => Err(e),
        }
    }
}

/// The natives of a library: an object of texts.
pub open spec fn decode_natives(v: JsonView) -> Decoded<Seq<(Seq<char>, Seq<char>)>> {
    match v {
        JsonView::Object(entries) => decode_names(entries, entries.len() as int),
        _ => Err(InvalidReason::WrongShape),
    }
}

/// The action of a rule: `allow` or `disallow`.
pub open spec fn decode_action(field: Option<JsonView>) -> Decoded<RuleAction> {
    match field {
        Some(JsonView::Text(t)) => if t == "allow"@ {
            Ok(RuleAction::Allow)
        } else if t == "disallow"@ {
            Ok(RuleAction::Disallow)
        } else {
            Err(InvalidReason::WrongShape)
        },
        Some(_) => Err(InvalidReason::WrongShape),
        None => Err(InvalidReason::MissingField),
    }
}

/// A rule: `action`, required, and `os` and `features`, each optional.
pub open spec fn decode_rule(v: JsonView) -> Decoded<RuleView> {
    match v {
        JsonView::Object(entries) => {
            let action = decode_action(member(entries, "action"@));
            let os: Decoded<Option<OsView>> = match present(entries, "os"@) {
                Some(x) => match decode_os(x) {
                    Ok(os) => Ok(Some(os)),
                    Err(e) => Err(e),
                },
                None => Ok(None),
            };
            let features: Decoded<Option<Seq<(Seq<char>, bool)>>> = match present(
                entries,
                "features"@,
            ) {
                Some(x) => match decode_features(x) {
                    Ok(f) => Ok(Some(f)),
                    Err(e) => Err(e),
                },
                None => Ok(None),
            };
            if action is Err {
                Err(action->Err_0)
            } else if os is Err {
                Err(os->Err_0)
            } else if features is Err {
                Err(features->Err_0)
            } else {
                Ok(RuleView { action: action->Ok_0, os: os->Ok_0, features: features->Ok_0 })
            }
        },
        _ => Err(InvalidReason::WrongShape),
    }
}

/// The first `n` items of a list as rules.
pub open spec fn decode_rules(items: Seq<JsonView>, n: int) -> Decoded<Seq<RuleView>>
    decreases n,
{
    if n <= 0 || n > items.len() {
        Ok(Seq::empty())
    } else {
        match decode_rules(items, n - 1) {
            Ok(front) => match decode_rule(items[n - 1]) {
                Ok(rule) => Ok(front.push(rule)),
                Err(e) => Err(e),
            },
            Err(e) => Err(e),
        }
    }
}

/// A list of rules, which is empty where the field is absent.
pub open spec fn decode_rule_list(field: Option<JsonView>) -> Decoded<Seq<RuleView>> {
    match field {
        Some(JsonView::List(items)) => decode_rules(items, items.len() as int),
        Some(_) => Err(InvalidReason::WrongShape),
        None => Ok(Seq::empty()),
    }
}

/// A library: `downloads` and `name`, required; `rules`, empty where
/// absent; `natives` and `extract`, each optional.
pub open spec fn decode_library(v: JsonView) -> Decoded<LibraryView> {
    match v {
        JsonView::Object(entries) => {
            let downloads: Decoded<LibraryDownloadView> = match member(entries, "downloads"@) {
                Some(x) => decode_library_download(x),
                None => Err(InvalidReason::MissingField),
            };
            let name = required_text(member(entries, "name"@));
            let rules = decode_rule_list(member(entries, "rules"@));
            let natives: Decoded<Option<Seq<(Seq<char>, Seq<char>)>>> = match present(
                entries,
                "natives"@,
            ) {
                Some(x) => match decode_natives(x) {
                    Ok(n) => Ok(Some(n)),
                    Err(e) => Err(e),
                },
                None => Ok(None),
            };
            let extract: Decoded<Option<ExtractView>> = match present(entries, "extract"@) {
                Some(x) => match decode_extract(x) {
                    Ok(e) => Ok(Some(e)),
                    Err(e) => Err(e),
                },
                None => Ok(None),
            };
            if downloads is Err {
                Err(downloads->Err_0)
            } else if name is Err {
                Err(name->Err_0)
            } else if rules is Err {
                Err(rules->Err_0)
            } else if natives is Err {
                Err(natives->Err_0)
            } else if extract is Err {
                Err(extract->Err_0)
            } else {
                Ok(
                    LibraryView {
                        downloads: downloads->Ok_0,
                        name: name->Ok_0,
                        rules: rules->Ok_0,
                        natives: natives->Ok_0,
                        extract: extract->Ok_0,
                    },
                )
            }
        },
        _ => Err(InvalidReason::WrongShape),
    }
}

/// The first `n` items of a list as libraries.
pub open spec fn decode_libraries(items: Seq<JsonView>, n: int) -> Decoded<Seq<LibraryView>>
    decreases n,
{
    if n <= 0 || n > items.len() {
        Ok(Seq::empty())
    } else {
        match decode_libraries(items, n - 1) {
            Ok(front) => match decode_library(items[n - 1]) {
                Ok(library) => Ok(front.push(library)),
                Err(e) => Err(e),
            },
            Err(e) => Err(e),
        }
    }
}

/// The list of libraries, which is required.
pub open spec fn decode_library_list(field: Option<JsonView>) -> Decoded<Seq<LibraryView>> {
    match field {
        Some(JsonView::List(items)) => decode_libraries(items, items.len() as int),
        Some(_) => Err(InvalidReason::WrongShape),
        None => Err(InvalidReason::MissingField),
    }
}

/// The reference to the asset index: `id`, `sha1` and `url`, all required.
pub open spec fn decode_asset_index(field: Option<JsonView>) -> Decoded<AssetIndexView> {
    match field {
        Some(JsonView::Object(entries)) => {
            let id = required_text(member(entries, "id"@));
            let sha1 = required_text(member(entries, "sha1"@));
            let url = required_text(member(entries, "url"@));
            if id is Err {
                Err(id->Err_0)
            } else if sha1 is Err {
                Err(sha1->Err_0)
            } else if url is Err {
                Err(url->Err_0)
            } else {
                Ok(AssetIndexView { id: id->Ok_0, sha1: sha1->Ok_0, url: url->Ok_0 })
            }
        },
        Some(_) => Err(InvalidReason::WrongShape),
        None => Err(InvalidReason::MissingField),
    }
}

/// The logging configuration file: `id`, `sha1` and `url`, all required.
pub open spec fn decode_file(field: Option<JsonView>) -> Decoded<FileView> {
    match field {
        Some(JsonView::Object(entries)) => {
            let id = required_text(member(entries, "id"@));
            let sha1 = required_text(member(entries, "sha1"@));
            let url = required_text(member(entries, "url"@));
            if id is Err {
                Err(id->Err_0)
            } else if sha1 is Err {
                Err(sha1->Err_0)
            } else if url is Err {
                Err(url->Err_0)
            } else {
                Ok(FileView { id: id->Ok_0, sha1: sha1->Ok_0, url: url->Ok_0 })
            }
        },
        Some(_) => Err(InvalidReason::WrongShape),
        None => Err(InvalidReason::MissingField),
    }
}

/// The client download: `sha1` and `url`, both required.
pub open spec fn decode_client(field: Option<JsonView>) -> Decoded<ClientView> {
    match field {
        Some(JsonView::Object(entries)) => {
            let sha1 = required_text(member(entries, "sha1"@));
            let url = required_text(member(entries, "url"@));
            if sha1 is Err {
                Err(sha1->Err_0)
            } else if url is Err {
                Err(url->Err_0)
            } else {
                Ok(ClientView { sha1: sha1->Ok_0, url: url->Ok_0 })
            }
        },
        Some(_) => Err(InvalidReason::WrongShape),
        None => Err(InvalidReason::MissingField),
    }
}

/// The downloads of a version: `client`, required.
pub open spec fn decode_downloads(field: Option<JsonView>) -> Decoded<DownloadsView> {
    match field {
        Some(JsonView::Object(entries)) => match decode_client(member(entries, "client"@)) {
            Ok(client) => Ok(DownloadsView { client }),
            Err(e) => Err(e),
        },
        Some(_) => Err(InvalidReason::WrongShape),
        None => Err(InvalidReason::MissingField),
    }
}

/// The Java runtime of a version: `majorVersion`, an integer from 0 to 255.
pub open spec fn decode_java_version(field: Option<JsonView>) -> Decoded<JavaVersionView> {
    match field {
        Some(JsonView::Object(entries)) => match member(entries, "majorVersion"@) {
            Some(JsonView::Unsigned(n)) => if n <= 255 {
                Ok(JavaVersionView { major_version: n as u8 })
            } else {
                Err(InvalidReason::WrongShape)
            },
            Some(_) => Err(InvalidReason::WrongShape),
            None => Err(InvalidReason::MissingField),
        },
        Some(_) => Err(InvalidReason::WrongShape),
        None => Err(InvalidReason::MissingField),
    }
}

/// The client logging configuration: `argument`, `file` and `type`, all required.
pub open spec fn decode_client2(field: Option<JsonView>) -> Decoded<Client2View> {
    match field {
        Some(JsonView::Object(entries)) => {
            let argument = required_text(member(entries, "argument"@));
            let file = decode_file(member(entries, "file"@));
            let type_field = required_text(member(entries, "type"@));
            if argument is Err {
                Err(argument->Err_0)
            } else if file is Err {
                Err(file->Err_0)
            } else if type_field is Err {
                Err(type_field->Err_0)
            } else {
                Ok(
                    Client2View {
                        argument: argument->Ok_0,
                        file: file->Ok_0,
                        type_field: type_field->Ok_0,
                    },
                )
            }
        },
        Some(_) => Err(InvalidReason::WrongShape),
        None => Err(InvalidReason::MissingField),
    }
}

/// The logging section, which is optional: `client`, required.
pub open spec fn decode_logging(field: Option<JsonView>) -> Decoded<Option<LoggingView>> {
    match field {
        Some(JsonView::Object(entries)) => match decode_client2(member(entries, "client"@)) {
            Ok(client) => Ok(Some(LoggingView { client })),
            Err(e) => Err(e),
        },
        Some(_) => Err(InvalidReason::WrongShape),
        None => Ok(None),
    }
}

/// The release type, which is `release` where the field is absent.
pub open spec fn decode_release_type(field: Option<JsonView>) -> Decoded<ReleaseType> {
    match field {
        Some(JsonView::Text(t)) => if t == "release"@ {
            Ok(ReleaseType::Release)
        } else if t == "snapshot"@ {
            Ok(ReleaseType::Snapshot)
        } else if t == "old-beta"@ {
            Ok(ReleaseType::OldBeta)
        } else if t == "old-alpha"@ {
            Ok(ReleaseType::OldAlpha)
        } else {
            Err(InvalidReason::WrongShape)
        },
        Some(_) => Err(InvalidReason::WrongShape),
        None => Ok(ReleaseType::Release),
    }
}

/// An argument entry: a text is a plain entry; an object is a conditional
/// entry with `rules` and `value`, each empty where absent.
pub open spec fn decode_item(v: JsonView) -> Decoded<ModernArgumentsItemView> {
    match v {
        JsonView::Text(t) => Ok(ModernArgumentsItemView::Simple(t)),
        JsonView::Object(entries) => {
            let rules = decode_rule_list(member(entries, "rules"@));
            let value = decode_values(member(entries, "value"@));
            if rules is Err {
                Err(rules->Err_0)
            } else if value is Err {
                Err(value->Err_0)
            } else {
                Ok(
                    ModernArgumentsItemView::Rule(
                        ArgumentRuleView { rules: rules->Ok_0, value: value->Ok_0 },
                    ),
                )
            }
        },
        _ => Err(InvalidReason::WrongShape),
    }
}

/// The first `n` items of a list as argument entries.
pub open spec fn decode_items(items: Seq<JsonView>, n: int) -> Decoded<
    Seq<ModernArgumentsItemView>,
>
    decreases n,
{
    if n <= 0 || n > items.len() {
        Ok(Seq::empty())
    } else {
        match decode_items(items, n - 1) {
            Ok(front) => match decode_item(items[n - 1]) {
                Ok(item) => Ok(front.push(item)),
                Err(e) => Err(e),
            },
            Err(e) => Err(e),
        }
    }
}

/// A list of argument entries, which is required.
pub open spec fn decode_item_list(field: Option<JsonView>) -> Decoded<
    Seq<ModernArgumentsItemView>,
> {
    match field {
        Some(JsonView::List(items)) => decode_items(items, items.len() as int),
        Some(_) => Err(InvalidReason::WrongShape),
        None => Err(InvalidReason::MissingField),
    }
}

/// The modern arguments: `game` and `jvm`, both required.
pub open spec fn decode_modern(v: JsonView) -> Decoded<ModernArgumentsView> {
    match v {
        JsonView::Object(entries) => {
            let game = decode_item_list(member(entries, "game"@));
            let jvm = decode_item_list(member(entries, "jvm"@));
            if game is Err {
                Err(game->Err_0)
            } else if jvm is Err {
                Err(jvm->Err_0)
            } else {
                Ok(ModernArgumentsView { game: game->Ok_0, jvm: jvm->Ok_0 })
            }
        },
        _ => Err(InvalidReason::WrongShape),
    }
}

/// The two argument forms of a document: where `arguments` is there it is
/// read as the modern form and `minecraftArguments` is not looked at; else
/// `minecraftArguments` is read as the legacy form, and must be there.
pub open spec fn decode_arguments(entries: Members) -> Decoded<
    (Option<Seq<char>>, Option<ModernArgumentsView>),
> {
    match present(entries, "arguments"@) {
        Some(v) => match decode_modern(v) {
            Ok(modern) => Ok((None, Some(modern))),
            Err(e) => Err(e),
        },
        None => match required_text(present(entries, "minecraftArguments"@)) {
            Ok(line) => Ok((Some(line), None)),
            Err(e) => Err(e),
        },
    }
}

/// The manifest that a document holds, or why it holds none. Members that
/// the format does not name are ignored.
pub open spec fn decode_manifest(doc: JsonView) -> Decoded<MinecraftManifestView> {
    match doc {
        JsonView::Object(entries) => {
            let asset_index = decode_asset_index(member(entries, "assetIndex"@));
            let downloads = decode_downloads(member(entries, "downloads"@));
            let java_version = decode_java_version(member(entries, "javaVersion"@));
            let libraries = decode_library_list(member(entries, "libraries"@));
            let logging = decode_logging(present(entries, "logging"@));
            let main_class = required_text(member(entries, "mainClass"@));
            let release_time = required_text(member(entries, "releaseTime"@));
            let version = required_text(member(entries, "id"@));
            let release_type = decode_release_type(member(entries, "type"@));
            let arguments = decode_arguments(entries);
            if asset_index is Err {
                Err(asset_index->Err_0)
            } else if downloads is Err {
                Err(downloads->Err_0)
            } else if java_version is Err {
                Err(java_version->Err_0)
            } else if libraries is Err {
                Err(libraries->Err_0)
            } else if logging is Err {
                Err(logging->Err_0)
            } else if main_class is Err {
                Err(main_class->Err_0)
            } else if release_time is Err {
                Err(release_time->Err_0)
            } else if version is Err {
                Err(version->Err_0)
            } else if release_type is Err {
                Err(release_type->Err_0)
            } else if arguments is Err {
                Err(arguments->Err_0)
            } else {
                Ok(
                    MinecraftManifestView {
                        asset_index: asset_index->Ok_0,
                        downloads: downloads->Ok_0,
                        java_version: java_version->Ok_0,
                        libraries: libraries->Ok_0,
                        logging: logging->Ok_0,
                        main_class: main_class->Ok_0,
                        release_time: release_time->Ok_0,
                        version: version->Ok_0,
                        release_type: release_type->Ok_0,
                        minecraft_arguments: arguments->Ok_0.0,
                        arguments: arguments->Ok_0.1,
                    },
                )
            }
        },
        _ => Err(InvalidReason::WrongShape),
    }
}

/// The members with one more member of this name where there is a value.
pub open spec fn with_optional(entries: Members, key: Seq<char>, value: Option<JsonView>)
    -> Members {
    match value {
        Some(v) => entries.push((key, v)),
        None => entries,
    }
}

/// The members with one more member that holds a list, unless the list is empty.
pub open spec fn with_list(entries: Members, key: Seq<char>, items: Seq<JsonView>) -> Members {
    if items.len() == 0 {
        entries
    } else {
        entries.push((key, JsonView::List(items)))
    }
}

/// A list of texts on the wire.
pub open spec fn encode_texts(texts: Seq<Seq<char>>) -> Seq<JsonView> {
    Seq::new(texts.len(), |i: int| JsonView::Text(texts[i]))
}

/// An artifact on the wire.
pub open spec fn encode_artifact(a: ArtifactView) -> JsonView {
    JsonView::Object(
        Seq::empty().push(("path"@, JsonView::Text(a.path))).push(
            ("sha1"@, JsonView::Text(a.sha1)),
        ).push(("url"@, JsonView::Text(a.url))),
    )
}

/// An optional artifact on the wire.
pub open spec fn encode_optional_artifact(a: Option<ArtifactView>) -> Option<JsonView> {
    match a {
        Some(a) => Some(encode_artifact(a)),
        None => None,
    }
}

/// Archives under their keys on the wire, in their order.
pub open spec fn encode_extras(others: Seq<(Seq<char>, ArtifactView)>) -> Members
    decreases others.len(),
{
    if others.len() == 0 {
        Seq::empty()
    } else {
        encode_extras(others.drop_last()).push((others.last().0, encode_artifact(others.last().1)))
    }
}

/// The classifiers of a library on the wire: the archives under other
/// keys, then those of the three platforms.
pub open spec fn encode_classifiers(c: ClassifiersView) -> JsonView {
    JsonView::Object(
        with_optional(
            with_optional(
                with_optional(
                    encode_extras(c.others),
                    "natives-osx"@,
                    encode_optional_artifact(c.natives_osx),
                ),
                "natives-linux"@,
                encode_optional_artifact(c.natives_linux),
            ),
            "natives-windows"@,
            encode_optional_artifact(c.natives_windows),
        ),
    )
}

/// The downloads of a library on the wire.
pub open spec fn encode_library_download(d: LibraryDownloadView) -> JsonView {
    JsonView::Object(
        with_optional(
            with_optional(Seq::empty(), "artifact"@, encode_optional_artifact(d.artifact)),
            "classifiers"@,
            match d.classifiers {
                Some(c) => Some(encode_classifiers(c)),
                None => None,
            },
        ),
    )
}

/// The extraction settings of a library on the wire.
pub open spec fn encode_extract(e: ExtractView) -> JsonView {
    JsonView::Object(seq![("exclude"@, JsonView::List(encode_texts(e.exclude)))])
}

/// An optional text on the wire.
pub open spec fn encode_optional_text(t: Option<Seq<char>>) -> Option<JsonView> {
    match t {
        Some(t) => Some(JsonView::Text(t)),
        None => None,
    }
}

/// The operating-system part of a rule on the wire.
pub open spec fn encode_os(os: OsView) -> JsonView {
    JsonView::Object(
        with_optional(
            with_optional(
                with_optional(Seq::empty(), "name"@, encode_optional_text(os.name)),
                "arch"@,
                encode_optional_text(os.arch),
            ),
            "version"@,
            encode_optional_text(os.version),
        ),
    )
}

/// Feature flags on the wire.
pub open spec fn encode_features(flags: Seq<(Seq<char>, bool)>) -> JsonView {
    JsonView::Object(Seq::new(flags.len(), |i: int| (flags[i].0, JsonView::Bool(flags[i].1))))
}

/// The natives of a library on the wire.
pub open spec fn encode_natives(names: Seq<(Seq<char>, Seq<char>)>) -> JsonView {
    JsonView::Object(Seq::new(names.len(), |i: int| (names[i].0, JsonView::Text(names[i].1))))
}

/// The wire name of an action.
pub open spec fn action_name(action: RuleAction) -> Seq<char> {
    match action {
        RuleAction::Allow => "allow"@,
        RuleAction::Disallow => "disallow"@,
    }
}

/// A rule on the wire.
pub open spec fn encode_rule(rule: RuleView) -> JsonView {
    JsonView::Object(
        with_optional(
            with_optional(
                Seq::empty().push(("action"@, JsonView::Text(action_name(rule.action)))),
                "os"@,
                match rule.os {
                    Some(os) => Some(encode_os(os)),
                    None => None,
                },
            ),
            "features"@,
            match rule.features {
                Some(flags) => Some(encode_features(flags)),
                None => None,
            },
        ),
    )
}

/// A list of rules on the wire.
pub open spec fn encode_rules(rules: Seq<RuleView>) -> Seq<JsonView> {
    Seq::new(rules.len(), |i: int| encode_rule(rules[i]))
}

/// A library on the wire; empty rules are left out.
pub open spec fn encode_library(library: LibraryView) -> JsonView {
    JsonView::Object(
        with_optional(
            with_optional(
                with_list(
                    Seq::empty().push(
                        ("downloads"@, encode_library_download(library.downloads)),
                    ).push(("name"@, JsonView::Text(library.name))),
                    "rules"@,
                    encode_rules(library.rules),
                ),
                "natives"@,
                match library.natives {
                    Some(names) => Some(encode_natives(names)),
                    None => None,
                },
            ),
            "extract"@,
            match library.extract {
                Some(e) => Some(encode_extract(e)),
                None => None,
            },
        ),
    )
}

/// A list of libraries on the wire.
pub open spec fn encode_libraries(libraries: Seq<LibraryView>) -> Seq<JsonView> {
    Seq::new(libraries.len(), |i: int| encode_library(libraries[i]))
}

/// An argument entry on the wire: a plain entry is a text; a conditional
/// entry is an object that leaves out empty rules and an empty value, and
/// holds its value as a list.
pub open spec fn encode_item(item: ModernArgumentsItemView) -> JsonView {
    match item {
        ModernArgumentsItemView::Simple(t) => JsonView::Text(t),
        ModernArgumentsItemView::Rule(rule) => JsonView::Object(
            with_list(
                with_list(Seq::empty(), "rules"@, encode_rules(rule.rules)),
                "value"@,
                encode_texts(rule.value),
            ),
        ),
    }
}

/// A list of argument entries on the wire.
pub open spec fn encode_items(items: Seq<ModernArgumentsItemView>) -> Seq<JsonView> {
    Seq::new(items.len(), |i: int| encode_item(items[i]))
}

/// The modern arguments on the wire.
pub open spec fn encode_modern(modern: ModernArgumentsView) -> JsonView {
    JsonView::Object(
        Seq::empty().push(("game"@, JsonView::List(encode_items(modern.game)))).push(
            ("jvm"@, JsonView::List(encode_items(modern.jvm))),
        ),
    )
}

/// Three texts under the names `id`, `sha1` and `url`.
pub open spec fn encode_reference(id: Seq<char>, sha1: Seq<char>, url: Seq<char>) -> JsonView {
    JsonView::Object(
        Seq::empty().push(("id"@, JsonView::Text(id))).push(("sha1"@, JsonView::Text(sha1))).push(
            ("url"@, JsonView::Text(url)),
        ),
    )
}

/// The client download on the wire.
pub open spec fn encode_client(client: ClientView) -> JsonView {
    JsonView::Object(
        Seq::empty().push(("sha1"@, JsonView::Text(client.sha1))).push(
            ("url"@, JsonView::Text(client.url)),
        ),
    )
}

/// The logging section on the wire.
pub open spec fn encode_logging(logging: LoggingView) -> JsonView {
    JsonView::Object(
        seq![
            (
                "client"@,
                JsonView::Object(
                    Seq::empty().push(("argument"@, JsonView::Text(logging.client.argument))).push(
                        (
                            "file"@,
                            encode_reference(
                                logging.client.file.id,
                                logging.client.file.sha1,
                                logging.client.file.url,
                            ),
                        ),
                    ).push(("type"@, JsonView::Text(logging.client.type_field))),
                ),
            ),
        ],
    )
}

/// The document of a manifest. Absent optional fields are left out, and so
/// is the argument form that the manifest does not have.
pub open spec fn encode_manifest(m: MinecraftManifestView) -> JsonView {
    JsonView::Object(
        with_optional(
            with_optional(
                with_optional(
                    Seq::empty().push(
                        (
                            "assetIndex"@,
                            encode_reference(
                                m.asset_index.id,
                                m.asset_index.sha1,
                                m.asset_index.url,
                            ),
                        ),
                    ).push(
                        (
                            "downloads"@,
                            JsonView::Object(seq![("client"@, encode_client(m.downloads.client))]),
                        ),
                    ).push(
                        (
                            "javaVersion"@,
                            JsonView::Object(
                                seq![
                                    (
                                        "majorVersion"@,
                                        JsonView::Unsigned(m.java_version.major_version as u64),
                                    ),
                                ],
                            ),
                        ),
                    ).push(("libraries"@, JsonView::List(encode_libraries(m.libraries)))).push(
                        ("mainClass"@, JsonView::Text(m.main_class)),
                    ).push(("releaseTime"@, JsonView::Text(m.release_time))).push(
                        ("id"@, JsonView::Text(m.version)),
                    ).push(("type"@, JsonView::Text(release_type_name(m.release_type)))),
                    "logging"@,
                    match m.logging {
                        Some(logging) => Some(encode_logging(logging)),
                        None => None,
                    },
                ),
                "minecraftArguments"@,
                encode_optional_text(m.minecraft_arguments),
            ),
            "arguments"@,
            match m.arguments {
                Some(modern) => Some(encode_modern(modern)),
                None => None,
            },
        ),
    )
}

/// Whether no archive of a library stands in `others` under the key of a
/// platform, where its field is the place for it.
pub open spec fn tidy_classifiers(c: ClassifiersView) -> bool {
    forall|i: int| 0 <= i < c.others.len() ==> !platform_key((#[trigger] c.others[i]).0)
}

/// Whether the classifiers of a library, if it has any, are tidy.
pub open spec fn tidy_library(library: LibraryView) -> bool {
    library.downloads.classifiers matches Some(c) ==> tidy_classifiers(c)
}

/// Whether the classifiers of every library of a manifest are tidy.
pub open spec fn tidy_manifest(m: MinecraftManifestView) -> bool {
    forall|i: int| 0 <= i < m.libraries.len() ==> tidy_library(#[trigger] m.libraries[i])
}

/// Whether exactly one of the two argument forms is populated.
pub open spec fn has_one_argument_form(m: MinecraftManifestView) -> bool {
    (m.minecraft_arguments is Some) != (m.arguments is Some)
}

} // verus!
