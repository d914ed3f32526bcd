use crate::host::{HostSnapshotView, is_64_bit};
use crate::launch::{
    DownloadView, InstallRootsView, InvalidReason, LaunchErrorView, LaunchIdentityView,
    LaunchPlanView, LocalFileView, LoggingPlanView, NativeEntryView,
};
use crate::manifest::{
    ArtifactView, ClassifiersView, LibraryView, MinecraftManifestView, ModernArgumentsItemView,
    ReleaseType,
};
use crate::rules::admits;
use crate::text::{TableView, expanded, joined, path_under, words};
use vstd::prelude::*;

verus! {

/// The position of the second `:` of a coordinate at or behind `from`, or
/// the coordinate's length where there is none; `seen` says whether a `:`
/// stands before `from`.
pub open spec fn second_colon(name: Seq<char>, from: int, seen: bool) -> int
    decreases name.len() - from,
{
    if from < 0 || from >= name.len() {
        name.len() as int
    } else if name[from] == ':' {
        if seen {
            from
        } else {
            second_colon(name, from + 1, true)
        }
    } else {
        second_colon(name, from + 1, seen)
    }
}

/// The `group:artifact` prefix of a maven coordinate: what stands before
/// its second `:`, or all of it.
pub open spec fn coordinate_key(name: Seq<char>) -> Seq<char> {
    name.take(second_colon(name, 0, false))
}

/// Whether a library is admitted on the host and has an artifact for the classpath.
pub open spec fn contributes(lib: LibraryView, host: HostSnapshotView) -> bool {
    admits(lib.rules, host) && lib.downloads.artifact is Some
}

/// Whether a later library that contributes to the classpath has the same
/// `group:artifact` prefix as library `i`.
pub open spec fn superseded(libs: Seq<LibraryView>, host: HostSnapshotView, i: int) -> bool {
    exists|j: int|
        i < j < libs.len() && contributes(#[trigger] libs[j], host) && coordinate_key(libs[j].name)
            == coordinate_key(libs[i].name)
}

/// Whether library `i` stands on the classpath: it contributes, and it is
/// the last to contribute under its `group:artifact` prefix.
pub open spec fn on_classpath(libs: Seq<LibraryView>, host: HostSnapshotView, i: int) -> bool {
    0 <= i < libs.len() && contributes(libs[i], host) && !superseded(libs, host, i)
}

/// Where the artifact of library `i` lies.
pub open spec fn artifact_path(libs: Seq<LibraryView>, roots: InstallRootsView, i: int) -> Seq<
    char,
> {
    path_under(roots.libraries_dir, libs[i].downloads.artifact->Some_0.path)
}

/// The classpath entries of the first `n` libraries, in their order.
pub open spec fn library_paths(
    libs: Seq<LibraryView>,
    host: HostSnapshotView,
    roots: InstallRootsView,
    n: int,
) -> Seq<Seq<char>>
    decreases n,
{
    if n <= 0 {
        Seq::empty()
    } else {
        let front = library_paths(libs, host, roots, n - 1);
        if on_classpath(libs, host, n - 1) {
            front.push(artifact_path(libs, roots, n - 1))
        } else {
            front
        }
    }
}

/// The classpath: the entries of the libraries, then the client jar.
pub open spec fn classpath_of(
    manifest: MinecraftManifestView,
    host: HostSnapshotView,
    roots: InstallRootsView,
) -> Seq<Seq<char>> {
    library_paths(manifest.libraries, host, roots, manifest.libraries.len() as int).push(
        roots.client_jar_path,
    )
}

/// The value of the last entry with this key.
pub open spec fn lookup(entries: Seq<(Seq<char>, Seq<char>)>, key: Seq<char>) -> Option<Seq<char>>
    decreases entries.len(),
{
    if entries.len() == 0 {
        None
    } else if entries.last().0 == key {
        Some(entries.last().1)
    } else {
        lookup(entries.drop_last(), key)
    }
}

/// The word size of an architecture, as classifier keys spell it.
pub open spec fn arch_bits(arch: Seq<char>) -> Seq<char> {
    if is_64_bit(arch) {
        seq!['6', '4']
    } else {
        seq!['3', '2']
    }
}

/// The classifier key of a template on a host: `${arch}` stands for the
/// host's word size.
pub open spec fn classifier_key(template: Seq<char>, host: HostSnapshotView) -> Seq<char> {
    expanded(template, seq![("arch"@, arch_bits(host.arch))])
}

/// The archive of the last entry with this key.
pub open spec fn archive_under(others: Seq<(Seq<char>, ArtifactView)>, key: Seq<char>) -> Option<
    ArtifactView,
>
    decreases others.len(),
{
    if others.len() == 0 {
        None
    } else if others.last().0 == key {
        Some(others.last().1)
    } else {
        archive_under(others.drop_last(), key)
    }
}

/// The archive that a set of classifiers holds under a key: that of the
/// platform for one of the three platform keys, else that of the last
/// other entry with the key.
pub open spec fn classifier(classifiers: ClassifiersView, key: Seq<char>) -> Option<ArtifactView> {
    if key == "natives-osx"@ {
        classifiers.natives_osx
    } else if key == "natives-linux"@ {
        classifiers.natives_linux
    } else if key == "natives-windows"@ {
        classifiers.natives_windows
    } else {
        archive_under(classifiers.others, key)
    }
}

/// The native archive that a library has for the host, if any.
pub open spec fn native_archive(lib: LibraryView, host: HostSnapshotView) -> Option<ArtifactView> {
    match (lib.natives, lib.downloads.classifiers) {
        (Some(natives), Some(classifiers)) => match lookup(natives, host.os_name) {
            Some(template) => classifier(classifiers, classifier_key(template, host)),
            None => None,
        },
        _ => None,
    }
}

/// What is left out when a library's native archive is unpacked.
pub open spec fn excludes(lib: LibraryView) -> Seq<Seq<char>> {
    match lib.extract {
        Some(extract) => extract.exclude,
        None => seq!["META-INF/"@],
    }
}

/// The natives entry of a library on the host, if it is admitted and has
/// an archive for the host.
pub open spec fn native_entry(lib: LibraryView, host: HostSnapshotView, roots: InstallRootsView)
    -> Option<NativeEntryView> {
    if admits(lib.rules, host) {
        match native_archive(lib, host) {
            Some(archive) => Some(
                NativeEntryView {
                    source_archive_path: path_under(roots.libraries_dir, archive.path),
                    extract_to: roots.natives_dir,
                    exclude_globs: excludes(lib),
                },
            ),
            None => None,
        }
    } else {
        None
    }
}

/// The natives entries of the first `n` libraries, in their order.
pub open spec fn natives_of(
    libs: Seq<LibraryView>,
    host: HostSnapshotView,
    roots: InstallRootsView,
    n: int,
) -> Seq<NativeEntryView>
    decreases n,
{
    if n <= 0 || n > libs.len() {
        Seq::empty()
    } else {
        let front = natives_of(libs, host, roots, n - 1);
        match native_entry(libs[n - 1], host, roots) {
            Some(entry) => front.push(entry),
            None => front,
        }
    }
}

/// Whether a file with this path and this hash is in place.
pub open spec fn has_file(inventory: Seq<LocalFileView>, path: Seq<char>, sha1: Seq<char>) -> bool {
    exists|i: int|
        0 <= i < inventory.len() && (#[trigger] inventory[i]).path == path && inventory[i].sha1
            == sha1
}

/// Whether a file with this path is in place.
pub open spec fn has_path(inventory: Seq<LocalFileView>, path: Seq<char>) -> bool {
    exists|i: int| 0 <= i < inventory.len() && (#[trigger] inventory[i]).path == path
}

/// The download of an artifact under the libraries directory, unless the
/// file is in place with the artifact's hash.
pub open spec fn artifact_download(
    artifact: ArtifactView,
    roots: InstallRootsView,
    inventory: Seq<LocalFileView>,
) -> Seq<DownloadView> {
    let dest = path_under(roots.libraries_dir, artifact.path);
    if has_file(inventory, dest, artifact.sha1) {
        Seq::empty()
    } else {
        seq![DownloadView { url: artifact.url, dest_path: dest, sha1: artifact.sha1, size: None }]
    }
}

/// The downloads that library `i` asks for: its artifact where it stands
/// on the classpath, then its native archive where it has a natives entry.
pub open spec fn library_downloads(
    libs: Seq<LibraryView>,
    host: HostSnapshotView,
    roots: InstallRootsView,
    inventory: Seq<LocalFileView>,
    i: int,
) -> Seq<DownloadView> {
    let first = if on_classpath(libs, host, i) {
        artifact_download(libs[i].downloads.artifact->Some_0, roots, inventory)
    } else {
        Seq::empty()
    };
    let second = if admits(libs[i].rules, host) && native_archive(libs[i], host) is Some {
        artifact_download(native_archive(libs[i], host)->Some_0, roots, inventory)
    } else {
        Seq::empty()
    };
    first + second
}

/// The downloads of the first `n` libraries, in their order.
pub open spec fn downloads_of(
    libs: Seq<LibraryView>,
    host: HostSnapshotView,
    roots: InstallRootsView,
    inventory: Seq<LocalFileView>,
    n: int,
) -> Seq<DownloadView>
    decreases n,
{
    if n <= 0 || n > libs.len() {
        Seq::empty()
    } else {
        downloads_of(libs, host, roots, inventory, n - 1) + library_downloads(
            libs,
            host,
            roots,
            inventory,
            n - 1,
        )
    }
}

/// Where the logging configuration with this identifier lies.
pub open spec fn log_config_path(roots: InstallRootsView, file_id: Seq<char>) -> Seq<char> {
    path_under(path_under(roots.assets_dir, "log_configs"@), file_id)
}

/// The download of the logging configuration, unless a file is in place at its path.
pub open spec fn logging_download(
    manifest: MinecraftManifestView,
    roots: InstallRootsView,
    inventory: Seq<LocalFileView>,
) -> Seq<DownloadView> {
    match manifest.logging {
        Some(logging) => {
            let dest = log_config_path(roots, logging.client.file.id);
            if has_path(inventory, dest) {
                Seq::empty()
            } else {
                seq![
                    DownloadView {
                        url: logging.client.file.url,
                        dest_path: dest,
                        sha1: logging.client.file.sha1,
                        size: None,
                    },
                ]
            }
        },
        None => Seq::empty(),
    }
}

/// The download of the client jar, unless the file is in place with the
/// hash that the manifest gives.
pub open spec fn client_download(
    manifest: MinecraftManifestView,
    roots: InstallRootsView,
    inventory: Seq<LocalFileView>,
) -> Seq<DownloadView> {
    if has_file(inventory, roots.client_jar_path, manifest.downloads.client.sha1) {
        Seq::empty()
    } else {
        seq![
            DownloadView {
                url: manifest.downloads.client.url,
                dest_path: roots.client_jar_path,
                sha1: manifest.downloads.client.sha1,
                size: None,
            },
        ]
    }
}

/// Everything that has to be fetched: what the libraries ask for, in their
/// order, then the client jar, then the logging configuration.
pub open spec fn downloads_needed(
    manifest: MinecraftManifestView,
    host: HostSnapshotView,
    roots: InstallRootsView,
    inventory: Seq<LocalFileView>,
) -> Seq<DownloadView> {
    downloads_of(manifest.libraries, host, roots, inventory, manifest.libraries.len() as int)
        + client_download(manifest, roots, inventory) + logging_download(
        manifest,
        roots,
        inventory,
    )
}

/// The logging argument of the plan: the manifest's template with `${path}`
/// replaced by the path of the configuration file.
pub open spec fn logging_of(manifest: MinecraftManifestView, roots: InstallRootsView) -> Option<
    LoggingPlanView,
> {
    match manifest.logging {
        Some(logging) => Some(
            LoggingPlanView {
                argument_with_path: expanded(
                    logging.client.argument,
                    seq![("path"@, log_config_path(roots, logging.client.file.id))],
                ),
            },
        ),
        None => None,
    }
}

/// What an argument entry puts on the command line of a host: a plain
/// entry itself, a conditional entry its values where its rules admit the
/// host and nothing where they do not.
pub open spec fn emitted(item: ModernArgumentsItemView, host: HostSnapshotView) -> Seq<Seq<char>> {
    match item {
        ModernArgumentsItemView::Simple(text) => seq![text],
        ModernArgumentsItemView::Rule(rule) => if admits(rule.rules, host) {
            rule.value
        } else {
            Seq::empty()
        },
    }
}

/// What the first `n` entries of an argument list put on the command line.
pub open spec fn emitted_of(items: Seq<ModernArgumentsItemView>, host: HostSnapshotView, n: int)
    -> Seq<Seq<char>>
    decreases n,
{
    if n <= 0 || n > items.len() {
        Seq::empty()
    } else {
        emitted_of(items, host, n - 1) + emitted(items[n - 1], host)
    }
}

/// The JVM arguments that stand for a legacy manifest, which has none of its own.
pub open spec fn legacy_jvm_templates() -> Seq<Seq<char>> {
    seq!["-Djava.library.path=${natives_directory}"@, "-cp"@, "${classpath}"@]
}

/// The JVM arguments before substitution.
pub open spec fn jvm_templates(manifest: MinecraftManifestView, host: HostSnapshotView) -> Seq<
    Seq<char>,
> {
    match manifest.arguments {
        Some(modern) => emitted_of(modern.jvm, host, modern.jvm.len() as int),
        None => legacy_jvm_templates(),
    }
}

/// The game arguments before substitution: those of the modern schema, or
/// the words of the legacy line.
pub open spec fn game_templates(manifest: MinecraftManifestView, host: HostSnapshotView) -> Seq<
    Seq<char>,
> {
    match manifest.arguments {
        Some(modern) => emitted_of(modern.game, host, modern.game.len() as int),
        None => match manifest.minecraft_arguments {
            Some(line) => words(line),
            None => Seq::empty(),
        },
    }
}

/// The wire name of a release type.
pub open spec fn release_type_name(release_type: ReleaseType) -> Seq<char> {
    match release_type {
        ReleaseType::Snapshot => "snapshot"@,
        ReleaseType::Release => "release"@,
        ReleaseType::OldBeta => "old-beta"@,
        ReleaseType::OldAlpha => "old-alpha"@,
    }
}

/// What separates the entries of a classpath on a host: `;` on windows, `:` elsewhere.
pub open spec fn classpath_separator(host: HostSnapshotView) -> Seq<char> {
    if host.os_name == "windows"@ {
        seq![';']
    } else {
        seq![':']
    }
}

/// The placeholders that the planner fills, each with its value.
pub open spec fn substitutions(
    manifest: MinecraftManifestView,
    host: HostSnapshotView,
    roots: InstallRootsView,
    identity: LaunchIdentityView,
) -> TableView {
    Seq::empty().push(("auth_player_name"@, identity.auth_player_name)).push(
        ("version_name"@, manifest.version),
    ).push(("game_directory"@, roots.game_dir)).push(("assets_root"@, roots.assets_dir)).push(
        ("assets_index_name"@, manifest.asset_index.id),
    ).push(("auth_uuid"@, identity.auth_uuid)).push(
        ("auth_access_token"@, identity.auth_access_token),
    ).push(("user_type"@, identity.user_type)).push(
        ("version_type"@, release_type_name(manifest.release_type)),
    ).push(("natives_directory"@, roots.natives_dir)).push(
        ("launcher_name"@, identity.launcher_name),
    ).push(("launcher_version"@, identity.launcher_version)).push(
        ("classpath"@, joined(classpath_of(manifest, host, roots), classpath_separator(host))),
    ).push(("classpath_separator"@, classpath_separator(host))).push(
        ("library_directory"@, roots.libraries_dir),
    ).push(
        (
            "user_properties"@,
            match identity.user_properties {
                Some(properties) => properties,
                None => "{}"@,
            },
        ),
    )
}

/// Each template with the placeholders of the table replaced.
pub open spec fn expanded_each(templates: Seq<Seq<char>>, table: TableView) -> Seq<Seq<char>> {
    Seq::new(templates.len(), |i: int| expanded(templates[i], table))
}

/// Why a manifest cannot be planned, if it cannot.
pub open spec fn invalid_reason(manifest: MinecraftManifestView) -> Option<InvalidReason> {
    if manifest.minecraft_arguments is Some && manifest.arguments is Some {
        Some(InvalidReason::BothArgumentForms)
    } else if manifest.minecraft_arguments is None && manifest.arguments is None {
        Some(InvalidReason::NoArguments)
    } else if manifest.main_class.len() == 0 {
        Some(InvalidReason::MissingMainClass)
    } else if manifest.asset_index.id.len() == 0 {
        Some(InvalidReason::MissingAssetIndex)
    } else {
        None
    }
}

/// Whether some library of the list admits the host.
pub open spec fn any_admitted(libs: Seq<LibraryView>, host: HostSnapshotView) -> bool {
    exists|i: int| 0 <= i < libs.len() && admits((#[trigger] libs[i]).rules, host)
}

/// The plan of a valid manifest on a host that it supports.
pub open spec fn plan_of(
    manifest: MinecraftManifestView,
    host: HostSnapshotView,
    roots: InstallRootsView,
    identity: LaunchIdentityView,
    inventory: Seq<LocalFileView>,
) -> LaunchPlanView {
    let table = substitutions(manifest, host, roots, identity);
    LaunchPlanView {
        classpath: classpath_of(manifest, host, roots),
        natives: natives_of(manifest.libraries, host, roots, manifest.libraries.len() as int),
        jvm_args: expanded_each(jvm_templates(manifest, host), table),
        game_args: expanded_each(game_templates(manifest, host), table),
        main_class: manifest.main_class,
        asset_index_id: manifest.asset_index.id,
        required_downloads: downloads_needed(manifest, host, roots, inventory),
        min_java_major: manifest.java_version.major_version,
        logging: logging_of(manifest, roots),
    }
}

/// What planning yields: the plan, or why there is none. A manifest with
/// both or neither argument form, with an empty main class or without an
/// asset index is invalid; a host that no library admits is unsupported.
pub open spec fn planned(
    manifest: MinecraftManifestView,
    host: HostSnapshotView,
    roots: InstallRootsView,
    identity: LaunchIdentityView,
    inventory: Seq<LocalFileView>,
) -> Result<LaunchPlanView, LaunchErrorView> {
    match invalid_reason(manifest) {
        Some(reason) => Err(LaunchErrorView::InvalidManifest(reason)),
        None => if any_admitted(manifest.libraries, host) {
            Ok(plan_of(manifest, host, roots, identity, inventory))
        } else {
            Err(LaunchErrorView::UnsupportedHost)
        },
    }
}

/// What strict planning yields: the plan where nothing has to be fetched,
/// else the path of the first file that is missing.
pub open spec fn planned_strictly(
    manifest: MinecraftManifestView,
    host: HostSnapshotView,
    roots: InstallRootsView,
    identity: LaunchIdentityView,
    inventory: Seq<LocalFileView>,
) -> Result<LaunchPlanView, LaunchErrorView> {
    match planned(manifest, host, roots, identity, inventory) {
        Ok(plan) => if plan.required_downloads.len() == 0 {
            Ok(plan)
        } else {
            Err(LaunchErrorView::AssetMissing(plan.required_downloads[0].dest_path))
        },
        Err(error) => Err(error),
    }
}

} // verus!
