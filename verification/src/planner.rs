use crate::host::{HostSnapshot, HostSnapshotView, arch_is_64_bit};
use crate::launch::{
    Download, InstallRoots, InvalidReason, LaunchError, LaunchErrorView, LaunchIdentity, LaunchPlan,
    LaunchPlanView, LocalFile, LoggingPlan, NativeEntry,
};
use crate::manifest::{
    Artifact, Classifiers, Library, MinecraftManifest, ModernArgumentsItem, ReleaseType,
};
use crate::plan_model::{
    any_admitted, arch_bits, archive_under, artifact_download, classifier, classifier_key,
    classpath_of, classpath_separator, client_download, contributes, coordinate_key, downloads_of,
    emitted_of, excludes, expanded_each, game_templates, has_file, has_path, invalid_reason,
    jvm_templates, library_paths, log_config_path, logging_download, logging_of, lookup,
    native_archive, natives_of, planned, planned_strictly, release_type_name, second_colon,
    substitutions, superseded,
};
use crate::rules::{admits, evaluate};
use crate::text::{
    chars_of, expand, expanded, join, join_path, lemma_chars_deep_view, lemma_deep_view_push,
    same_chars, same_text, split_words, string_of,
};
use vstd::prelude::*;

verus! {

/// Each character list as a string.
fn strings_of(items: &Vec<Vec<char>>) -> (r: Vec<String>)
    ensures
        r.deep_view() == items.deep_view(),
{
    let mut out: Vec<String> = Vec::new();
    let mut i: usize = 0;
    while i < items.len()
        invariant
            i <= items.len(),
            out.len() == i,
            forall|j: int| 0 <= j < i ==> (#[trigger] out[j])@ == items[j]@,
        decreases items.len() - i,
    {
        out.push(string_of(&items[i]));
        i += 1;
    }
    assert forall|j: int| 0 <= j < items.len() implies out.deep_view()[j]
        == items.deep_view()[j] by {}
    out
}

/// A copy of each string.
fn copy_strings(items: &Vec<String>) -> (r: Vec<String>)
    ensures
        r.deep_view() == items.deep_view(),
{
    let mut out: Vec<String> = Vec::new();
    let mut i: usize = 0;
    while i < items.len()
        invariant
            i <= items.len(),
            out.len() == i,
            forall|j: int| 0 <= j < i ==> (#[trigger] out[j])@ == items[j]@,
        decreases items.len() - i,
    {
        out.push(items[i].clone());
        i += 1;
    }
    out
}

/// The `group:artifact` prefix of a maven coordinate.
pub fn library_key(name: &str) -> (r: String)
    ensures
        r@ == coordinate_key(name@),
{
    string_of(&key_of(name))
}

/// The `group:artifact` prefix of a maven coordinate, as characters.
fn key_of(name: &str) -> (r: Vec<char>)
    ensures
        r@ == coordinate_key(name@),
{
    let chars = chars_of(name);
    let mut out: Vec<char> = Vec::new();
    let mut seen = false;
    let mut i: usize = 0;
    while i < chars.len()
        invariant
            i <= chars.len(),
            chars@ == name@,
            out@ == chars@.take(i as int),
            second_colon(chars@, 0, false) == second_colon(chars@, i as int, seen),
        decreases chars.len() - i,
    {
        if chars[i] == ':' {
            if seen {
                return out;
            }
            seen = true;
        }
        out.push(chars[i]);
        i += 1;
    }
    out
}

/// For each library, whether its rules admit the host.
fn admissions(libs: &Vec<Library>, host: &HostSnapshot) -> (r: Vec<bool>)
    ensures
        r.len() == libs.len(),
        forall|i: int| 0 <= i < libs.len() ==> r[i] == admits((#[trigger] libs[i])@.rules, host@),
{
    let mut out: Vec<bool> = Vec::new();
    let mut i: usize = 0;
    while i < libs.len()
        invariant
            i <= libs.len(),
            out.len() == i,
            forall|j: int| 0 <= j < i ==> out[j] == admits((#[trigger] libs[j])@.rules, host@),
        decreases libs.len() - i,
    {
        out.push(evaluate(&libs[i].rules, host));
        i += 1;
    }
    out
}

/// For each library, the `group:artifact` prefix of its coordinate.
fn library_keys(libs: &Vec<Library>) -> (r: Vec<Vec<char>>)
    ensures
        r.len() == libs.len(),
        forall|i: int| 0 <= i < libs.len() ==> (#[trigger] r[i])@ == coordinate_key(libs[i].name@),
{
    let mut out: Vec<Vec<char>> = Vec::new();
    let mut i: usize = 0;
    while i < libs.len()
        invariant
            i <= libs.len(),
            out.len() == i,
            forall|j: int| 0 <= j < i ==> (#[trigger] out[j])@ == coordinate_key(libs[j].name@),
        decreases libs.len() - i,
    {
        out.push(key_of(libs[i].name.as_str()));
        i += 1;
    }
    out
}

/// Whether `admitted` and `keys` hold, for each library, its admission on
/// the host and the prefix of its coordinate.
spec fn prepared(
    libs: Vec<Library>,
    host: HostSnapshotView,
    admitted: Vec<bool>,
    keys: Vec<Vec<char>>,
) -> bool {
    &&& admitted.len() == libs.len()
    &&& keys.len() == libs.len()
    &&& forall|i: int|
        0 <= i < libs.len() ==> admitted[i] == admits((#[trigger] libs[i])@.rules, host)
    &&& forall|i: int|
        0 <= i < libs.len() ==> (#[trigger] keys[i])@ == coordinate_key(libs[i].name@)
}

/// Decides whether a later contributing library has the prefix of library `i`.
fn is_superseded(
    libs: &Vec<Library>,
    host: &HostSnapshot,
    admitted: &Vec<bool>,
    keys: &Vec<Vec<char>>,
    i: usize,
) -> (r: bool)
    requires
        prepared(*libs, host@, *admitted, *keys),
        i < libs.len(),
    ensures
        r == superseded(libs.deep_view(), host@, i as int),
{
    let ghost lv = libs.deep_view();
    let mut j: usize = i + 1;
    while j < libs.len()
        invariant
            prepared(*libs, host@, *admitted, *keys),
            i < j <= libs.len(),
            lv == libs.deep_view(),
            forall|k: int|
                i < k < j ==> !(contributes(#[trigger] lv[k], host@) && coordinate_key(lv[k].name)
                    == coordinate_key(lv[i as int].name)),
        decreases libs.len() - j,
    {
        assert(lv[j as int] == libs[j as int]@);
        if admitted[j] && libs[j].downloads.artifact.is_some() && same_chars(&keys[j], &keys[i]) {
            return true;
        }
        j += 1;
    }
    false
}

/// The classpath entries of the libraries, in their order.
fn library_entries(
    libs: &Vec<Library>,
    host: &HostSnapshot,
    roots: &InstallRoots,
    admitted: &Vec<bool>,
    keys: &Vec<Vec<char>>,
) -> (r: Vec<Vec<char>>)
    requires
        prepared(*libs, host@, *admitted, *keys),
    ensures
        r.deep_view() == library_paths(libs.deep_view(), host@, roots@, libs.len() as int),
{
    let ghost lv = libs.deep_view();
    let dir = chars_of(roots.libraries_dir.as_str());
    let mut out: Vec<Vec<char>> = Vec::new();
    let mut i: usize = 0;
    while i < libs.len()
        invariant
            prepared(*libs, host@, *admitted, *keys),
            i <= libs.len(),
            lv == libs.deep_view(),
            dir@ == roots@.libraries_dir,
            out.deep_view() == library_paths(lv, host@, roots@, i as int),
        decreases libs.len() - i,
    {
        if admitted[i] {
            match &libs[i].downloads.artifact {
                Some(artifact) => {
                    if !is_superseded(libs, host, admitted, keys, i) {
                        let entry = join_path(&dir, &chars_of(artifact.path.as_str()));
                        proof {
                            lemma_chars_deep_view(entry);
                        }
                        out.push(entry);
                    }
                },
                None => {},
            }
        }
        i += 1;
    }
    out
}

/// Looks a key up in a list of entries; the last entry with the key counts.
fn find_entry<'a>(entries: &'a Vec<(String, String)>, key: &str) -> (r: Option<&'a String>)
    ensures
        match r {
            Some(value) => lookup(entries.deep_view(), key@) == Some(value@),
            None => lookup(entries.deep_view(), key@) is None,
        },
{
    let ghost ev = entries.deep_view();
    let mut found: Option<&String> = None;
    let mut i: usize = 0;
    while i < entries.len()
        invariant
            i <= entries.len(),
            ev == entries.deep_view(),
            match found {
                Some(value) => lookup(ev.take(i as int), key@) == Some(value@),
                None => lookup(ev.take(i as int), key@) is None,
            },
        decreases entries.len() - i,
    {
        proof {
            assert(ev.take(i + 1).drop_last() =~= ev.take(i as int));
        }
        if same_text(entries[i].0.as_str(), key) {
            found = Some(&entries[i].1);
        }
        i += 1;
    }
    assert(ev.take(entries.len() as int) =~= ev);
    found
}

/// The classifier key of a natives template on a host: `${arch}` becomes
/// `64` on a host with 64-bit words and `32` on another.
pub fn native_classifier_key(template: &str, host: &HostSnapshot) -> (r: String)
    ensures
        r@ == classifier_key(template@, host@),
{
    let mut bits: Vec<char> = Vec::new();
    if arch_is_64_bit(host.arch.as_str()) {
        bits.push('6');
        bits.push('4');
    } else {
        bits.push('3');
        bits.push('2');
    }
    assert(bits@ =~= arch_bits(host@.arch));
    let mut table: Vec<(Vec<char>, Vec<char>)> = Vec::new();
    let name = chars_of("arch");
    proof {
        lemma_chars_deep_view(name);
        lemma_chars_deep_view(bits);
    }
    table.push((name, bits));
    assert(table.deep_view() =~= seq![("arch"@, arch_bits(host@.arch))]);
    string_of(&expand(&chars_of(template), &table))
}

/// The archive that a set of classifiers holds under a key.
fn pick_classifier<'a>(classifiers: &'a Classifiers, key: &str) -> (r: Option<&'a Artifact>)
    ensures
        match r {
            Some(archive) => classifier(classifiers@, key@) == Some(archive@),
            None => classifier(classifiers@, key@) is None,
        },
{
    if same_text(key, "natives-osx") {
        classifiers.natives_osx.as_ref()
    } else if same_text(key, "natives-linux") {
        classifiers.natives_linux.as_ref()
    } else if same_text(key, "natives-windows") {
        classifiers.natives_windows.as_ref()
    } else {
        let ghost ov = classifiers.others.deep_view();
        let mut found: Option<&Artifact> = None;
        let mut i: usize = 0;
        assert(ov.take(0) =~= Seq::empty());
        while i < classifiers.others.len()
            invariant
                i <= classifiers.others.len(),
                ov == classifiers.others.deep_view(),
                match found {
                    Some(archive) => archive_under(ov.take(i as int), key@) == Some(archive@),
                    None => archive_under(ov.take(i as int), key@) is None,
                },
            decreases classifiers.others.len() - i,
        {
            proof {
                assert(ov.take(i + 1).drop_last() =~= ov.take(i as int));
            }
            if same_text(classifiers.others[i].0.as_str(), key) {
                found = Some(&classifiers.others[i].1);
            }
            i += 1;
        }
        assert(ov.take(classifiers.others.len() as int) =~= ov);
        found
    }
}

/// The native archive that a library has for the host, if any.
fn native_archive_of<'a>(lib: &'a Library, host: &HostSnapshot) -> (r: Option<&'a Artifact>)
    ensures
        match r {
            Some(archive) => native_archive(lib@, host@) == Some(archive@),
            None => native_archive(lib@, host@) is None,
        },
{
    match (&lib.natives, &lib.downloads.classifiers) {
        (Some(natives), Some(classifiers)) => match find_entry(natives, host.os_name.as_str()) {
            Some(template) => {
                let key = native_classifier_key(template.as_str(), host);
                pick_classifier(classifiers, key.as_str())
            },
            None => None,
        },
        _ => None,
    }
}

/// What is left out when a library's native archive is unpacked.
fn excludes_of(lib: &Library) -> (r: Vec<String>)
    ensures
        r.deep_view() == excludes(lib@),
{
    match &lib.extract {
        Some(extract) => copy_strings(&extract.exclude),
        None => {
            let mut out: Vec<String> = Vec::new();
            out.push("META-INF/".to_owned());
            out
        },
    }
}

/// The natives entries of the libraries, in their order.
fn native_entries(
    libs: &Vec<Library>,
    host: &HostSnapshot,
    roots: &InstallRoots,
    admitted: &Vec<bool>,
) -> (r: Vec<NativeEntry>)
    requires
        admitted.len() == libs.len(),
        forall|i: int|
            0 <= i < libs.len() ==> admitted[i] == admits((#[trigger] libs[i])@.rules, host@),
    ensures
        r.deep_view() == natives_of(libs.deep_view(), host@, roots@, libs.len() as int),
{
    let ghost lv = libs.deep_view();
    let dir = chars_of(roots.libraries_dir.as_str());
    let mut out: Vec<NativeEntry> = Vec::new();
    let mut i: usize = 0;
    while i < libs.len()
        invariant
            i <= libs.len(),
            admitted.len() == libs.len(),
            forall|k: int|
                0 <= k < libs.len() ==> admitted[k] == admits((#[trigger] libs[k])@.rules, host@),
            lv == libs.deep_view(),
            dir@ == roots@.libraries_dir,
            out.deep_view() == natives_of(lv, host@, roots@, i as int),
        decreases libs.len() - i,
    {
        if admitted[i] {
            match native_archive_of(&libs[i], host) {
                Some(archive) => {
                    let source = join_path(&dir, &chars_of(archive.path.as_str()));
                    let entry = NativeEntry {
                        source_archive_path: string_of(&source),
                        extract_to: roots.natives_dir.clone(),
                        exclude_globs: excludes_of(&libs[i]),
                    };
                    out.push(entry);
                },
                None => {},
            }
        }
        i += 1;
    }
    out
}

/// Decides whether a file with this path and this hash is in place.
fn in_place(inventory: &Vec<LocalFile>, path: &str, sha1: &str) -> (r: bool)
    ensures
        r == has_file(inventory.deep_view(), path@, sha1@),
{
    let ghost iv = inventory.deep_view();
    let mut i: usize = 0;
    while i < inventory.len()
        invariant
            i <= inventory.len(),
            iv == inventory.deep_view(),
            forall|k: int|
                0 <= k < i ==> !((#[trigger] iv[k]).path == path@ && iv[k].sha1 == sha1@),
        decreases inventory.len() - i,
    {
        assert(iv[i as int] == inventory[i as int]@);
        if same_text(inventory[i].path.as_str(), path) && same_text(
            inventory[i].sha1.as_str(),
            sha1,
        ) {
            return true;
        }
        i += 1;
    }
    false
}

/// Decides whether a file with this path is in place.
fn path_in_place(inventory: &Vec<LocalFile>, path: &str) -> (r: bool)
    ensures
        r == has_path(inventory.deep_view(), path@),
{
    let ghost iv = inventory.deep_view();
    let mut i: usize = 0;
    while i < inventory.len()
        invariant
            i <= inventory.len(),
            iv == inventory.deep_view(),
            forall|k: int| 0 <= k < i ==> (#[trigger] iv[k]).path != path@,
        decreases inventory.len() - i,
    {
        assert(iv[i as int] == inventory[i as int]@);
        if same_text(inventory[i].path.as_str(), path) {
            return true;
        }
        i += 1;
    }
    false
}

/// Adds the download of an artifact, unless the file is in place with the
/// artifact's hash.
fn add_download(
    out: &mut Vec<Download>,
    artifact: &Artifact,
    roots: &InstallRoots,
    inventory: &Vec<LocalFile>,
)
    ensures
        final(out).deep_view() == old(out).deep_view() + artifact_download(
            artifact@,
            roots@,
            inventory.deep_view(),
        ),
{
    let dest = string_of(
        &join_path(&chars_of(roots.libraries_dir.as_str()), &chars_of(artifact.path.as_str())),
    );
    if !in_place(inventory, dest.as_str(), artifact.sha1.as_str()) {
        let download = Download {
            url: artifact.url.clone(),
            dest_path: dest,
            sha1: artifact.sha1.clone(),
            size: None,
        };
        out.push(download);
    }
}

/// The downloads that the libraries ask for, in their order.
fn library_fetches(
    libs: &Vec<Library>,
    host: &HostSnapshot,
    roots: &InstallRoots,
    inventory: &Vec<LocalFile>,
    admitted: &Vec<bool>,
    keys: &Vec<Vec<char>>,
) -> (r: Vec<Download>)
    requires
        prepared(*libs, host@, *admitted, *keys),
    ensures
        r.deep_view() == downloads_of(
            libs.deep_view(),
            host@,
            roots@,
            inventory.deep_view(),
            libs.len() as int,
        ),
{
    let ghost lv = libs.deep_view();
    let ghost iv = inventory.deep_view();
    let mut out: Vec<Download> = Vec::new();
    let mut i: usize = 0;
    while i < libs.len()
        invariant
            prepared(*libs, host@, *admitted, *keys),
            i <= libs.len(),
            lv == libs.deep_view(),
            iv == inventory.deep_view(),
            out.deep_view() == downloads_of(lv, host@, roots@, iv, i as int),
        decreases libs.len() - i,
    {
        if admitted[i] {
            match &libs[i].downloads.artifact {
                Some(artifact) => {
                    if !is_superseded(libs, host, admitted, keys, i) {
                        add_download(&mut out, artifact, roots, inventory);
                    }
                },
                None => {},
            }
        }
        if admitted[i] {
            match native_archive_of(&libs[i], host) {
                Some(archive) => {
                    add_download(&mut out, archive, roots, inventory);
                },
                None => {},
            }
        }
        i += 1;
    }
    out
}

/// What an argument list puts on the command line of a host, before substitution.
fn emit(items: &Vec<ModernArgumentsItem>, host: &HostSnapshot) -> (r: Vec<Vec<char>>)
    ensures
        r.deep_view() == emitted_of(items.deep_view(), host@, items.len() as int),
{
    let ghost iv = items.deep_view();
    let mut out: Vec<Vec<char>> = Vec::new();
    let mut i: usize = 0;
    while i < items.len()
        invariant
            i <= items.len(),
            iv == items.deep_view(),
            out.deep_view() == emitted_of(iv, host@, i as int),
        decreases items.len() - i,
    {
        let ghost before = out.deep_view();
        match &items[i] {
            ModernArgumentsItem::Simple(text) => {
                let entry = chars_of(text.as_str());
                proof {
                    lemma_chars_deep_view(entry);
                }
                out.push(entry);
            },
            ModernArgumentsItem::Rule(rule) => {
                if evaluate(&rule.rules, host) {
                    let ghost values = rule.value.deep_view();
                    let mut k: usize = 0;
                    while k < rule.value.len()
                        invariant
                            k <= rule.value.len(),
                            values == rule.value.deep_view(),
                            out.deep_view() == before + values.take(k as int),
                        decreases rule.value.len() - k,
                    {
                        let entry = chars_of(rule.value[k].as_str());
                        proof {
                            lemma_chars_deep_view(entry);
                            lemma_deep_view_push(out@, out@.push(entry), entry);
                        }
                        out.push(entry);
                        k += 1;
                    }
                }
            },
        }
        i += 1;
    }
    out
}

/// Each template with the placeholders of the table replaced.
fn expand_each(templates: &Vec<Vec<char>>, table: &Vec<(Vec<char>, Vec<char>)>) -> (r: Vec<String>)
    ensures
        r.deep_view() == expanded_each(templates.deep_view(), table.deep_view()),
{
    let mut out: Vec<String> = Vec::new();
    let mut i: usize = 0;
    while i < templates.len()
        invariant
            i <= templates.len(),
            out.len() == i,
            forall|j: int|
                0 <= j < i ==> (#[trigger] out[j])@ == expanded(templates[j]@, table.deep_view()),
        decreases templates.len() - i,
    {
        out.push(string_of(&expand(&templates[i], table)));
        i += 1;
    }
    proof {
        assert forall|j: int| 0 <= j < templates.len() implies out.deep_view()[j] == expanded_each(
            templates.deep_view(),
            table.deep_view(),
        )[j] by {
            lemma_chars_deep_view(templates[j]);
        }
    }
    out
}

/// Adds a placeholder and its value to a table.
fn add_entry(table: &mut Vec<(Vec<char>, Vec<char>)>, name: &str, value: Vec<char>)
    ensures
        final(table).deep_view() == old(table).deep_view().push((name@, value@)),
{
    let entry = (chars_of(name), value);
    proof {
        lemma_chars_deep_view(entry.0);
        lemma_chars_deep_view(entry.1);
    }
    table.push(entry);
}

/// The wire name of a release type.
pub fn release_type_text(release_type: ReleaseType) -> (r: &'static str)
    ensures
        r@ == release_type_name(release_type),
{
    match release_type {
        ReleaseType::Snapshot => "snapshot",
        ReleaseType::Release => "release",
        ReleaseType::OldBeta => "old-beta",
        ReleaseType::OldAlpha => "old-alpha",
    }
}

/// What separates the entries of a classpath on a host.
fn separator_of(host: &HostSnapshot) -> (r: Vec<char>)
    ensures
        r@ == classpath_separator(host@),
{
    let mut out: Vec<char> = Vec::new();
    if same_text(host.os_name.as_str(), "windows") {
        out.push(';');
    } else {
        out.push(':');
    }
    out
}

/// The placeholders that the planner fills, each with its value.
fn placeholder_table(
    manifest: &MinecraftManifest,
    host: &HostSnapshot,
    roots: &InstallRoots,
    identity: &LaunchIdentity,
    classpath: &Vec<Vec<char>>,
) -> (r: Vec<(Vec<char>, Vec<char>)>)
    requires
        classpath.deep_view() == classpath_of(manifest@, host@, roots@),
    ensures
        r.deep_view() == substitutions(manifest@, host@, roots@, identity@),
{
    let separator = separator_of(host);
    let mut table: Vec<(Vec<char>, Vec<char>)> = Vec::new();
    add_entry(&mut table, "auth_player_name", chars_of(identity.auth_player_name.as_str()));
    add_entry(&mut table, "version_name", chars_of(manifest.version.as_str()));
    add_entry(&mut table, "game_directory", chars_of(roots.game_dir.as_str()));
    add_entry(&mut table, "assets_root", chars_of(roots.assets_dir.as_str()));
    add_entry(&mut table, "assets_index_name", chars_of(manifest.asset_index.id.as_str()));
    add_entry(&mut table, "auth_uuid", chars_of(identity.auth_uuid.as_str()));
    add_entry(&mut table, "auth_access_token", chars_of(identity.auth_access_token.as_str()));
    add_entry(&mut table, "user_type", chars_of(identity.user_type.as_str()));
    add_entry(&mut table, "version_type", chars_of(release_type_text(manifest.release_type)));
    add_entry(&mut table, "natives_directory", chars_of(roots.natives_dir.as_str()));
    add_entry(&mut table, "launcher_name", chars_of(identity.launcher_name.as_str()));
    add_entry(&mut table, "launcher_version", chars_of(identity.launcher_version.as_str()));
    add_entry(&mut table, "classpath", join(classpath, &separator));
    add_entry(&mut table, "classpath_separator", separator);
    add_entry(&mut table, "library_directory", chars_of(roots.libraries_dir.as_str()));
    let properties = match &identity.user_properties {
        Some(properties) => chars_of(properties.as_str()),
        None => chars_of("{}"),
    };
    add_entry(&mut table, "user_properties", properties);
    table
}

/// The JVM arguments before substitution.
fn jvm_templates_of(manifest: &MinecraftManifest, host: &HostSnapshot) -> (r: Vec<Vec<char>>)
    ensures
        r.deep_view() == jvm_templates(manifest@, host@),
{
    match &manifest.arguments {
        Some(modern) => emit(&modern.jvm, host),
        None => {
            let mut out: Vec<Vec<char>> = Vec::new();
            out.push(chars_of("-Djava.library.path=${natives_directory}"));
            out.push(chars_of("-cp"));
            out.push(chars_of("${classpath}"));
            proof {
                lemma_chars_deep_view(out[0]);
                lemma_chars_deep_view(out[1]);
                lemma_chars_deep_view(out[2]);
            }
            out
        },
    }
}

/// The game arguments before substitution.
fn game_templates_of(manifest: &MinecraftManifest, host: &HostSnapshot) -> (r: Vec<Vec<char>>)
    ensures
        r.deep_view() == game_templates(manifest@, host@),
{
    match &manifest.arguments {
        Some(modern) => emit(&modern.game, host),
        None => match &manifest.minecraft_arguments {
            Some(line) => split_words(&chars_of(line.as_str())),
            None => {
                let out: Vec<Vec<char>> = Vec::new();
                out
            },
        },
    }
}

/// Where the logging configuration with this identifier lies.
fn log_config_path_of(roots: &InstallRoots, file_id: &str) -> (r: Vec<char>)
    ensures
        r@ == log_config_path(roots@, file_id@),
{
    let dir = join_path(&chars_of(roots.assets_dir.as_str()), &chars_of("log_configs"));
    join_path(&dir, &chars_of(file_id))
}

/// The logging argument of the plan.
fn logging_plan(manifest: &MinecraftManifest, roots: &InstallRoots) -> (r: Option<LoggingPlan>)
    ensures
        r.deep_view() == logging_of(manifest@, roots@),
{
    match &manifest.logging {
        Some(logging) => {
            let mut table: Vec<(Vec<char>, Vec<char>)> = Vec::new();
            let path = log_config_path_of(roots, logging.client.file.id.as_str());
            add_entry(&mut table, "path", path);
            assert(table.deep_view() =~= seq![
                ("path"@, log_config_path(roots@, logging.client.file.id@)),
            ]);
            let argument = expand(&chars_of(logging.client.argument.as_str()), &table);
            Some(LoggingPlan { argument_with_path: string_of(&argument) })
        },
        None => None,
    }
}

/// Adds the download of the logging configuration, unless a file is in
/// place at its path.
fn add_logging_download(
    out: &mut Vec<Download>,
    manifest: &MinecraftManifest,
    roots: &InstallRoots,
    inventory: &Vec<LocalFile>,
)
    ensures
        final(out).deep_view() == old(out).deep_view() + logging_download(
            manifest@,
            roots@,
            inventory.deep_view(),
        ),
{
    match &manifest.logging {
        Some(logging) => {
            let dest = string_of(&log_config_path_of(roots, logging.client.file.id.as_str()));
            if !path_in_place(inventory, dest.as_str()) {
                let download = Download {
                    url: logging.client.file.url.clone(),
                    dest_path: dest,
                    sha1: logging.client.file.sha1.clone(),
                    size: None,
                };
                out.push(download);
            }
        },
        None => {},
    }
}

/// Adds the download of the client jar, unless the file is in place with
/// the hash that the manifest gives.
fn add_client_download(
    out: &mut Vec<Download>,
    manifest: &MinecraftManifest,
    roots: &InstallRoots,
    inventory: &Vec<LocalFile>,
)
    ensures
        final(out).deep_view() == old(out).deep_view() + client_download(
            manifest@,
            roots@,
            inventory.deep_view(),
        ),
{
    let client = &manifest.downloads.client;
    if !in_place(inventory, roots.client_jar_path.as_str(), client.sha1.as_str()) {
        let download = Download {
            url: client.url.clone(),
            dest_path: roots.client_jar_path.clone(),
            sha1: client.sha1.clone(),
            size: None,
        };
        out.push(download);
    }
}

/// Why a manifest cannot be planned, if it cannot.
pub fn check_manifest(manifest: &MinecraftManifest) -> (r: Option<InvalidReason>)
    ensures
        r == invalid_reason(manifest@),
{
    if manifest.minecraft_arguments.is_some() && manifest.arguments.is_some() {
        Some(InvalidReason::BothArgumentForms)
    } else if manifest.minecraft_arguments.is_none() && manifest.arguments.is_none() {
        Some(InvalidReason::NoArguments)
    } else if manifest.main_class.as_str().is_empty() {
        Some(InvalidReason::MissingMainClass)
    } else if manifest.asset_index.id.as_str().is_empty() {
        Some(InvalidReason::MissingAssetIndex)
    } else {
        None
    }
}

/// Decides whether some library admits the host.
fn any_true(libs: &Vec<Library>, host: &HostSnapshot, admitted: &Vec<bool>) -> (r: bool)
    requires
        admitted.len() == libs.len(),
        forall|i: int|
            0 <= i < libs.len() ==> admitted[i] == admits((#[trigger] libs[i])@.rules, host@),
    ensures
        r == any_admitted(libs.deep_view(), host@),
{
    let ghost lv = libs.deep_view();
    let mut i: usize = 0;
    while i < libs.len()
        invariant
            i <= libs.len(),
            admitted.len() == libs.len(),
            lv == libs.deep_view(),
            forall|k: int|
                0 <= k < libs.len() ==> admitted[k] == admits((#[trigger] libs[k])@.rules, host@),
            forall|k: int| 0 <= k < i ==> !admits((#[trigger] lv[k]).rules, host@),
        decreases libs.len() - i,
    {
        assert(lv[i as int] == libs[i as int]@);
        if admitted[i] {
            return true;
        }
        i += 1;
    }
    false
}

/// The view of what a planning call returned.
pub open spec fn outcome(r: Result<LaunchPlan, LaunchError>) -> Result<
    LaunchPlanView,
    LaunchErrorView,
> {
    match r {
        Ok(plan) => Ok(plan@),
        Err(error) => Err(error@),
    }
}

/// Plans the launch of a version on a host: walks the libraries of the
/// manifest in their order, keeps those whose rules admit the host, and
/// derives the classpath, the native archives to unpack, the JVM and game
/// arguments with their placeholders filled, and what has to be fetched.
/// `inventory` lists the files that are already in place.
pub fn plan(
    manifest: &MinecraftManifest,
    host: &HostSnapshot,
    roots: &InstallRoots,
    identity: &LaunchIdentity,
    inventory: &Vec<LocalFile>,
) -> (r: Result<LaunchPlan, LaunchError>)
    ensures
        outcome(r) == planned(manifest@, host@, roots@, identity@, inventory.deep_view()),
{
    match check_manifest(manifest) {
        Some(reason) => {
            return Err(LaunchError::InvalidManifest(reason));
        },
        None => {},
    }
    let libs = &manifest.libraries;
    let admitted = admissions(libs, host);
    if !any_true(libs, host, &admitted) {
        return Err(LaunchError::UnsupportedHost);
    }
    let keys = library_keys(libs);
    let mut classpath = library_entries(libs, host, roots, &admitted, &keys);
    let client_jar = chars_of(roots.client_jar_path.as_str());
    proof {
        lemma_chars_deep_view(client_jar);
        lemma_deep_view_push(classpath@, classpath@.push(client_jar), client_jar);
    }
    classpath.push(client_jar);
    let table = placeholder_table(manifest, host, roots, identity, &classpath);
    let mut downloads = library_fetches(libs, host, roots, inventory, &admitted, &keys);
    add_client_download(&mut downloads, manifest, roots, inventory);
    add_logging_download(&mut downloads, manifest, roots, inventory);
    let plan = LaunchPlan {
        classpath: strings_of(&classpath),
        natives: native_entries(libs, host, roots, &admitted),
        jvm_args: expand_each(&jvm_templates_of(manifest, host), &table),
        game_args: expand_each(&game_templates_of(manifest, host), &table),
        main_class: manifest.main_class.clone(),
        asset_index_id: manifest.asset_index.id.clone(),
        required_downloads: downloads,
        min_java_major: manifest.java_version.major_version,
        logging: logging_plan(manifest, roots),
    };
    Ok(plan)
}

/// Plans as [`plan`] does, and refuses a plan for which something has to
/// be fetched: the error names the first file that is missing.
pub fn plan_strict(
    manifest: &MinecraftManifest,
    host: &HostSnapshot,
    roots: &InstallRoots,
    identity: &LaunchIdentity,
    inventory: &Vec<LocalFile>,
) -> (r: Result<LaunchPlan, LaunchError>)
    ensures
        outcome(r) == planned_strictly(manifest@, host@, roots@, identity@, inventory.deep_view()),
{
    match plan(manifest, host, roots, identity, inventory) {
        Ok(plan) => {
            if plan.required_downloads.len() == 0 {
                Ok(plan)
            } else {
                Err(LaunchError::AssetMissing(plan.required_downloads[0].dest_path.clone()))
            }
        },
        Err(error) => Err(error),
    }
}

} // verus!
