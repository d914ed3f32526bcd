use crate::host::HostSnapshotView;
use crate::launch::{InstallRootsView, LaunchIdentityView, LocalFileView, NativeEntryView};
use crate::manifest::{LibraryView, MinecraftManifestView, ModernArgumentsItemView};
use crate::plan_model::{
    artifact_path, emitted, emitted_of, expanded_each, library_paths, native_entry, natives_of,
    planned, substitutions,
};
use crate::rules::admits;
use vstd::prelude::*;

verus! {

/// The classpath of every plan ends with the client jar.
pub proof fn lemma_client_jar_is_last(
    manifest: MinecraftManifestView,
    host: HostSnapshotView,
    roots: InstallRootsView,
    identity: LaunchIdentityView,
    inventory: Seq<LocalFileView>,
)
    ensures
        planned(manifest, host, roots, identity, inventory) matches Ok(plan) ==> plan.classpath.len()
            > 0 && plan.classpath.last() == roots.client_jar_path,
{
}

/// Whether `path` is where the artifact of one of the first `n` libraries
/// lies, and the rules of that library admit the host.
pub open spec fn is_admitted_artifact(
    libs: Seq<LibraryView>,
    host: HostSnapshotView,
    roots: InstallRootsView,
    n: int,
    path: Seq<char>,
) -> bool {
    exists|i: int|
        0 <= i < n && i < libs.len() && admits((#[trigger] libs[i]).rules, host)
            && libs[i].downloads.artifact is Some && path == artifact_path(libs, roots, i)
}

/// Whether `entry` is the natives entry of one of the first `n` libraries,
/// and the rules of that library admit the host.
pub open spec fn is_admitted_native(
    libs: Seq<LibraryView>,
    host: HostSnapshotView,
    roots: InstallRootsView,
    n: int,
    entry: NativeEntryView,
) -> bool {
    exists|i: int|
        0 <= i < n && i < libs.len() && admits((#[trigger] libs[i]).rules, host) && native_entry(
            libs[i],
            host,
            roots,
        ) == Some(entry)
}

/// Every classpath entry of the first `n` libraries is the artifact of one
/// of them, and the rules of that library admit the host.
pub proof fn lemma_library_paths_origin(
    libs: Seq<LibraryView>,
    host: HostSnapshotView,
    roots: InstallRootsView,
    n: int,
)
    requires
        0 <= n <= libs.len(),
    ensures
        forall|k: int|
            0 <= k < library_paths(libs, host, roots, n).len() ==> is_admitted_artifact(
                libs,
                host,
                roots,
                n,
                #[trigger] library_paths(libs, host, roots, n)[k],
            ),
    decreases n,
{
    if n > 0 {
        lemma_library_paths_origin(libs, host, roots, n - 1);
        let front = library_paths(libs, host, roots, n - 1);
        let all = library_paths(libs, host, roots, n);
        assert forall|k: int| 0 <= k < all.len() implies is_admitted_artifact(
            libs,
            host,
            roots,
            n,
            #[trigger] all[k],
        ) by {
            if k < front.len() {
                let i = choose|i: int|
                    0 <= i < n - 1 && i < libs.len() && admits((#[trigger] libs[i]).rules, host)
                        && libs[i].downloads.artifact is Some && front[k] == artifact_path(
                        libs,
                        roots,
                        i,
                    );
            }
        }
    }
}

/// Every library on the classpath of a plan is a library of the manifest
/// whose rules admit the host: each entry before the client jar is the
/// artifact of such a library.
pub proof fn lemma_classpath_libraries_admitted(
    manifest: MinecraftManifestView,
    host: HostSnapshotView,
    roots: InstallRootsView,
    identity: LaunchIdentityView,
    inventory: Seq<LocalFileView>,
)
    ensures
        planned(manifest, host, roots, identity, inventory) matches Ok(plan) ==> forall|k: int|
            0 <= k < plan.classpath.len() - 1 ==> is_admitted_artifact(
                manifest.libraries,
                host,
                roots,
                manifest.libraries.len() as int,
                #[trigger] plan.classpath[k],
            ),
{
    lemma_library_paths_origin(manifest.libraries, host, roots, manifest.libraries.len() as int);
}

/// Every natives entry of the first `n` libraries is that of one of them,
/// and the rules of that library admit the host.
pub proof fn lemma_natives_origin(
    libs: Seq<LibraryView>,
    host: HostSnapshotView,
    roots: InstallRootsView,
    n: int,
)
    requires
        0 <= n <= libs.len(),
    ensures
        forall|k: int|
            0 <= k < natives_of(libs, host, roots, n).len() ==> is_admitted_native(
                libs,
                host,
                roots,
                n,
                #[trigger] natives_of(libs, host, roots, n)[k],
            ),
    decreases n,
{
    if n > 0 {
        lemma_natives_origin(libs, host, roots, n - 1);
        let front = natives_of(libs, host, roots, n - 1);
        let all = natives_of(libs, host, roots, n);
        assert forall|k: int| 0 <= k < all.len() implies is_admitted_native(
            libs,
            host,
            roots,
            n,
            #[trigger] all[k],
        ) by {
            if k < front.len() {
                let i = choose|i: int|
                    0 <= i < n - 1 && i < libs.len() && admits((#[trigger] libs[i]).rules, host)
                        && native_entry(libs[i], host, roots) == Some(front[k]);
            }
        }
    }
}

/// Every natives entry of a plan is that of a library of the manifest
/// whose rules admit the host.
pub proof fn lemma_natives_libraries_admitted(
    manifest: MinecraftManifestView,
    host: HostSnapshotView,
    roots: InstallRootsView,
    identity: LaunchIdentityView,
    inventory: Seq<LocalFileView>,
)
    ensures
        planned(manifest, host, roots, identity, inventory) matches Ok(plan) ==> forall|k: int|
            0 <= k < plan.natives.len() ==> is_admitted_native(
                manifest.libraries,
                host,
                roots,
                manifest.libraries.len() as int,
                #[trigger] plan.natives[k],
            ),
{
    lemma_natives_origin(manifest.libraries, host, roots, manifest.libraries.len() as int);
}

/// Whether entry `i` of an argument list puts `text` on the command line
/// of a host: as a plain entry, or as a value of a conditional entry whose
/// rules admit the host.
pub open spec fn emits(
    items: Seq<ModernArgumentsItemView>,
    host: HostSnapshotView,
    i: int,
    text: Seq<char>,
) -> bool {
    match items[i] {
        ModernArgumentsItemView::Simple(plain) => plain == text,
        ModernArgumentsItemView::Rule(rule) => {
            admits(rule.rules, host) && rule.value.contains(text)
        },
    }
}

/// Whether one of the first `n` entries of an argument list puts `text` on
/// the command line of a host.
pub open spec fn is_emitted(
    items: Seq<ModernArgumentsItemView>,
    host: HostSnapshotView,
    n: int,
    text: Seq<char>,
) -> bool {
    exists|i: int| 0 <= i < n && #[trigger] emits(items, host, i, text)
}

/// Each template that the first `n` entries of an argument list emit comes
/// from a plain entry, or from a conditional entry whose rules admit the host.
pub proof fn lemma_emitted_origin(
    items: Seq<ModernArgumentsItemView>,
    host: HostSnapshotView,
    n: int,
)
    requires
        0 <= n <= items.len(),
    ensures
        forall|k: int|
            0 <= k < emitted_of(items, host, n).len() ==> is_emitted(
                items,
                host,
                n,
                #[trigger] emitted_of(items, host, n)[k],
            ),
    decreases n,
{
    if n > 0 {
        lemma_emitted_origin(items, host, n - 1);
        let front = emitted_of(items, host, n - 1);
        let last = emitted(items[n - 1], host);
        let all = emitted_of(items, host, n);
        assert forall|k: int| 0 <= k < all.len() implies is_emitted(
            items,
            host,
            n,
            #[trigger] all[k],
        ) by {
            if k < front.len() {
                let i = choose|i: int| 0 <= i < n - 1 && #[trigger] emits(items, host, i, front[k]);
            } else {
                assert(emits(items, host, n - 1, all[k]));
            }
        }
    }
}

/// Every argument of a plan for a modern manifest comes from an entry of
/// the manifest's list, and where that entry is conditional its rules
/// admit the host: a conditional entry whose rules refuse the host puts
/// nothing into the plan.
pub proof fn lemma_conditional_arguments_admitted(
    manifest: MinecraftManifestView,
    host: HostSnapshotView,
    roots: InstallRootsView,
    identity: LaunchIdentityView,
    inventory: Seq<LocalFileView>,
)
    requires
        manifest.arguments is Some,
    ensures
        planned(manifest, host, roots, identity, inventory) matches Ok(plan) ==> {
            let modern = manifest.arguments->Some_0;
            let table = substitutions(manifest, host, roots, identity);
            let jvm = emitted_of(modern.jvm, host, modern.jvm.len() as int);
            let game = emitted_of(modern.game, host, modern.game.len() as int);
            &&& plan.jvm_args == expanded_each(jvm, table)
            &&& plan.game_args == expanded_each(game, table)
            &&& forall|k: int|
                0 <= k < jvm.len() ==> is_emitted(
                    modern.jvm,
                    host,
                    modern.jvm.len() as int,
                    #[trigger] jvm[k],
                )
            &&& forall|k: int|
                0 <= k < game.len() ==> is_emitted(
                    modern.game,
                    host,
                    modern.game.len() as int,
                    #[trigger] game[k],
                )
        },
{
    let modern = manifest.arguments->Some_0;
    lemma_emitted_origin(modern.jvm, host, modern.jvm.len() as int);
    lemma_emitted_origin(modern.game, host, modern.game.len() as int);
}

} // verus!
