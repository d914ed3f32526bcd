use crate::json::{JsonView, holds_real};
use crate::launch::InvalidReason;
use crate::manifest::{
    ArtifactView, ClassifiersView, ExtractView, LibraryDownloadView, LibraryView,
    MinecraftManifestView, ModernArgumentsItemView, ModernArgumentsView, OsView, RuleView,
};
use crate::wire_model::{
    Members, decode_artifact, decode_classifiers, decode_extract, decode_extras, decode_flags,
    decode_item, decode_items, decode_libraries, decode_library, decode_library_download,
    decode_manifest, decode_modern, decode_names, decode_os, decode_rule, decode_rules,
    decode_texts, encode_artifact, encode_classifiers, encode_extract, encode_extras,
    encode_features, encode_item, encode_items, encode_libraries, encode_library,
    encode_library_download, encode_manifest, encode_modern, encode_natives,
    encode_optional_artifact, encode_os, encode_rule, encode_rules, encode_texts,
    has_one_argument_form, member, platform_key, present, tidy_classifiers, tidy_library,
    tidy_manifest, with_optional,
};
use vstd::prelude::*;

verus! {

/// Looking a name up behind one more member: the new member where it has
/// the name, else what stood there before.
pub broadcast proof fn lemma_member_push(
    entries: Members,
    name: Seq<char>,
    value: JsonView,
    key: Seq<char>,
)
    ensures
        #[trigger] member(entries.push((name, value)), key) == if name == key {
            Some(value)
        } else {
            member(entries, key)
        },
{
    assert(entries.push((name, value)).drop_last() =~= entries);
}

/// The length and the first character of each name of the wire format.
pub proof fn lemma_wire_names()
    ensures
        "path"@.len() == 4 && "path"@[0] == 'p',
        "sha1"@.len() == 4 && "sha1"@[0] == 's',
        "url"@.len() == 3 && "url"@[0] == 'u',
        "natives-osx"@.len() == 11 && "natives-osx"@[0] == 'n',
        "natives-linux"@.len() == 13 && "natives-linux"@[0] == 'n',
        "natives-windows"@.len() == 15 && "natives-windows"@[0] == 'n',
        "artifact"@.len() == 8 && "artifact"@[0] == 'a',
        "classifiers"@.len() == 11 && "classifiers"@[0] == 'c',
        "exclude"@.len() == 7 && "exclude"@[0] == 'e',
        "name"@.len() == 4 && "name"@[0] == 'n',
        "arch"@.len() == 4 && "arch"@[0] == 'a',
        "version"@.len() == 7 && "version"@[0] == 'v',
        "action"@.len() == 6 && "action"@[0] == 'a',
        "os"@.len() == 2 && "os"@[0] == 'o',
        "features"@.len() == 8 && "features"@[0] == 'f',
        "downloads"@.len() == 9 && "downloads"@[0] == 'd',
        "rules"@.len() == 5 && "rules"@[0] == 'r',
        "natives"@.len() == 7 && "natives"@[0] == 'n',
        "extract"@.len() == 7 && "extract"@[0] == 'e',
        "value"@.len() == 5 && "value"@[0] == 'v',
        "game"@.len() == 4 && "game"@[0] == 'g',
        "jvm"@.len() == 3 && "jvm"@[0] == 'j',
        "id"@.len() == 2 && "id"@[0] == 'i',
        "client"@.len() == 6 && "client"@[0] == 'c',
        "majorVersion"@.len() == 12 && "majorVersion"@[0] == 'm',
        "argument"@.len() == 8 && "argument"@[0] == 'a',
        "file"@.len() == 4 && "file"@[0] == 'f',
        "type"@.len() == 4 && "type"@[0] == 't',
        "assetIndex"@.len() == 10 && "assetIndex"@[0] == 'a',
        "javaVersion"@.len() == 11 && "javaVersion"@[0] == 'j',
        "libraries"@.len() == 9 && "libraries"@[0] == 'l',
        "mainClass"@.len() == 9 && "mainClass"@[0] == 'm',
        "releaseTime"@.len() == 11 && "releaseTime"@[0] == 'r',
        "logging"@.len() == 7 && "logging"@[0] == 'l',
        "minecraftArguments"@.len() == 18 && "minecraftArguments"@[0] == 'm',
        "arguments"@.len() == 9 && "arguments"@[0] == 'a',
        "allow"@.len() == 5 && "allow"@[0] == 'a',
        "disallow"@.len() == 8 && "disallow"@[0] == 'd',
        "release"@.len() == 7 && "release"@[0] == 'r',
        "snapshot"@.len() == 8 && "snapshot"@[0] == 's',
        "old-beta"@.len() == 8 && "old-beta"@[0] == 'o',
        "old-alpha"@.len() == 9 && "old-alpha"@[0] == 'o',
{
    reveal_strlit("path");
    reveal_strlit("sha1");
    reveal_strlit("url");
    reveal_strlit("natives-osx");
    reveal_strlit("natives-linux");
    reveal_strlit("natives-windows");
    reveal_strlit("artifact");
    reveal_strlit("classifiers");
    reveal_strlit("exclude");
    reveal_strlit("name");
    reveal_strlit("arch");
    reveal_strlit("version");
    reveal_strlit("action");
    reveal_strlit("os");
    reveal_strlit("features");
    reveal_strlit("downloads");
    reveal_strlit("rules");
    reveal_strlit("natives");
    reveal_strlit("extract");
    reveal_strlit("value");
    reveal_strlit("game");
    reveal_strlit("jvm");
    reveal_strlit("id");
    reveal_strlit("client");
    reveal_strlit("majorVersion");
    reveal_strlit("argument");
    reveal_strlit("file");
    reveal_strlit("type");
    reveal_strlit("assetIndex");
    reveal_strlit("javaVersion");
    reveal_strlit("libraries");
    reveal_strlit("mainClass");
    reveal_strlit("releaseTime");
    reveal_strlit("logging");
    reveal_strlit("minecraftArguments");
    reveal_strlit("arguments");
    reveal_strlit("allow");
    reveal_strlit("disallow");
    reveal_strlit("release");
    reveal_strlit("snapshot");
    reveal_strlit("old-beta");
    reveal_strlit("old-alpha");
}

/// A list of texts that is written and read again is the same list.
pub proof fn lemma_texts_round_trip(texts: Seq<Seq<char>>, n: int)
    requires
        0 <= n <= texts.len(),
    ensures
        decode_texts(encode_texts(texts), n) == Ok::<Seq<Seq<char>>, InvalidReason>(texts.take(n)),
    decreases n,
{
    if n > 0 {
        lemma_texts_round_trip(texts, n - 1);
        assert(texts.take(n - 1).push(texts[n - 1]) =~= texts.take(n));
    } else {
        assert(texts.take(0) =~= Seq::empty());
    }
}

/// An artifact that is written and read again is the same artifact.
pub proof fn lemma_artifact_round_trip(a: ArtifactView)
    ensures
        decode_artifact(encode_artifact(a)) == Ok::<ArtifactView, InvalidReason>(a),
{
    broadcast use lemma_member_push;

    lemma_wire_names();
}

/// What is read of the first `n` members does not depend on a member
/// behind them.
pub proof fn lemma_extras_prefix(entries: Members, last: (Seq<char>, JsonView), n: int)
    requires
        0 <= n <= entries.len(),
    ensures
        decode_extras(entries.push(last), n) == decode_extras(entries, n),
    decreases n,
{
    if n > 0 {
        lemma_extras_prefix(entries, last, n - 1);
        assert(entries.push(last)[n - 1] == entries[n - 1]);
    }
}

/// Archives under keys of no platform that are written and read again are
/// the same archives under the same keys.
pub proof fn lemma_extras_round_trip(others: Seq<(Seq<char>, ArtifactView)>)
    requires
        forall|i: int| 0 <= i < others.len() ==> !platform_key((#[trigger] others[i]).0),
    ensures
        encode_extras(others).len() == others.len(),
        decode_extras(encode_extras(others), others.len() as int) == Ok::<
            Seq<(Seq<char>, ArtifactView)>,
            InvalidReason,
        >(others),
    decreases others.len(),
{
    if others.len() > 0 {
        let front = others.drop_last();
        let last = others.last();
        assert forall|i: int| 0 <= i < front.len() implies !platform_key(
            (#[trigger] front[i]).0,
        ) by {
            assert(front[i] == others[i]);
        }
        lemma_extras_round_trip(front);
        lemma_extras_prefix(
            encode_extras(front),
            (last.0, encode_artifact(last.1)),
            front.len() as int,
        );
        lemma_artifact_round_trip(last.1);
        let full = encode_extras(others);
        assert(full == encode_extras(front).push((last.0, encode_artifact(last.1))));
        assert(full[others.len() - 1] == (last.0, encode_artifact(last.1)));
        assert(!platform_key(others[others.len() - 1].0));
        assert(front.push(last) =~= others);
    } else {
        assert(others =~= Seq::empty());
    }
}

/// Among archives under keys of no platform, no member stands under the
/// key of a platform.
pub proof fn lemma_extras_keys(others: Seq<(Seq<char>, ArtifactView)>, key: Seq<char>)
    requires
        platform_key(key),
        forall|i: int| 0 <= i < others.len() ==> !platform_key((#[trigger] others[i]).0),
    ensures
        member(encode_extras(others), key) is None,
    decreases others.len(),
{
    broadcast use lemma_member_push;

    if others.len() > 0 {
        let front = others.drop_last();
        assert forall|i: int| 0 <= i < front.len() implies !platform_key(
            (#[trigger] front[i]).0,
        ) by {
            assert(front[i] == others[i]);
        }
        lemma_extras_keys(front, key);
        assert(!platform_key(others[others.len() - 1].0));
    }
}

/// A member under the key of a platform, behind the others, is passed over.
pub proof fn lemma_extras_skip(entries: Members, key: Seq<char>, value: Option<JsonView>)
    requires
        platform_key(key),
    ensures
        decode_extras(
            with_optional(entries, key, value),
            with_optional(entries, key, value).len() as int,
        ) == decode_extras(entries, entries.len() as int),
{
    if value is Some {
        lemma_extras_prefix(entries, (key, value->Some_0), entries.len() as int);
    }
}

/// Tidy classifiers that are written and read again are the same classifiers.
pub proof fn lemma_classifiers_round_trip(c: ClassifiersView)
    requires
        tidy_classifiers(c),
    ensures
        decode_classifiers(encode_classifiers(c)) == Ok::<ClassifiersView, InvalidReason>(c),
{
    broadcast use lemma_member_push;

    lemma_wire_names();
    if c.natives_osx is Some {
        lemma_artifact_round_trip(c.natives_osx->Some_0);
    }
    if c.natives_linux is Some {
        lemma_artifact_round_trip(c.natives_linux->Some_0);
    }
    if c.natives_windows is Some {
        lemma_artifact_round_trip(c.natives_windows->Some_0);
    }
    let e0 = encode_extras(c.others);
    let e1 = with_optional(e0, "natives-osx"@, encode_optional_artifact(c.natives_osx));
    let e2 = with_optional(e1, "natives-linux"@, encode_optional_artifact(c.natives_linux));
    lemma_extras_round_trip(c.others);
    lemma_extras_keys(c.others, "natives-osx"@);
    lemma_extras_keys(c.others, "natives-linux"@);
    lemma_extras_keys(c.others, "natives-windows"@);
    lemma_extras_skip(e0, "natives-osx"@, encode_optional_artifact(c.natives_osx));
    lemma_extras_skip(e1, "natives-linux"@, encode_optional_artifact(c.natives_linux));
    lemma_extras_skip(e2, "natives-windows"@, encode_optional_artifact(c.natives_windows));
}

/// The downloads of a library that are written and read again are the same.
pub proof fn lemma_library_download_round_trip(d: LibraryDownloadView)
    requires
        d.classifiers matches Some(c) ==> tidy_classifiers(c),
    ensures
        decode_library_download(encode_library_download(d)) == Ok::<
            LibraryDownloadView,
            InvalidReason,
        >(d),
{
    broadcast use lemma_member_push;

    lemma_wire_names();
    if d.artifact is Some {
        lemma_artifact_round_trip(d.artifact->Some_0);
    }
    if d.classifiers is Some {
        lemma_classifiers_round_trip(d.classifiers->Some_0);
    }
}

/// Extraction settings that are written and read again are the same.
pub proof fn lemma_extract_round_trip(e: ExtractView)
    ensures
        decode_extract(encode_extract(e)) == Ok::<ExtractView, InvalidReason>(e),
{
    broadcast use lemma_member_push;

    lemma_wire_names();
    lemma_texts_round_trip(e.exclude, e.exclude.len() as int);
    assert(e.exclude.take(e.exclude.len() as int) =~= e.exclude);
    let entries = encode_extract(e)->Object_0;
}

/// The operating-system part of a rule that is written and read again is the same.
pub proof fn lemma_os_round_trip(os: OsView)
    ensures
        decode_os(encode_os(os)) == Ok::<OsView, InvalidReason>(os),
{
    broadcast use lemma_member_push;

    lemma_wire_names();
}

/// Feature flags that are written and read again are the same flags.
pub proof fn lemma_flags_round_trip(flags: Seq<(Seq<char>, bool)>, n: int)
    requires
        0 <= n <= flags.len(),
    ensures
        decode_flags(encode_features(flags)->Object_0, n) == Ok::<
            Seq<(Seq<char>, bool)>,
            InvalidReason,
        >(flags.take(n)),
    decreases n,
{
    if n > 0 {
        lemma_flags_round_trip(flags, n - 1);
        assert(flags.take(n - 1).push(flags[n - 1]) =~= flags.take(n));
    } else {
        assert(flags.take(0) =~= Seq::empty());
    }
}

/// The natives of a library that are written and read again are the same.
pub proof fn lemma_names_round_trip(names: Seq<(Seq<char>, Seq<char>)>, n: int)
    requires
        0 <= n <= names.len(),
    ensures
        decode_names(encode_natives(names)->Object_0, n) == Ok::<
            Seq<(Seq<char>, Seq<char>)>,
            InvalidReason,
        >(names.take(n)),
    decreases n,
{
    if n > 0 {
        lemma_names_round_trip(names, n - 1);
        assert(names.take(n - 1).push(names[n - 1]) =~= names.take(n));
    } else {
        assert(names.take(0) =~= Seq::empty());
    }
}

/// A rule that is written and read again is the same rule.
pub proof fn lemma_rule_round_trip(rule: RuleView)
    ensures
        decode_rule(encode_rule(rule)) == Ok::<RuleView, InvalidReason>(rule),
{
    broadcast use lemma_member_push;

    lemma_wire_names();
    if rule.os is Some {
        lemma_os_round_trip(rule.os->Some_0);
    }
    if rule.features is Some {
        let flags = rule.features->Some_0;
        lemma_flags_round_trip(flags, flags.len() as int);
        assert(flags.take(flags.len() as int) =~= flags);
    }
}

/// A list of rules that is written and read again is the same list.
pub proof fn lemma_rules_round_trip(rules: Seq<RuleView>, n: int)
    requires
        0 <= n <= rules.len(),
    ensures
        decode_rules(encode_rules(rules), n) == Ok::<Seq<RuleView>, InvalidReason>(rules.take(n)),
    decreases n,
{
    if n > 0 {
        lemma_rules_round_trip(rules, n - 1);
        lemma_rule_round_trip(rules[n - 1]);
        assert(rules.take(n - 1).push(rules[n - 1]) =~= rules.take(n));
    } else {
        assert(rules.take(0) =~= Seq::empty());
    }
}

/// A library with tidy classifiers that is written and read again is the
/// same library.
pub proof fn lemma_library_round_trip(library: LibraryView)
    requires
        tidy_library(library),
    ensures
        decode_library(encode_library(library)) == Ok::<LibraryView, InvalidReason>(library),
{
    broadcast use lemma_member_push;

    lemma_wire_names();
    lemma_library_download_round_trip(library.downloads);
    lemma_rules_round_trip(library.rules, library.rules.len() as int);
    assert(library.rules.take(library.rules.len() as int) =~= library.rules);
    if library.natives is Some {
        let names = library.natives->Some_0;
        lemma_names_round_trip(names, names.len() as int);
        assert(names.take(names.len() as int) =~= names);
    }
    if library.extract is Some {
        lemma_extract_round_trip(library.extract->Some_0);
    }
}

/// A list of libraries that is written and read again is the same list.
pub proof fn lemma_libraries_round_trip(libraries: Seq<LibraryView>, n: int)
    requires
        0 <= n <= libraries.len(),
        forall|i: int| 0 <= i < libraries.len() ==> tidy_library(#[trigger] libraries[i]),
    ensures
        decode_libraries(encode_libraries(libraries), n) == Ok::<Seq<LibraryView>, InvalidReason>(
            libraries.take(n),
        ),
    decreases n,
{
    if n > 0 {
        lemma_libraries_round_trip(libraries, n - 1);
        lemma_library_round_trip(libraries[n - 1]);
        assert(libraries.take(n - 1).push(libraries[n - 1]) =~= libraries.take(n));
    } else {
        assert(libraries.take(0) =~= Seq::empty());
    }
}

/// An argument entry that is written and read again is the same entry.
pub proof fn lemma_item_round_trip(item: ModernArgumentsItemView)
    ensures
        decode_item(encode_item(item)) == Ok::<ModernArgumentsItemView, InvalidReason>(item),
{
    broadcast use lemma_member_push;

    lemma_wire_names();
    match item {
        ModernArgumentsItemView::Simple(_) => {},
        ModernArgumentsItemView::Rule(rule) => {
            lemma_rules_round_trip(rule.rules, rule.rules.len() as int);
            assert(rule.rules.take(rule.rules.len() as int) =~= rule.rules);
            lemma_texts_round_trip(rule.value, rule.value.len() as int);
            assert(rule.value.take(rule.value.len() as int) =~= rule.value);
        },
    }
}

/// A list of argument entries that is written and read again is the same list.
pub proof fn lemma_items_round_trip(items: Seq<ModernArgumentsItemView>, n: int)
    requires
        0 <= n <= items.len(),
    ensures
        decode_items(encode_items(items), n) == Ok::<Seq<ModernArgumentsItemView>, InvalidReason>(
            items.take(n),
        ),
    decreases n,
{
    if n > 0 {
        lemma_items_round_trip(items, n - 1);
        lemma_item_round_trip(items[n - 1]);
        assert(items.take(n - 1).push(items[n - 1]) =~= items.take(n));
    } else {
        assert(items.take(0) =~= Seq::empty());
    }
}

/// Modern arguments that are written and read again are the same.
pub proof fn lemma_modern_round_trip(modern: ModernArgumentsView)
    ensures
        decode_modern(encode_modern(modern)) == Ok::<ModernArgumentsView, InvalidReason>(modern),
{
    broadcast use lemma_member_push;

    lemma_wire_names();
    lemma_items_round_trip(modern.game, modern.game.len() as int);
    assert(modern.game.take(modern.game.len() as int) =~= modern.game);
    lemma_items_round_trip(modern.jvm, modern.jvm.len() as int);
    assert(modern.jvm.take(modern.jvm.len() as int) =~= modern.jvm);
}

/// A manifest with exactly one argument form and tidy classifiers that is
/// written and read again is the same manifest.
pub proof fn lemma_manifest_round_trip(m: MinecraftManifestView)
    requires
        has_one_argument_form(m),
        tidy_manifest(m),
    ensures
        decode_manifest(encode_manifest(m)) == Ok::<MinecraftManifestView, InvalidReason>(m),
{
    broadcast use lemma_member_push;

    lemma_wire_names();
    lemma_libraries_round_trip(m.libraries, m.libraries.len() as int);
    assert(m.libraries.take(m.libraries.len() as int) =~= m.libraries);
    if m.arguments is Some {
        lemma_modern_round_trip(m.arguments->Some_0);
    }
    let downloads = seq![("client"@, crate::wire_model::encode_client(m.downloads.client))];
    let java = seq![("majorVersion"@, JsonView::Unsigned(m.java_version.major_version as u64))];
    if m.logging is Some {
        let logging = m.logging->Some_0;
        let inner = crate::wire_model::encode_logging(logging)->Object_0;
    }
}

/// A manifest that was read from a document has exactly one of its two
/// argument forms populated.
pub proof fn lemma_decoded_has_one_form(doc: JsonView)
    ensures
        decode_manifest(doc) matches Ok(m) ==> has_one_argument_form(m),
{
}

/// What is read of the first `n` members stands under keys of no platform.
pub proof fn lemma_extras_tidy(entries: Members, n: int)
    requires
        0 <= n <= entries.len(),
    ensures
        decode_extras(entries, n) matches Ok(others) ==> forall|i: int|
            0 <= i < others.len() ==> !platform_key((#[trigger] others[i]).0),
    decreases n,
{
    if n > 0 {
        lemma_extras_tidy(entries, n - 1);
    }
}

/// A library that was read from a document has tidy classifiers.
pub proof fn lemma_decoded_library_tidy(v: JsonView)
    ensures
        decode_library(v) matches Ok(library) ==> tidy_library(library),
{
    if let JsonView::Object(entries) = v {
        if let Some(JsonView::Object(downloads)) = member(entries, "downloads"@) {
            if let Some(JsonView::Object(classifiers)) = present(downloads, "classifiers"@) {
                lemma_extras_tidy(classifiers, classifiers.len() as int);
            }
        }
    }
}

/// The libraries that were read from a list have tidy classifiers.
pub proof fn lemma_decoded_libraries_tidy(items: Seq<JsonView>, n: int)
    requires
        0 <= n <= items.len(),
    ensures
        decode_libraries(items, n) matches Ok(libraries) ==> forall|i: int|
            0 <= i < libraries.len() ==> tidy_library(#[trigger] libraries[i]),
    decreases n,
{
    if n > 0 {
        lemma_decoded_libraries_tidy(items, n - 1);
        lemma_decoded_library_tidy(items[n - 1]);
    }
}

/// A manifest that was read from a document has tidy classifiers.
pub proof fn lemma_decoded_is_tidy(doc: JsonView)
    ensures
        decode_manifest(doc) matches Ok(m) ==> tidy_manifest(m),
{
    if let JsonView::Object(entries) = doc {
        if let Some(JsonView::List(items)) = member(entries, "libraries"@) {
            lemma_decoded_libraries_tidy(items, items.len() as int);
        }
    }
}

/// Reading, writing and reading again yields what the first reading
/// yielded: a document that holds a manifest holds the manifest that the
/// written manifest holds.
pub proof fn lemma_round_trip(doc: JsonView)
    ensures
        decode_manifest(doc) matches Ok(m) ==> decode_manifest(encode_manifest(m)) == Ok::<
            MinecraftManifestView,
            InvalidReason,
        >(m),
{
    if let Ok(m) = decode_manifest(doc) {
        lemma_decoded_has_one_form(doc);
        lemma_decoded_is_tidy(doc);
        lemma_manifest_round_trip(m);
    }
}

/// A value that is given as one bare text is read as the list of that one
/// text, and written as that list.
pub proof fn lemma_bare_value_is_a_list(text: Seq<char>)
    ensures
        decode_item(JsonView::Object(seq![("value"@, JsonView::Text(text))])) == Ok::<
            ModernArgumentsItemView,
            InvalidReason,
        >(
            ModernArgumentsItemView::Rule(
                crate::manifest::ArgumentRuleView { rules: Seq::empty(), value: seq![text] },
            ),
        ),
        decode_item(JsonView::Object(seq![("value"@, JsonView::List(seq![JsonView::Text(text)]))]))
            == decode_item(JsonView::Object(seq![("value"@, JsonView::Text(text))])),
{
    broadcast use lemma_member_push;

    lemma_wire_names();
    let bare = seq![("value"@, JsonView::Text(text))];
    let items = seq![JsonView::Text(text)];
    let listed = seq![("value"@, JsonView::List(items))];
    assert(decode_texts(items, 0) == Ok::<Seq<Seq<char>>, InvalidReason>(Seq::empty()));
}

/// Whether no member holds a number that is no 64-bit integer.
pub open spec fn plain_members(members: Members) -> bool {
    forall|i: int| 0 <= i < members.len() ==> !holds_real((#[trigger] members[i]).1)
}

/// Whether no item holds a number that is no 64-bit integer.
pub open spec fn plain_items(items: Seq<JsonView>) -> bool {
    forall|i: int| 0 <= i < items.len() ==> !holds_real(#[trigger] items[i])
}

/// Members stay plain when a plain member is added, and only then.
pub broadcast proof fn lemma_plain_push(members: Members, name: Seq<char>, value: JsonView)
    ensures
        #[trigger] plain_members(members.push((name, value))) == (plain_members(members)
            && !holds_real(value)),
{
    let more = members.push((name, value));
    if plain_members(more) {
        assert(more[members.len() as int] == (name, value));
        assert forall|i: int| 0 <= i < members.len() implies !holds_real(
            (#[trigger] members[i]).1,
        ) by {
            assert(more[i] == members[i]);
        }
    }
}

/// An object is plain exactly if its members are.
pub broadcast proof fn lemma_plain_object(members: Members)
    ensures
        #[trigger] holds_real(JsonView::Object(members)) == !plain_members(members),
{
    assert(JsonView::Object(members)->Object_0 == members);
}

/// A list is plain exactly if its items are.
pub broadcast proof fn lemma_plain_list(items: Seq<JsonView>)
    ensures
        #[trigger] holds_real(JsonView::List(items)) == !plain_items(items),
{
    assert(JsonView::List(items)->List_0 == items);
}

/// The document of an artifact holds only texts.
pub proof fn lemma_plain_artifact(a: ArtifactView)
    ensures
        !holds_real(encode_artifact(a)),
{
    broadcast use lemma_plain_push, lemma_plain_object;

}

/// The documents of archives under their keys hold only texts.
pub proof fn lemma_plain_extras(others: Seq<(Seq<char>, ArtifactView)>)
    ensures
        plain_members(encode_extras(others)),
    decreases others.len(),
{
    broadcast use lemma_plain_push;

    if others.len() > 0 {
        lemma_plain_extras(others.drop_last());
        lemma_plain_artifact(others.last().1);
    }
}

/// The document of a rule holds only texts and booleans.
pub proof fn lemma_plain_rule(rule: RuleView)
    ensures
        !holds_real(encode_rule(rule)),
{
    broadcast use lemma_plain_push, lemma_plain_object;

    if rule.os is Some {
        assert(!holds_real(encode_os(rule.os->Some_0)));
    }
    if rule.features is Some {
        assert(plain_members(encode_features(rule.features->Some_0)->Object_0));
    }
}

/// The documents of rules hold only texts and booleans.
pub proof fn lemma_plain_rules(rules: Seq<RuleView>)
    ensures
        plain_items(encode_rules(rules)),
{
    assert forall|i: int| 0 <= i < rules.len() implies !holds_real(
        #[trigger] encode_rules(rules)[i],
    ) by {
        lemma_plain_rule(rules[i]);
    }
}

/// The document of a library holds only texts and booleans.
pub proof fn lemma_plain_library(library: LibraryView)
    ensures
        !holds_real(encode_library(library)),
{
    broadcast use lemma_plain_push, lemma_plain_object, lemma_plain_list;

    let d = library.downloads;
    if d.artifact is Some {
        lemma_plain_artifact(d.artifact->Some_0);
    }
    if d.classifiers is Some {
        let c = d.classifiers->Some_0;
        if c.natives_osx is Some {
            lemma_plain_artifact(c.natives_osx->Some_0);
        }
        if c.natives_linux is Some {
            lemma_plain_artifact(c.natives_linux->Some_0);
        }
        if c.natives_windows is Some {
            lemma_plain_artifact(c.natives_windows->Some_0);
        }
        lemma_plain_extras(c.others);
        assert(!holds_real(encode_classifiers(c)));
    }
    assert(!holds_real(encode_library_download(d)));
    lemma_plain_rules(library.rules);
    if library.natives is Some {
        assert(plain_members(encode_natives(library.natives->Some_0)->Object_0));
    }
    if library.extract is Some {
        let e = library.extract->Some_0;
        assert(plain_items(encode_texts(e.exclude)));
        let members = encode_extract(e)->Object_0;
        assert(members =~= Seq::empty().push(
            ("exclude"@, JsonView::List(encode_texts(e.exclude))),
        ));
    }
}

/// The document of an argument entry holds only texts and booleans.
pub proof fn lemma_plain_item(item: ModernArgumentsItemView)
    ensures
        !holds_real(encode_item(item)),
{
    broadcast use lemma_plain_push, lemma_plain_object, lemma_plain_list;

    match item {
        ModernArgumentsItemView::Simple(_) => {},
        ModernArgumentsItemView::Rule(rule) => {
            lemma_plain_rules(rule.rules);
            assert(plain_items(encode_texts(rule.value)));
        },
    }
}

/// The document of a manifest holds no number but the 64-bit integer of
/// its Java version, so that it can be written as text.
pub proof fn lemma_plain_manifest(m: MinecraftManifestView)
    ensures
        !holds_real(encode_manifest(m)),
{
    broadcast use lemma_plain_push, lemma_plain_object, lemma_plain_list;

    assert forall|i: int| 0 <= i < m.libraries.len() implies !holds_real(
        #[trigger] encode_libraries(m.libraries)[i],
    ) by {
        lemma_plain_library(m.libraries[i]);
    }
    assert(plain_items(encode_libraries(m.libraries)));
    if m.arguments is Some {
        let modern = m.arguments->Some_0;
        assert forall|i: int| 0 <= i < modern.game.len() implies !holds_real(
            #[trigger] encode_items(modern.game)[i],
        ) by {
            lemma_plain_item(modern.game[i]);
        }
        assert forall|i: int| 0 <= i < modern.jvm.len() implies !holds_real(
            #[trigger] encode_items(modern.jvm)[i],
        ) by {
            lemma_plain_item(modern.jvm[i]);
        }
        assert(plain_items(encode_items(modern.game)));
        assert(plain_items(encode_items(modern.jvm)));
        assert(!holds_real(encode_modern(modern)));
    }
    let client = crate::wire_model::encode_client(m.downloads.client);
    assert(!holds_real(client));
    let downloads = seq![("client"@, client)];
    assert(downloads =~= Seq::empty().push(("client"@, client)));
    let java = seq![("majorVersion"@, JsonView::Unsigned(m.java_version.major_version as u64))];
    assert(java =~= Seq::empty().push(
        ("majorVersion"@, JsonView::Unsigned(m.java_version.major_version as u64)),
    ));
    assert(!holds_real(
        crate::wire_model::encode_reference(
            m.asset_index.id,
            m.asset_index.sha1,
            m.asset_index.url,
        ),
    ));
    if m.logging is Some {
        let logging = m.logging->Some_0;
        let file = crate::wire_model::encode_reference(
            logging.client.file.id,
            logging.client.file.sha1,
            logging.client.file.url,
        );
        assert(!holds_real(file));
        let outer = crate::wire_model::encode_logging(logging)->Object_0;
        assert(outer =~= Seq::empty().push(outer[0]));
        assert(!holds_real(outer[0].1));
        assert(!holds_real(crate::wire_model::encode_logging(logging)));
    }
}

} // verus!
