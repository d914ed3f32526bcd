use crate::json::{
    JsonValue, JsonView, items_view, lemma_list_view, lemma_object_view, members_view,
};
use crate::manifest::{
    Artifact, Classifiers, Client, Extract, Library, LibraryDownload, Logging, MinecraftManifest,
    ModernArguments, ModernArgumentsItem, Os, Rule, RuleAction,
};
use crate::planner::release_type_text;
use crate::wire_model::{
    action_name, encode_artifact, encode_classifiers, encode_client, encode_extract, encode_extras,
    encode_features, encode_item, encode_items, encode_libraries, encode_library,
    encode_library_download, encode_logging, encode_manifest, encode_modern, encode_natives,
    encode_optional_artifact, encode_optional_text, encode_os, encode_reference, encode_rule,
    encode_rules, encode_texts, with_list, with_optional,
};
use vstd::prelude::*;

verus! {

/// The view of a value that may be there.
pub open spec fn optional_view(value: Option<JsonValue>) -> Option<JsonView> {
    match value {
        Some(v) => Some(v@),
        None => None,
    }
}

/// Adds a member to the members of an object.
pub(crate) fn add_member(members: &mut Vec<(String, JsonValue)>, key: &str, value: JsonValue)
    ensures
        members_view(final(members)@) == members_view(old(members)@).push((key@, value@)),
{
    members.push((key.to_owned(), value));
}

/// Adds a member where there is a value.
fn add_optional(members: &mut Vec<(String, JsonValue)>, key: &str, value: Option<JsonValue>)
    ensures
        members_view(final(members)@) == with_optional(
            members_view(old(members)@),
            key@,
            optional_view(value),
        ),
{
    match value {
        Some(v) => add_member(members, key, v),
        None => {},
    }
}

/// Adds a member that holds a list, unless the list is empty.
fn add_list(members: &mut Vec<(String, JsonValue)>, key: &str, items: Vec<JsonValue>)
    ensures
        members_view(final(members)@) == with_list(
            members_view(old(members)@),
            key@,
            items_view(items@),
        ),
{
    if items.len() > 0 {
        add_member(members, key, list_of(items));
    }
}

/// The object with these members.
pub(crate) fn object_of(members: Vec<(String, JsonValue)>) -> (r: JsonValue)
    ensures
        r@ == JsonView::Object(members_view(members@)),
{
    proof {
        lemma_object_view(members);
    }
    JsonValue::Object(members)
}

/// The list with these items.
fn list_of(items: Vec<JsonValue>) -> (r: JsonValue)
    ensures
        r@ == JsonView::List(items_view(items@)),
{
    proof {
        lemma_list_view(items);
    }
    JsonValue::List(items)
}

/// No members.
pub(crate) fn no_members() -> (r: Vec<(String, JsonValue)>)
    ensures
        members_view(r@) == Seq::<(Seq<char>, JsonView)>::empty(),
{
    let members: Vec<(String, JsonValue)> = Vec::new();
    members
}

/// A text on the wire.
pub(crate) fn write_text(text: &String) -> (r: JsonValue)
    ensures
        r@ == JsonView::Text(text@),
{
    JsonValue::Text(text.clone())
}

/// An optional text on the wire.
fn write_optional_text(text: &Option<String>) -> (r: Option<JsonValue>)
    ensures
        optional_view(r) == encode_optional_text(text.deep_view()),
{
    match text {
        Some(t) => Some(write_text(t)),
        None => None,
    }
}

/// A list of texts on the wire.
fn write_texts(texts: &Vec<String>) -> (r: Vec<JsonValue>)
    ensures
        items_view(r@) == encode_texts(texts.deep_view()),
{
    let mut out: Vec<JsonValue> = Vec::new();
    let mut i: usize = 0;
    while i < texts.len()
        invariant
            i <= texts.len(),
            out.len() == i,
            forall|k: int| 0 <= k < i ==> (#[trigger] out[k])@ == JsonView::Text(texts[k]@),
        decreases texts.len() - i,
    {
        out.push(write_text(&texts[i]));
        i += 1;
    }
    out
}

/// An artifact on the wire.
fn write_artifact(a: &Artifact) -> (r: JsonValue)
    ensures
        r@ == encode_artifact(a@),
{
    let mut members = no_members();
    add_member(&mut members, "path", write_text(&a.path));
    add_member(&mut members, "sha1", write_text(&a.sha1));
    add_member(&mut members, "url", write_text(&a.url));
    object_of(members)
}

/// An optional artifact on the wire.
fn write_optional_artifact(a: &Option<Artifact>) -> (r: Option<JsonValue>)
    ensures
        optional_view(r) == encode_optional_artifact(a.deep_view()),
{
    match a {
        Some(a) => Some(write_artifact(a)),
        None => None,
    }
}

/// Archives under their keys on the wire, in their order.
fn write_extras(others: &Vec<(String, Artifact)>) -> (r: Vec<(String, JsonValue)>)
    ensures
        members_view(r@) == encode_extras(others.deep_view()),
{
    let ghost ov = others.deep_view();
    let mut members = no_members();
    let mut i: usize = 0;
    assert(ov.take(0) =~= Seq::empty());
    while i < others.len()
        invariant
            i <= others.len(),
            ov == others.deep_view(),
            members_view(members@) == encode_extras(ov.take(i as int)),
        decreases others.len() - i,
    {
        proof {
            assert(ov.take(i + 1).drop_last() =~= ov.take(i as int));
            assert(ov.take(i + 1).last() == (others[i as int].0@, others[i as int].1@));
        }
        add_member(&mut members, others[i].0.as_str(), write_artifact(&others[i].1));
        i += 1;
    }
    assert(ov.take(others.len() as int) =~= ov);
    members
}

/// The classifiers of a library on the wire.
fn write_classifiers(c: &Classifiers) -> (r: JsonValue)
    ensures
        r@ == encode_classifiers(c@),
{
    let mut members = write_extras(&c.others);
    add_optional(&mut members, "natives-osx", write_optional_artifact(&c.natives_osx));
    add_optional(&mut members, "natives-linux", write_optional_artifact(&c.natives_linux));
    add_optional(&mut members, "natives-windows", write_optional_artifact(&c.natives_windows));
    object_of(members)
}

/// The downloads of a library on the wire.
fn write_library_download(d: &LibraryDownload) -> (r: JsonValue)
    ensures
        r@ == encode_library_download(d@),
{
    let mut members = no_members();
    add_optional(&mut members, "artifact", write_optional_artifact(&d.artifact));
    let classifiers = match &d.classifiers {
        Some(c) => Some(write_classifiers(c)),
        None => None,
    };
    add_optional(&mut members, "classifiers", classifiers);
    object_of(members)
}

/// The extraction settings of a library on the wire.
fn write_extract(e: &Extract) -> (r: JsonValue)
    ensures
        r@ == encode_extract(e@),
{
    let mut members = no_members();
    add_member(&mut members, "exclude", list_of(write_texts(&e.exclude)));
    object_of(members)
}

/// The operating-system part of a rule on the wire.
fn write_os(os: &Os) -> (r: JsonValue)
    ensures
        r@ == encode_os(os@),
{
    let mut members = no_members();
    add_optional(&mut members, "name", write_optional_text(&os.name));
    add_optional(&mut members, "arch", write_optional_text(&os.arch));
    add_optional(&mut members, "version", write_optional_text(&os.version));
    object_of(members)
}

/// Feature flags on the wire.
fn write_features(flags: &Vec<(String, bool)>) -> (r: JsonValue)
    ensures
        r@ == encode_features(flags.deep_view()),
{
    let mut members: Vec<(String, JsonValue)> = Vec::new();
    let mut i: usize = 0;
    while i < flags.len()
        invariant
            i <= flags.len(),
            members.len() == i,
            forall|k: int|
                0 <= k < i ==> (#[trigger] members[k]).0@ == flags[k].0@ && members[k].1@
                    == JsonView::Bool(flags[k].1),
        decreases flags.len() - i,
    {
        members.push((flags[i].0.clone(), JsonValue::Bool(flags[i].1)));
        i += 1;
    }
    assert(members_view(members@) =~= encode_features(flags.deep_view())->Object_0);
    object_of(members)
}

/// The natives of a library on the wire.
fn write_natives(names: &Vec<(String, String)>) -> (r: JsonValue)
    ensures
        r@ == encode_natives(names.deep_view()),
{
    let mut members: Vec<(String, JsonValue)> = Vec::new();
    let mut i: usize = 0;
    while i < names.len()
        invariant
            i <= names.len(),
            members.len() == i,
            forall|k: int|
                0 <= k < i ==> (#[trigger] members[k]).0@ == names[k].0@ && members[k].1@
                    == JsonView::Text(names[k].1@),
        decreases names.len() - i,
    {
        members.push((names[i].0.clone(), write_text(&names[i].1)));
        i += 1;
    }
    assert(members_view(members@) =~= encode_natives(names.deep_view())->Object_0);
    object_of(members)
}

/// The wire name of an action.
fn action_text(action: RuleAction) -> (r: &'static str)
    ensures
        r@ == action_name(action),
{
    match action {
        RuleAction::Allow => "allow",
        RuleAction::Disallow => "disallow",
    }
}

/// A rule on the wire.
fn write_rule(rule: &Rule) -> (r: JsonValue)
    ensures
        r@ == encode_rule(rule@),
{
    let mut members = no_members();
    add_member(&mut members, "action", JsonValue::Text(action_text(rule.action).to_owned()));
    let os = match &rule.os {
        Some(os) => Some(write_os(os)),
        None => None,
    };
    add_optional(&mut members, "os", os);
    let features = match &rule.features {
        Some(flags) => Some(write_features(flags)),
        None => None,
    };
    add_optional(&mut members, "features", features);
    object_of(members)
}

/// A list of rules on the wire.
fn write_rules(rules: &Vec<Rule>) -> (r: Vec<JsonValue>)
    ensures
        items_view(r@) == encode_rules(rules.deep_view()),
{
    let mut out: Vec<JsonValue> = Vec::new();
    let mut i: usize = 0;
    while i < rules.len()
        invariant
            i <= rules.len(),
            out.len() == i,
            forall|k: int| 0 <= k < i ==> (#[trigger] out[k])@ == encode_rule(rules[k]@),
        decreases rules.len() - i,
    {
        out.push(write_rule(&rules[i]));
        i += 1;
    }
    out
}

/// A library on the wire.
fn write_library(library: &Library) -> (r: JsonValue)
    ensures
        r@ == encode_library(library@),
{
    let mut members = no_members();
    add_member(&mut members, "downloads", write_library_download(&library.downloads));
    add_member(&mut members, "name", write_text(&library.name));
    add_list(&mut members, "rules", write_rules(&library.rules));
    let natives = match &library.natives {
        Some(names) => Some(write_natives(names)),
        None => None,
    };
    add_optional(&mut members, "natives", natives);
    let extract = match &library.extract {
        Some(e) => Some(write_extract(e)),
        None => None,
    };
    add_optional(&mut members, "extract", extract);
    object_of(members)
}

/// A list of libraries on the wire.
fn write_libraries(libraries: &Vec<Library>) -> (r: Vec<JsonValue>)
    ensures
        items_view(r@) == encode_libraries(libraries.deep_view()),
{
    let mut out: Vec<JsonValue> = Vec::new();
    let mut i: usize = 0;
    while i < libraries.len()
        invariant
            i <= libraries.len(),
            out.len() == i,
            forall|k: int| 0 <= k < i ==> (#[trigger] out[k])@ == encode_library(libraries[k]@),
        decreases libraries.len() - i,
    {
        out.push(write_library(&libraries[i]));
        i += 1;
    }
    out
}

/// An argument entry on the wire.
fn write_item(item: &ModernArgumentsItem) -> (r: JsonValue)
    ensures
        r@ == encode_item(item@),
{
    match item {
        ModernArgumentsItem::Simple(t) => write_text(t),
        ModernArgumentsItem::Rule(rule) => {
            let mut members = no_members();
            add_list(&mut members, "rules", write_rules(&rule.rules));
            add_list(&mut members, "value", write_texts(&rule.value));
            object_of(members)
        },
    }
}

/// A list of argument entries on the wire.
fn write_items(items: &Vec<ModernArgumentsItem>) -> (r: Vec<JsonValue>)
    ensures
        items_view(r@) == encode_items(items.deep_view()),
{
    let mut out: Vec<JsonValue> = Vec::new();
    let mut i: usize = 0;
    while i < items.len()
        invariant
            i <= items.len(),
            out.len() == i,
            forall|k: int| 0 <= k < i ==> (#[trigger] out[k])@ == encode_item(items[k]@),
        decreases items.len() - i,
    {
        out.push(write_item(&items[i]));
        i += 1;
    }
    out
}

/// The modern arguments on the wire.
fn write_modern(modern: &ModernArguments) -> (r: JsonValue)
    ensures
        r@ == encode_modern(modern@),
{
    let mut members = no_members();
    add_member(&mut members, "game", list_of(write_items(&modern.game)));
    add_member(&mut members, "jvm", list_of(write_items(&modern.jvm)));
    object_of(members)
}

/// Three texts under the names `id`, `sha1` and `url`.
fn write_reference(id: &String, sha1: &String, url: &String) -> (r: JsonValue)
    ensures
        r@ == encode_reference(id@, sha1@, url@),
{
    let mut members = no_members();
    add_member(&mut members, "id", write_text(id));
    add_member(&mut members, "sha1", write_text(sha1));
    add_member(&mut members, "url", write_text(url));
    object_of(members)
}

/// The client download on the wire.
fn write_client(client: &Client) -> (r: JsonValue)
    ensures
        r@ == encode_client(client@),
{
    let mut members = no_members();
    add_member(&mut members, "sha1", write_text(&client.sha1));
    add_member(&mut members, "url", write_text(&client.url));
    object_of(members)
}

/// The logging section on the wire.
fn write_logging(logging: &Logging) -> (r: JsonValue)
    ensures
        r@ == encode_logging(logging@),
{
    let mut inner = no_members();
    add_member(&mut inner, "argument", write_text(&logging.client.argument));
    add_member(
        &mut inner,
        "file",
        write_reference(
            &logging.client.file.id,
            &logging.client.file.sha1,
            &logging.client.file.url,
        ),
    );
    add_member(&mut inner, "type", write_text(&logging.client.type_field));
    let client = object_of(inner);
    let mut members = no_members();
    add_member(&mut members, "client", client);
    object_of(members)
}

/// Writes a manifest as a document. Absent optional fields, empty rules
/// and empty values are left out, and of the two argument forms only what
/// the manifest holds is written.
pub fn write_manifest(m: &MinecraftManifest) -> (r: JsonValue)
    ensures
        r@ == encode_manifest(m@),
{
    let mut members = no_members();
    add_member(
        &mut members,
        "assetIndex",
        write_reference(&m.asset_index.id, &m.asset_index.sha1, &m.asset_index.url),
    );
    let client = write_client(&m.downloads.client);
    let mut downloads = no_members();
    add_member(&mut downloads, "client", client);
    add_member(&mut members, "downloads", object_of(downloads));
    let mut java = no_members();
    add_member(&mut java, "majorVersion", JsonValue::Unsigned(m.java_version.major_version as u64));
    add_member(&mut members, "javaVersion", object_of(java));
    add_member(&mut members, "libraries", list_of(write_libraries(&m.libraries)));
    add_member(&mut members, "mainClass", write_text(&m.main_class));
    add_member(&mut members, "releaseTime", write_text(&m.release_time));
    add_member(&mut members, "id", write_text(&m.version));
    add_member(&mut members, "type", JsonValue::Text(release_type_text(m.release_type).to_owned()));
    let logging = match &m.logging {
        Some(logging) => Some(write_logging(logging)),
        None => None,
    };
    add_optional(&mut members, "logging", logging);
    add_optional(&mut members, "minecraftArguments", write_optional_text(&m.minecraft_arguments));
    let modern = match &m.arguments {
        Some(modern) => Some(write_modern(modern)),
        None => None,
    };
    add_optional(&mut members, "arguments", modern);
    object_of(members)
}

} // verus!
