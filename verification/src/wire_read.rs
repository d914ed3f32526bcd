use crate::json::{
    JsonValue, JsonView, items_view, lemma_list_view, lemma_object_view, members_view,
};
use crate::launch::InvalidReason;
use crate::manifest::{
    ArgumentRule, Artifact, AssetIndex, Classifiers, Client, Client2, Downloads, Extract, File,
    JavaVersion, Library, LibraryDownload, Logging, MinecraftManifest, ModernArguments,
    ModernArgumentsItem, Os, ReleaseType, Rule, RuleAction,
};
use crate::text::{lemma_deep_view_push, same_text};
use crate::wire_model::{
    Decoded, decode_action, decode_arguments, decode_artifact, decode_asset_index,
    decode_classifiers, decode_client, decode_client2, decode_downloads, decode_extract,
    decode_extras, decode_features, decode_file, decode_flags, decode_item, decode_item_list,
    decode_items, decode_java_version, decode_libraries, decode_library, decode_library_download,
    decode_library_list, decode_logging, decode_manifest, decode_modern, decode_names,
    decode_natives, decode_os, decode_release_type, decode_rule, decode_rule_list, decode_rules,
    decode_text, decode_text_list, decode_texts, decode_values, member, optional_artifact,
    optional_text, present, required_text,
};
use vstd::prelude::*;

verus! {

/// Whether a result of reading is what decoding yields.
pub open spec fn agrees<T: DeepView>(r: Result<T, InvalidReason>, expected: Decoded<T::V>) -> bool {
    match r {
        Ok(x) => expected == Ok::<T::V, InvalidReason>(x.deep_view()),
        Err(e) => expected == Err::<T::V, InvalidReason>(e),
    }
}

/// The view of a field that was looked up.
pub open spec fn field_view(field: Option<&JsonValue>) -> Option<JsonView> {
    match field {
        Some(v) => Some(v@),
        None => None,
    }
}

/// Looks up the member of this name among the members of an object; of
/// two members of one name the later counts.
pub(crate) fn find_member<'a>(members: &'a Vec<(String, JsonValue)>, key: &str) -> (r: Option<
    &'a JsonValue,
>)
    ensures
        field_view(r) == member(members_view(members@), key@),
{
    let ghost mv = members_view(members@);
    let mut found: Option<&JsonValue> = None;
    let mut i: usize = 0;
    assert(mv.take(0) =~= Seq::empty());
    while i < members.len()
        invariant
            i <= members.len(),
            mv == members_view(members@),
            field_view(found) == member(mv.take(i as int), key@),
        decreases members.len() - i,
    {
        proof {
            assert(mv.take(i + 1).drop_last() =~= mv.take(i as int));
        }
        if same_text(members[i].0.as_str(), key) {
            found = Some(&members[i].1);
        }
        i += 1;
    }
    assert(mv.take(members.len() as int) =~= mv);
    found
}

/// Looks up the field of this name among the members of an object: the
/// member of this name, unless it is `null`.
pub(crate) fn find_field<'a>(members: &'a Vec<(String, JsonValue)>, key: &str) -> (r: Option<
    &'a JsonValue,
>)
    ensures
        field_view(r) == present(members_view(members@), key@),
{
    match find_member(members, key) {
        Some(JsonValue::Null) => None,
        other => other,
    }
}

/// Reads a text.
fn read_text(v: &JsonValue) -> (r: Result<String, InvalidReason>)
    ensures
        agrees(r, decode_text(v@)),
{
    match v {
        JsonValue::Text(t) => Ok(t.clone()),
        _ => Err(InvalidReason::WrongShape),
    }
}

/// Reads a field that must be there and hold a text.
pub(crate) fn read_required_text(field: Option<&JsonValue>) -> (r: Result<String, InvalidReason>)
    ensures
        agrees(r, required_text(field_view(field))),
{
    match field {
        Some(v) => read_text(v),
        None => Err(InvalidReason::MissingField),
    }
}

/// Reads a field that holds a text where it is there.
pub(crate) fn read_optional_text(field: Option<&JsonValue>) -> (r: Result<
    Option<String>,
    InvalidReason,
>)
    ensures
        agrees(r, optional_text(field_view(field))),
{
    match field {
        Some(v) => match read_text(v) {
            Ok(t) => Ok(Some(t)),
            Err(e) => Err(e),
        },
        None => Ok(None),
    }
}

/// Reads a list of texts.
fn read_text_list(v: &JsonValue) -> (r: Result<Vec<String>, InvalidReason>)
    ensures
        agrees(r, decode_text_list(v@)),
{
    match v {
        JsonValue::List(items) => {
            proof {
                lemma_list_view(*items);
            }
            let ghost iv = items_view(items@);
            let mut out: Vec<String> = Vec::new();
            let mut i: usize = 0;
            assert(out.deep_view() =~= Seq::<Seq<char>>::empty());
            while i < items.len()
                invariant
                    i <= items.len(),
                    iv == items_view(items@),
                    v@ == JsonView::List(iv),
                    decode_texts(iv, i as int) == Ok::<Seq<Seq<char>>, InvalidReason>(
                        out.deep_view(),
                    ),
                decreases items.len() - i,
            {
                match read_text(&items[i]) {
                    Ok(t) => {
                        proof {
                            lemma_deep_view_push(out@, out@.push(t), t);
                        }
                        out.push(t);
                    },
                    Err(e) => {
                        proof {
                            lemma_texts_error(iv, i + 1, items.len() as int);
                        }
                        return Err(e);
                    },
                }
                i += 1;
            }
            Ok(out)
        },
        _ => Err(InvalidReason::WrongShape),
    }
}

/// An error among the first `n` items is the error of every longer prefix.
proof fn lemma_texts_error(items: Seq<JsonView>, n: int, m: int)
    requires
        0 <= n <= m <= items.len(),
        decode_texts(items, n) is Err,
    ensures
        decode_texts(items, m) == decode_texts(items, n),
    decreases m - n,
{
    if n < m {
        lemma_texts_error(items, n, m - 1);
    }
}

/// An error among the first `n` rules is the error of every longer prefix.
proof fn lemma_rules_error(items: Seq<JsonView>, n: int, m: int)
    requires
        0 <= n <= m <= items.len(),
        decode_rules(items, n) is Err,
    ensures
        decode_rules(items, m) == decode_rules(items, n),
    decreases m - n,
{
    if n < m {
        lemma_rules_error(items, n, m - 1);
    }
}

/// An error among the first `n` libraries is the error of every longer prefix.
proof fn lemma_libraries_error(items: Seq<JsonView>, n: int, m: int)
    requires
        0 <= n <= m <= items.len(),
        decode_libraries(items, n) is Err,
    ensures
        decode_libraries(items, m) == decode_libraries(items, n),
    decreases m - n,
{
    if n < m {
        lemma_libraries_error(items, n, m - 1);
    }
}

/// An error among the first `n` entries is the error of every longer prefix.
proof fn lemma_items_error(items: Seq<JsonView>, n: int, m: int)
    requires
        0 <= n <= m <= items.len(),
        decode_items(items, n) is Err,
    ensures
        decode_items(items, m) == decode_items(items, n),
    decreases m - n,
{
    if n < m {
        lemma_items_error(items, n, m - 1);
    }
}

/// An error among the first `n` flags is the error of every longer prefix.
proof fn lemma_flags_error(entries: Seq<(Seq<char>, JsonView)>, n: int, m: int)
    requires
        0 <= n <= m <= entries.len(),
        decode_flags(entries, n) is Err,
    ensures
        decode_flags(entries, m) == decode_flags(entries, n),
    decreases m - n,
{
    if n < m {
        lemma_flags_error(entries, n, m - 1);
    }
}

/// An error among the first `n` names is the error of every longer prefix.
proof fn lemma_names_error(entries: Seq<(Seq<char>, JsonView)>, n: int, m: int)
    requires
        0 <= n <= m <= entries.len(),
        decode_names(entries, n) is Err,
    ensures
        decode_names(entries, m) == decode_names(entries, n),
    decreases m - n,
{
    if n < m {
        lemma_names_error(entries, n, m - 1);
    }
}

/// Reads the values of an argument entry.
fn read_values(field: Option<&JsonValue>) -> (r: Result<Vec<String>, InvalidReason>)
    ensures
        agrees(r, decode_values(field_view(field))),
{
    match field {
        Some(JsonValue::Text(t)) => {
            let mut out: Vec<String> = Vec::new();
            out.push(t.clone());
            assert(out.deep_view() =~= seq![t@]);
            Ok(out)
        },
        Some(v) => read_text_list(v),
        None => {
            let out: Vec<String> = Vec::new();
            assert(out.deep_view() =~= Seq::<Seq<char>>::empty());
            Ok(out)
        },
    }
}

/// Reads an artifact.
fn read_artifact(v: &JsonValue) -> (r: Result<Artifact, InvalidReason>)
    ensures
        agrees(r, decode_artifact(v@)),
{
    match v {
        JsonValue::Object(members) => {
            proof {
                lemma_object_view(*members);
            }
            let path = read_required_text(find_member(members, "path"))?;
            let sha1 = read_required_text(find_member(members, "sha1"))?;
            let url = read_required_text(find_member(members, "url"))?;
            Ok(Artifact { path, sha1, url })
        },
        _ => Err(InvalidReason::WrongShape),
    }
}

/// Reads a field that holds an artifact where it is there.
fn read_optional_artifact(field: Option<&JsonValue>) -> (r: Result<Option<Artifact>, InvalidReason>)
    ensures
        agrees(r, optional_artifact(field_view(field))),
{
    match field {
        Some(v) => match read_artifact(v) {
            Ok(a) => Ok(Some(a)),
            Err(e) => Err(e),
        },
        None => Ok(None),
    }
}

/// An error among the first `n` members is the error of every longer prefix.
proof fn lemma_extras_error(entries: Seq<(Seq<char>, JsonView)>, n: int, m: int)
    requires
        0 <= n <= m <= entries.len(),
        decode_extras(entries, n) is Err,
    ensures
        decode_extras(entries, m) == decode_extras(entries, n),
    decreases m - n,
{
    if n < m {
        lemma_extras_error(entries, n, m - 1);
    }
}

/// Reads the members of an object of classifiers that stand under no
/// platform key.
fn read_extras(members: &Vec<(String, JsonValue)>) -> (r: Result<
    Vec<(String, Artifact)>,
    InvalidReason,
>)
    ensures
        agrees(r, decode_extras(members_view(members@), members.len() as int)),
{
    let ghost mv = members_view(members@);
    let mut out: Vec<(String, Artifact)> = Vec::new();
    let mut i: usize = 0;
    assert(out.deep_view() =~= Seq::<(Seq<char>, crate::manifest::ArtifactView)>::empty());
    while i < members.len()
        invariant
            i <= members.len(),
            mv == members_view(members@),
            decode_extras(mv, i as int) == Ok::<
                Seq<(Seq<char>, crate::manifest::ArtifactView)>,
                InvalidReason,
            >(out.deep_view()),
        decreases members.len() - i,
    {
        assert(mv[i as int] == (members[i as int].0@, members[i as int].1@));
        let key = members[i].0.as_str();
        let platform = same_text(key, "natives-osx") || same_text(key, "natives-linux")
            || same_text(key, "natives-windows");
        if !platform {
            match read_artifact(&members[i].1) {
                Ok(a) => {
                    let entry = (members[i].0.clone(), a);
                    proof {
                        lemma_deep_view_push(out@, out@.push(entry), entry);
                    }
                    out.push(entry);
                },
                Err(e) => {
                    proof {
                        lemma_extras_error(mv, i + 1, members.len() as int);
                    }
                    return Err(e);
                },
            }
        }
        i += 1;
    }
    Ok(out)
}

/// Reads the classifiers of a library.
fn read_classifiers(v: &JsonValue) -> (r: Result<Classifiers, InvalidReason>)
    ensures
        agrees(r, decode_classifiers(v@)),
{
    match v {
        JsonValue::Object(members) => {
            proof {
                lemma_object_view(*members);
            }
            let natives_osx = read_optional_artifact(find_field(members, "natives-osx"))?;
            let natives_linux = read_optional_artifact(find_field(members, "natives-linux"))?;
            let natives_windows = read_optional_artifact(find_field(members, "natives-windows"))?;
            let others = read_extras(members)?;
            Ok(Classifiers { natives_osx, natives_linux, natives_windows, others })
        },
        _ => Err(InvalidReason::WrongShape),
    }
}

/// Reads the downloads of a library.
fn read_library_download(v: &JsonValue) -> (r: Result<LibraryDownload, InvalidReason>)
    ensures
        agrees(r, decode_library_download(v@)),
{
    match v {
        JsonValue::Object(members) => {
            proof {
                lemma_object_view(*members);
            }
            let artifact = read_optional_artifact(find_field(members, "artifact"))?;
            let classifiers = match find_field(members, "classifiers") {
                Some(c) => Some(read_classifiers(c)?),
                None => None,
            };
            Ok(LibraryDownload { artifact, classifiers })
        },
        _ => Err(InvalidReason::WrongShape),
    }
}

/// Reads the extraction settings of a library.
fn read_extract(v: &JsonValue) -> (r: Result<Extract, InvalidReason>)
    ensures
        agrees(r, decode_extract(v@)),
{
    match v {
        JsonValue::Object(members) => {
            proof {
                lemma_object_view(*members);
            }
            match find_member(members, "exclude") {
                Some(list) => {
                    let exclude = read_text_list(list)?;
                    Ok(Extract { exclude })
                },
                None => {
                    let exclude: Vec<String> = Vec::new();
                    assert(exclude.deep_view() =~= Seq::<Seq<char>>::empty());
                    Ok(Extract { exclude })
                },
            }
        },
        _ => Err(InvalidReason::WrongShape),
    }
}

/// Reads the operating-system part of a rule.
fn read_os(v: &JsonValue) -> (r: Result<Os, InvalidReason>)
    ensures
        agrees(r, decode_os(v@)),
{
    match v {
        JsonValue::Object(members) => {
            proof {
                lemma_object_view(*members);
            }
            let name = read_optional_text(find_field(members, "name"))?;
            let arch = read_optional_text(find_field(members, "arch"))?;
            let version = read_optional_text(find_field(members, "version"))?;
            Ok(Os { name, arch, version })
        },
        _ => Err(InvalidReason::WrongShape),
    }
}

/// Reads the features of a rule.
fn read_features(v: &JsonValue) -> (r: Result<Vec<(String, bool)>, InvalidReason>)
    ensures
        agrees(r, decode_features(v@)),
{
    match v {
        JsonValue::Object(members) => {
            proof {
                lemma_object_view(*members);
            }
            let ghost mv = members_view(members@);
            let mut out: Vec<(String, bool)> = Vec::new();
            let mut i: usize = 0;
            assert(out.deep_view() =~= Seq::<(Seq<char>, bool)>::empty());
            while i < members.len()
                invariant
                    i <= members.len(),
                    mv == members_view(members@),
                    v@ == JsonView::Object(mv),
                    decode_flags(mv, i as int) == Ok::<Seq<(Seq<char>, bool)>, InvalidReason>(
                        out.deep_view(),
                    ),
                decreases members.len() - i,
            {
                match &members[i].1 {
                    JsonValue::Bool(b) => {
                        let entry = (members[i].0.clone(), *b);
                        proof {
                            lemma_deep_view_push(out@, out@.push(entry), entry);
                        }
                        out.push(entry);
                    },
                    _ => {
                        proof {
                            lemma_flags_error(mv, i + 1, members.len() as int);
                        }
                        return Err(InvalidReason::WrongShape);
                    },
                }
                i += 1;
            }
            Ok(out)
        },
        _ => Err(InvalidReason::WrongShape),
    }
}

/// Reads the natives of a library.
fn read_natives(v: &JsonValue) -> (r: Result<Vec<(String, String)>, InvalidReason>)
    ensures
        agrees(r, decode_natives(v@)),
{
    match v {
        JsonValue::Object(members) => {
            proof {
                lemma_object_view(*members);
            }
            let ghost mv = members_view(members@);
            let mut out: Vec<(String, String)> = Vec::new();
            let mut i: usize = 0;
            assert(out.deep_view() =~= Seq::<(Seq<char>, Seq<char>)>::empty());
            while i < members.len()
                invariant
                    i <= members.len(),
                    mv == members_view(members@),
                    v@ == JsonView::Object(mv),
                    decode_names(mv, i as int) == Ok::<
                        Seq<(Seq<char>, Seq<char>)>,
                        InvalidReason,
                    >(out.deep_view()),
                decreases members.len() - i,
            {
                match &members[i].1 {
                    JsonValue::Text(t) => {
                        let entry = (members[i].0.clone(), t.clone());
                        proof {
                            lemma_deep_view_push(out@, out@.push(entry), entry);
                        }
                        out.push(entry);
                    },
                    _ => {
                        proof {
                            lemma_names_error(mv, i + 1, members.len() as int);
                        }
                        return Err(InvalidReason::WrongShape);
                    },
                }
                i += 1;
            }
            Ok(out)
        },
        _ => Err(InvalidReason::WrongShape),
    }
}

/// Reads the action of a rule.
fn read_action(field: Option<&JsonValue>) -> (r: Result<RuleAction, InvalidReason>)
    ensures
        r == decode_action(field_view(field)),
{
    match field {
        Some(JsonValue::Text(t)) => {
            if same_text(t.as_str(), "allow") {
                Ok(RuleAction::Allow)
            } else if same_text(t.as_str(), "disallow") {
                Ok(RuleAction::Disallow)
            } else {
                Err(InvalidReason::WrongShape)
            }
        },
        Some(_) => Err(InvalidReason::WrongShape),
        None => Err(InvalidReason::MissingField),
    }
}

/// Reads a rule.
fn read_rule(v: &JsonValue) -> (r: Result<Rule, InvalidReason>)
    ensures
        agrees(r, decode_rule(v@)),
{
    match v {
        JsonValue::Object(members) => {
            proof {
                lemma_object_view(*members);
            }
            let action = read_action(find_member(members, "action"))?;
            let os = match find_field(members, "os") {
                Some(x) => Some(read_os(x)?),
                None => None,
            };
            let features = match find_field(members, "features") {
                Some(x) => Some(read_features(x)?),
                None => None,
            };
            Ok(Rule { action, os, features })
        },
        _ => Err(InvalidReason::WrongShape),
    }
}

/// Reads a list of rules, which is empty where the field is absent.
fn read_rule_list(field: Option<&JsonValue>) -> (r: Result<Vec<Rule>, InvalidReason>)
    ensures
        agrees(r, decode_rule_list(field_view(field))),
{
    match field {
        Some(JsonValue::List(items)) => {
            proof {
                lemma_list_view(*items);
            }
            let ghost iv = items_view(items@);
            let mut out: Vec<Rule> = Vec::new();
            let mut i: usize = 0;
            assert(out.deep_view() =~= Seq::empty());
            while i < items.len()
                invariant
                    i <= items.len(),
                    iv == items_view(items@),
                    field_view(field) == Some(JsonView::List(iv)),
                    decode_rules(iv, i as int) == Ok::<
                        Seq<crate::manifest::RuleView>,
                        InvalidReason,
                    >(out.deep_view()),
                decreases items.len() - i,
            {
                match read_rule(&items[i]) {
                    Ok(rule) => {
                        proof {
                            lemma_deep_view_push(out@, out@.push(rule), rule);
                        }
                        out.push(rule);
                    },
                    Err(e) => {
                        proof {
                            lemma_rules_error(iv, i + 1, items.len() as int);
                        }
                        return Err(e);
                    },
                }
                i += 1;
            }
            Ok(out)
        },
        Some(_) => Err(InvalidReason::WrongShape),
        None => {
            let out: Vec<Rule> = Vec::new();
            assert(out.deep_view() =~= Seq::empty());
            Ok(out)
        },
    }
}

/// Reads a library.
fn read_library(v: &JsonValue) -> (r: Result<Library, InvalidReason>)
    ensures
        agrees(r, decode_library(v@)),
{
    match v {
        JsonValue::Object(members) => {
            proof {
                lemma_object_view(*members);
            }
            let downloads = match find_member(members, "downloads") {
                Some(x) => read_library_download(x)?,
                None => {
                    return Err(InvalidReason::MissingField);
                },
            };
            let name = read_required_text(find_member(members, "name"))?;
            let rules = read_rule_list(find_member(members, "rules"))?;
            let natives = match find_field(members, "natives") {
                Some(x) => Some(read_natives(x)?),
                None => None,
            };
            let extract = match find_field(members, "extract") {
                Some(x) => Some(read_extract(x)?),
                None => None,
            };
            Ok(Library { downloads, name, rules, natives, extract })
        },
        _ => Err(InvalidReason::WrongShape),
    }
}

/// Reads the list of libraries.
fn read_library_list(field: Option<&JsonValue>) -> (r: Result<Vec<Library>, InvalidReason>)
    ensures
        agrees(r, decode_library_list(field_view(field))),
{
    match field {
        Some(JsonValue::List(items)) => {
            proof {
                lemma_list_view(*items);
            }
            let ghost iv = items_view(items@);
            let mut out: Vec<Library> = Vec::new();
            let mut i: usize = 0;
            assert(out.deep_view() =~= Seq::empty());
            while i < items.len()
                invariant
                    i <= items.len(),
                    iv == items_view(items@),
                    field_view(field) == Some(JsonView::List(iv)),
                    decode_libraries(iv, i as int) == Ok::<
                        Seq<crate::manifest::LibraryView>,
                        InvalidReason,
                    >(out.deep_view()),
                decreases items.len() - i,
            {
                match read_library(&items[i]) {
                    Ok(library) => {
                        proof {
                            lemma_deep_view_push(out@, out@.push(library), library);
                        }
                        out.push(library);
                    },
                    Err(e) => {
                        proof {
                            lemma_libraries_error(iv, i + 1, items.len() as int);
                        }
                        return Err(e);
                    },
                }
                i += 1;
            }
            Ok(out)
        },
        Some(_) => Err(InvalidReason::WrongShape),
        None => Err(InvalidReason::MissingField),
    }
}

/// Reads the reference to the asset index.
fn read_asset_index(field: Option<&JsonValue>) -> (r: Result<AssetIndex, InvalidReason>)
    ensures
        agrees(r, decode_asset_index(field_view(field))),
{
    match field {
        Some(JsonValue::Object(members)) => {
            proof {
                lemma_object_view(*members);
            }
            let id = read_required_text(find_member(members, "id"))?;
            let sha1 = read_required_text(find_member(members, "sha1"))?;
            let url = read_required_text(find_member(members, "url"))?;
            Ok(AssetIndex { id, sha1, url })
        },
        Some(_) => Err(InvalidReason::WrongShape),
        None => Err(InvalidReason::MissingField),
    }
}

/// Reads the logging configuration file.
fn read_file(field: Option<&JsonValue>) -> (r: Result<File, InvalidReason>)
    ensures
        agrees(r, decode_file(field_view(field))),
{
    match field {
        Some(JsonValue::Object(members)) => {
            proof {
                lemma_object_view(*members);
            }
            let id = read_required_text(find_member(members, "id"))?;
            let sha1 = read_required_text(find_member(members, "sha1"))?;
            let url = read_required_text(find_member(members, "url"))?;
            Ok(File { id, sha1, url })
        },
        Some(_) => Err(InvalidReason::WrongShape),
        None => Err(InvalidReason::MissingField),
    }
}

/// Reads the client download.
fn read_client(field: Option<&JsonValue>) -> (r: Result<Client, InvalidReason>)
    ensures
        agrees(r, decode_client(field_view(field))),
{
    match field {
        Some(JsonValue::Object(members)) => {
            proof {
                lemma_object_view(*members);
            }
            let sha1 = read_required_text(find_member(members, "sha1"))?;
            let url = read_required_text(find_member(members, "url"))?;
            Ok(Client { sha1, url })
        },
        Some(_) => Err(InvalidReason::WrongShape),
        None => Err(InvalidReason::MissingField),
    }
}

/// Reads the downloads of a version.
fn read_downloads(field: Option<&JsonValue>) -> (r: Result<Downloads, InvalidReason>)
    ensures
        agrees(r, decode_downloads(field_view(field))),
{
    match field {
        Some(JsonValue::Object(members)) => {
            proof {
                lemma_object_view(*members);
            }
            let client = read_client(find_member(members, "client"))?;
            Ok(Downloads { client })
        },
        Some(_) => Err(InvalidReason::WrongShape),
        None => Err(InvalidReason::MissingField),
    }
}

/// Reads the Java runtime of a version.
fn read_java_version(field: Option<&JsonValue>) -> (r: Result<JavaVersion, InvalidReason>)
    ensures
        agrees(r, decode_java_version(field_view(field))),
{
    match field {
        Some(JsonValue::Object(members)) => {
            proof {
                lemma_object_view(*members);
            }
            match find_member(members, "majorVersion") {
                Some(JsonValue::Unsigned(n)) => {
                    if *n <= 255 {
                        Ok(JavaVersion { major_version: *n as u8 })
                    } else {
                        Err(InvalidReason::WrongShape)
                    }
                },
                Some(_) => Err(InvalidReason::WrongShape),
                None => Err(InvalidReason::MissingField),
            }
        },
        Some(_) => Err(InvalidReason::WrongShape),
        None => Err(InvalidReason::MissingField),
    }
}

/// Reads the client logging configuration.
fn read_client2(field: Option<&JsonValue>) -> (r: Result<Client2, InvalidReason>)
    ensures
        agrees(r, decode_client2(field_view(field))),
{
    match field {
        Some(JsonValue::Object(members)) => {
            proof {
                lemma_object_view(*members);
            }
            let argument = read_required_text(find_member(members, "argument"))?;
            let file = read_file(find_member(members, "file"))?;
            let type_field = read_required_text(find_member(members, "type"))?;
            Ok(Client2 { argument, file, type_field })
        },
        Some(_) => Err(InvalidReason::WrongShape),
        None => Err(InvalidReason::MissingField),
    }
}

/// Reads the logging section.
fn read_logging(field: Option<&JsonValue>) -> (r: Result<Option<Logging>, InvalidReason>)
    ensures
        agrees(r, decode_logging(field_view(field))),
{
    match field {
        Some(JsonValue::Object(members)) => {
            proof {
                lemma_object_view(*members);
            }
            let client = read_client2(find_member(members, "client"))?;
            Ok(Some(Logging { client }))
        },
        Some(_) => Err(InvalidReason::WrongShape),
        None => Ok(None),
    }
}

/// Reads the release type.
pub(crate) fn read_release_type(field: Option<&JsonValue>) -> (r: Result<
    ReleaseType,
    InvalidReason,
>)
    ensures
        r == decode_release_type(field_view(field)),
{
    match field {
        Some(JsonValue::Text(t)) => {
            if same_text(t.as_str(), "release") {
                Ok(ReleaseType::Release)
            } else if same_text(t.as_str(), "snapshot") {
                Ok(ReleaseType::Snapshot)
            } else if same_text(t.as_str(), "old-beta") {
                Ok(ReleaseType::OldBeta)
            } else if same_text(t.as_str(), "old-alpha") {
                Ok(ReleaseType::OldAlpha)
            } else {
                Err(InvalidReason::WrongShape)
            }
        },
        Some(_) => Err(InvalidReason::WrongShape),
        None => Ok(ReleaseType::Release),
    }
}

/// Reads an argument entry.
fn read_item(v: &JsonValue) -> (r: Result<ModernArgumentsItem, InvalidReason>)
    ensures
        agrees(r, decode_item(v@)),
{
    match v {
        JsonValue::Text(t) => Ok(ModernArgumentsItem::Simple(t.clone())),
        JsonValue::Object(members) => {
            proof {
                lemma_object_view(*members);
            }
            let rules = read_rule_list(find_member(members, "rules"))?;
            let value = read_values(find_member(members, "value"))?;
            Ok(ModernArgumentsItem::Rule(ArgumentRule { rules, value }))
        },
        _ => Err(InvalidReason::WrongShape),
    }
}

/// Reads a list of argument entries.
fn read_item_list(field: Option<&JsonValue>) -> (r: Result<Vec<ModernArgumentsItem>, InvalidReason>)
    ensures
        agrees(r, decode_item_list(field_view(field))),
{
    match field {
        Some(JsonValue::List(items)) => {
            proof {
                lemma_list_view(*items);
            }
            let ghost iv = items_view(items@);
            let mut out: Vec<ModernArgumentsItem> = Vec::new();
            let mut i: usize = 0;
            assert(out.deep_view() =~= Seq::empty());
            while i < items.len()
                invariant
                    i <= items.len(),
                    iv == items_view(items@),
                    field_view(field) == Some(JsonView::List(iv)),
                    decode_items(iv, i as int) == Ok::<
                        Seq<crate::manifest::ModernArgumentsItemView>,
                        InvalidReason,
                    >(out.deep_view()),
                decreases items.len() - i,
            {
                match read_item(&items[i]) {
                    Ok(item) => {
                        proof {
                            lemma_deep_view_push(out@, out@.push(item), item);
                        }
                        out.push(item);
                    },
                    Err(e) => {
                        proof {
                            lemma_items_error(iv, i + 1, items.len() as int);
                        }
                        return Err(e);
                    },
                }
                i += 1;
            }
            Ok(out)
        },
        Some(_) => Err(InvalidReason::WrongShape),
        None => Err(InvalidReason::MissingField),
    }
}

/// Reads the modern arguments.
fn read_modern(v: &JsonValue) -> (r: Result<ModernArguments, InvalidReason>)
    ensures
        agrees(r, decode_modern(v@)),
{
    match v {
        JsonValue::Object(members) => {
            proof {
                lemma_object_view(*members);
            }
            let game = read_item_list(find_member(members, "game"))?;
            let jvm = read_item_list(find_member(members, "jvm"))?;
            Ok(ModernArguments { game, jvm })
        },
        _ => Err(InvalidReason::WrongShape),
    }
}

/// Reads the two argument forms of a document.
fn read_arguments(members: &Vec<(String, JsonValue)>) -> (r: Result<
    (Option<String>, Option<ModernArguments>),
    InvalidReason,
>)
    ensures
        agrees(r, decode_arguments(members_view(members@))),
{
    match find_field(members, "arguments") {
        Some(v) => {
            let modern = read_modern(v)?;
            Ok((None, Some(modern)))
        },
        None => {
            let line = read_required_text(find_field(members, "minecraftArguments"))?;
            Ok((Some(line), None))
        },
    }
}

/// Reads the manifest that a document holds.
pub fn read_manifest(doc: &JsonValue) -> (r: Result<MinecraftManifest, InvalidReason>)
    ensures
        agrees(r, decode_manifest(doc@)),
{
    match doc {
        JsonValue::Object(members) => {
            proof {
                lemma_object_view(*members);
            }
            let asset_index = read_asset_index(find_member(members, "assetIndex"))?;
            let downloads = read_downloads(find_member(members, "downloads"))?;
            let java_version = read_java_version(find_member(members, "javaVersion"))?;
            let libraries = read_library_list(find_member(members, "libraries"))?;
            let logging = read_logging(find_field(members, "logging"))?;
            let main_class = read_required_text(find_member(members, "mainClass"))?;
            let release_time = read_required_text(find_member(members, "releaseTime"))?;
            let version = read_required_text(find_member(members, "id"))?;
            let release_type = read_release_type(find_member(members, "type"))?;
            let arguments = read_arguments(members)?;
            Ok(
                MinecraftManifest {
                    asset_index,
                    downloads,
                    java_version,
                    libraries,
                    logging,
                    main_class,
                    release_time,
                    version,
                    release_type,
                    minecraft_arguments: arguments.0,
                    arguments: arguments.1,
                },
            )
        },
        _ => Err(InvalidReason::WrongShape),
    }
}

} // verus!
