use crate::json::{
    JsonValue, JsonView, items_view, lemma_list_view, lemma_object_view, members_view,
};
use crate::launch::{InvalidReason, LaunchError, LaunchErrorView, reason_text};
use crate::manifest::{MinecraftManifest, MinecraftManifestView, ReleaseType};
use crate::text::{
    append_chars, chars_of, lemma_deep_view_push, occurs_at, remove_all, same_text, string_of,
    without,
};
use crate::wire_laws::{lemma_manifest_round_trip, lemma_member_push};
use crate::wire_model::{
    Decoded, decode_manifest, decode_release_type, encode_manifest, has_one_argument_form, member,
    optional_text, required_text, tidy_manifest,
};
use crate::wire_read::{
    agrees, find_member, read_manifest, read_optional_text, read_release_type, read_required_text,
};
use crate::wire_write::{add_member, no_members, object_of, write_manifest};
use std::collections::HashMap;
use vstd::prelude::*;
use vstd::std_specs::hash::*;
use vstd::std_specs::iter::IteratorSpec;
use vstd::string::*;

verus! {

/// `uuid::Uuid`, an identifier of 128 bits; nothing of its inside is used.
#[verifier::external_type_specification]
#[verifier::external_body]
pub struct ExUuid(uuid::Uuid);

/// `uuid::Error`, what `uuid::Uuid::parse_str` reports; it is only told
/// apart from success.
#[verifier::external_type_specification]
#[verifier::external_body]
pub struct ExUuidError(uuid::Error);

/// The 128 bits of a `uuid::Uuid`.
pub uninterp spec fn uuid_bits(id: uuid::Uuid) -> u128;

/// The identifier that the `uuid` crate reads from a text, if it reads one.
pub uninterp spec fn uuid_parsed(text: Seq<char>) -> Option<u128>;

/// The text that the `uuid` crate writes for an identifier.
pub uninterp spec fn uuid_written(bits: u128) -> Seq<char>;

/// Reads an identifier with `uuid::Uuid::parse_str`: the identifier that
/// the text spells, or an error where it spells none.
#[verifier::external_body]
fn uuid_from_text(text: &str) -> (r: Result<uuid::Uuid, uuid::Error>)
    ensures
        match r {
            Ok(id) => uuid_parsed(text@) == Some(uuid_bits(id)),
            Err(_) => uuid_parsed(text@) is None,
        },
{
    uuid::Uuid::parse_str(text)
}

/// The bits of an identifier, with `uuid::Uuid::as_u128`.
#[verifier::external_body]
fn bits_of_uuid(id: &uuid::Uuid) -> (r: u128)
    ensures
        r == uuid_bits(*id),
{
    id.as_u128()
}

/// The identifier with these bits, with `uuid::Uuid::from_u128`.
#[verifier::external_body]
fn uuid_of_bits(bits: u128) -> (r: uuid::Uuid)
    ensures
        uuid_bits(r) == bits,
{
    uuid::Uuid::from_u128(bits)
}

/// Whether a character can stand in the text of an identifier: a
/// lower-case hexadecimal digit or a hyphen.
pub open spec fn is_id_char(c: char) -> bool {
    ('0' <= c && c <= '9') || ('a' <= c && c <= 'f') || c == '-'
}

/// The text of an identifier, as the `Display` of `uuid::Uuid` writes it:
/// the hyphenated form, 36 lower-case hexadecimal digits and hyphens,
/// which `uuid::Uuid::parse_str` reads back as the same identifier.
#[verifier::external_body]
fn text_of_uuid(id: &uuid::Uuid) -> (r: String)
    ensures
        r@ == uuid_written(uuid_bits(*id)),
        r@.len() == 36,
        forall|i: int| 0 <= i < r@.len() ==> is_id_char(#[trigger] r@[i]),
        uuid_parsed(r@) == Some(uuid_bits(*id)),
{
    id.to_string()
}

/// Reads an identifier from its text.
pub fn parse_id(text: &str) -> (r: Option<u128>)
    ensures
        r == uuid_parsed(text@),
{
    match uuid_from_text(text) {
        Ok(id) => Some(bits_of_uuid(&id)),
        Err(_) => None,
    }
}

/// Writes an identifier as text: 36 lower-case hexadecimal digits and
/// hyphens, which [`parse_id`] reads back as the same identifier.
pub fn id_text(id: u128) -> (r: String)
    ensures
        r@ == uuid_written(id),
        r@.len() == 36,
        forall|i: int| 0 <= i < r@.len() ==> is_id_char(#[trigger] r@[i]),
        uuid_parsed(r@) == Some(id),
{
    text_of_uuid(&uuid_of_bits(id))
}

/// The name of the file that keeps what belongs to an identifier: the text
/// of the identifier and `.json`. [`cache_entry_id`] reads the identifier
/// back from it.
pub fn cache_file_name(id: u128) -> (r: String)
    ensures
        r@ == uuid_written(id) + ".json"@,
        uuid_parsed(without(r@, ".json"@)) == Some(id),
{
    let text = id_text(id);
    let mut name = chars_of(text.as_str());
    append_chars(&mut name, &chars_of(".json"));
    proof {
        reveal_strlit(".json");
        assert(".json"@.len() == 5 && ".json"@[0] == '.');
        lemma_without_suffix(text@, ".json"@);
    }
    string_of(&name)
}

/// The identifier that a file of the cache belongs to: what its name
/// spells once `.json` is taken out of it. `None` for a file that does not
/// belong to the cache.
pub fn cache_entry_id(file_name: &str) -> (r: Option<u128>)
    ensures
        r == uuid_parsed(without(file_name@, ".json"@)),
{
    let stem = remove_all(&chars_of(file_name), &chars_of(".json"));
    parse_id(string_of(&stem).as_str())
}

/// An entry of the version index.
#[derive(Debug, Clone, PartialEq, Eq)]
pub struct Version {
    pub id: String,
    pub url: String,
    pub release_type: ReleaseType,
    /// The time of the release, as the index writes it.
    pub release_time: String,
}

/// The settings of a client without a mod loader.
#[derive(Debug, Clone, PartialEq, Eq)]
pub struct VanillaClientProps {
    pub version: String,
}

/// The kind of client that an instance runs.
#[derive(Debug, Clone, PartialEq, Eq)]
pub enum ClientType {
    Vanilla(VanillaClientProps),
}

/// The manifest that an instance was made with.
#[derive(Debug, Clone, PartialEq, Eq)]
pub struct Manifest {
    pub id: u128,
    pub manifest: MinecraftManifest,
}

/// What a cache file of a manifest holds: the identifier under `id`, as
/// text, and the manifest under `manifest`.
pub open spec fn decode_record(doc: JsonView) -> Decoded<(u128, MinecraftManifestView)> {
    match doc {
        JsonView::Object(entries) => {
            let id = required_text(member(entries, "id"@));
            let manifest: Decoded<MinecraftManifestView> = match member(entries, "manifest"@) {
                Some(m) => decode_manifest(m),
                None => Err(InvalidReason::MissingField),
            };
            if id is Err {
                Err(id->Err_0)
            } else if uuid_parsed(id->Ok_0) is None {
                Err(InvalidReason::WrongShape)
            } else if manifest is Err {
                Err(manifest->Err_0)
            } else {
                Ok((uuid_parsed(id->Ok_0)->Some_0, manifest->Ok_0))
            }
        },
        _ => Err(InvalidReason::WrongShape),
    }
}

/// The document of a cache file of a manifest.
pub open spec fn encode_record(id: u128, manifest: MinecraftManifestView) -> JsonView {
    JsonView::Object(
        Seq::empty().push(("id"@, JsonView::Text(uuid_written(id)))).push(
            ("manifest"@, encode_manifest(manifest)),
        ),
    )
}

impl Manifest {
    /// Reads what a cache file of a manifest holds.
    pub fn from_document(doc: &JsonValue) -> (r: Result<Manifest, LaunchError>)
        ensures
            match r {
                Ok(record) => decode_record(doc@) == Ok::<
                    (u128, MinecraftManifestView),
                    InvalidReason,
                >((record.id, record.manifest@)),
                Err(error) => decode_record(doc@) matches Err(reason) && error@
                    == LaunchErrorView::InvalidManifest(reason),
            },
    {
        match doc {
            JsonValue::Object(members) => {
                proof {
                    lemma_object_view(*members);
                }
                let text = match read_required_text(find_member(members, "id")) {
                    Ok(text) => text,
                    Err(reason) => {
                        return Err(LaunchError::InvalidManifest(reason));
                    },
                };
                let id = match parse_id(text.as_str()) {
                    Some(id) => id,
                    None => {
                        return Err(LaunchError::InvalidManifest(InvalidReason::WrongShape));
                    },
                };
                let manifest = match find_member(members, "manifest") {
                    Some(m) => match read_manifest(m) {
                        Ok(manifest) => manifest,
                        Err(reason) => {
                            return Err(LaunchError::InvalidManifest(reason));
                        },
                    },
                    None => {
                        return Err(LaunchError::InvalidManifest(InvalidReason::MissingField));
                    },
                };
                Ok(Manifest { id, manifest })
            },
            _ => Err(LaunchError::InvalidManifest(InvalidReason::WrongShape)),
        }
    }

    /// Writes the document of a cache file of a manifest. Where the
    /// manifest has exactly one argument form and tidy classifiers, as
    /// every manifest that was read has, [`Manifest::from_document`] reads
    /// the same record back from it.
    pub fn to_document(&self) -> (r: JsonValue)
        ensures
            r@ == encode_record(self.id, self.manifest@),
            has_one_argument_form(self.manifest@) && tidy_manifest(self.manifest@)
                ==> decode_record(r@) == Ok::<
                (u128, MinecraftManifestView),
                InvalidReason,
            >((self.id, self.manifest@)),
    {
        broadcast use lemma_member_push;

        let mut members = no_members();
        add_member(&mut members, "id", JsonValue::Text(id_text(self.id)));
        add_member(&mut members, "manifest", write_manifest(&self.manifest));
        proof {
            reveal_strlit("id");
            reveal_strlit("manifest");
            assert("id"@.len() == 2 && "manifest"@.len() == 8);
            if has_one_argument_form(self.manifest@) && tidy_manifest(self.manifest@) {
                lemma_manifest_round_trip(self.manifest@);
            }
        }
        object_of(members)
    }
}

/// One installation of the game.
#[derive(Debug, Clone, PartialEq, Eq)]
pub struct Instance {
    pub id: u128,
    /// When the instance was made, in milliseconds since the Unix epoch.
    pub created_at: i64,
    pub name: String,
    pub cover: Option<String>,
    pub group: Option<u128>,
    pub client: ClientType,
}

/// The mathematical value of a [`Version`].
pub struct VersionView {
    pub id: Seq<char>,
    pub url: Seq<char>,
    pub release_type: ReleaseType,
    pub release_time: Seq<char>,
}

impl View for Version {
    type V = VersionView;

    open spec fn view(&self) -> VersionView {
        VersionView {
            id: self.id@,
            url: self.url@,
            release_type: self.release_type,
            release_time: self.release_time@,
        }
    }
}

impl DeepView for Version {
    type V = VersionView;

    open spec fn deep_view(&self) -> VersionView {
        self@
    }
}

/// An entry of the version index: `id` and `url`, required; `type`, which
/// is `release` where it is absent; `releaseTime`, which is empty where it
/// is absent.
pub open spec fn decode_version(v: JsonView) -> Decoded<VersionView> {
    match v {
        JsonView::Object(entries) => {
            let id = required_text(member(entries, "id"@));
            let url = required_text(member(entries, "url"@));
            let release_type = decode_release_type(member(entries, "type"@));
            let release_time = optional_text(member(entries, "releaseTime"@));
            if id is Err {
                Err(id->Err_0)
            } else if url is Err {
                Err(url->Err_0)
            } else if release_type is Err {
                Err(release_type->Err_0)
            } else if release_time is Err {
                Err(release_time->Err_0)
            } else {
                Ok(
                    VersionView {
                        id: id->Ok_0,
                        url: url->Ok_0,
                        release_type: release_type->Ok_0,
                        release_time: match release_time->Ok_0 {
                            Some(time) => time,
                            None => Seq::empty(),
                        },
                    },
                )
            }
        },
        _ => Err(InvalidReason::WrongShape),
    }
}

/// The first `n` items of a list as entries of the version index.
pub open spec fn decode_versions(items: Seq<JsonView>, n: int) -> Decoded<Seq<VersionView>>
    decreases n,
{
    if n <= 0 || n > items.len() {
        Ok(Seq::empty())
    } else {
        match decode_versions(items, n - 1) {
            Ok(front) => match decode_version(items[n - 1]) {
                Ok(version) => Ok(front.push(version)),
                Err(e) => Err(e),
            },
            Err(e) => Err(e),
        }
    }
}

/// The version index that a document holds: a list of entries.
pub open spec fn decode_index(doc: JsonView) -> Decoded<Seq<VersionView>> {
    match doc {
        JsonView::List(items) => decode_versions(items, items.len() as int),
        _ => Err(InvalidReason::WrongShape),
    }
}

/// An error among the first `n` entries is the error of every longer prefix.
proof fn lemma_versions_error(items: Seq<JsonView>, n: int, m: int)
    requires
        0 <= n <= m <= items.len(),
        decode_versions(items, n) is Err,
    ensures
        decode_versions(items, m) == decode_versions(items, n),
    decreases m - n,
{
    if n < m {
        lemma_versions_error(items, n, m - 1);
    }
}

/// Reads an entry of the version index.
fn read_version(v: &JsonValue) -> (r: Result<Version, InvalidReason>)
    ensures
        agrees(r, decode_version(v@)),
{
    match v {
        JsonValue::Object(members) => {
            proof {
                lemma_object_view(*members);
            }
            let id = read_required_text(find_member(members, "id"))?;
            let url = read_required_text(find_member(members, "url"))?;
            let release_type = read_release_type(find_member(members, "type"))?;
            let release_time = match read_optional_text(find_member(members, "releaseTime"))? {
                Some(time) => time,
                None => String::new(),
            };
            Ok(Version { id, url, release_type, release_time })
        },
        _ => Err(InvalidReason::WrongShape),
    }
}

/// Reads the version index that a document holds.
pub fn read_index(doc: &JsonValue) -> (r: Result<Vec<Version>, LaunchError>)
    ensures
        match r {
            Ok(versions) => decode_index(doc@) == Ok::<Seq<VersionView>, InvalidReason>(
                versions.deep_view(),
            ),
            Err(error) => decode_index(doc@) matches Err(reason) && error@
                == LaunchErrorView::InvalidManifest(reason),
        },
{
    match doc {
        JsonValue::List(items) => {
            proof {
                lemma_list_view(*items);
            }
            let ghost iv = items_view(items@);
            let mut out: Vec<Version> = Vec::new();
            let mut i: usize = 0;
            assert(out.deep_view() =~= Seq::empty());
            while i < items.len()
                invariant
                    i <= items.len(),
                    iv == items_view(items@),
                    doc@ == JsonView::List(iv),
                    decode_versions(iv, i as int) == Ok::<Seq<VersionView>, InvalidReason>(
                        out.deep_view(),
                    ),
                decreases items.len() - i,
            {
                match read_version(&items[i]) {
                    Ok(version) => {
                        proof {
                            lemma_deep_view_push(out@, out@.push(version), version);
                        }
                        out.push(version);
                    },
                    Err(reason) => {
                        proof {
                            lemma_versions_error(iv, i + 1, items.len() as int);
                        }
                        return Err(LaunchError::InvalidManifest(reason));
                    },
                }
                i += 1;
            }
            Ok(out)
        },
        _ => Err(LaunchError::InvalidManifest(InvalidReason::WrongShape)),
    }
}

impl Instance {
    /// A copy of the instance.
    pub fn duplicate(&self) -> (r: Instance)
        ensures
            r == *self,
    {
        Instance {
            id: self.id,
            created_at: self.created_at,
            name: self.name.clone(),
            cover: match &self.cover {
                Some(cover) => Some(cover.clone()),
                None => None,
            },
            group: self.group,
            client: match &self.client {
                ClientType::Vanilla(props) => ClientType::Vanilla(
                    VanillaClientProps { version: props.version.clone() },
                ),
            },
        }
    }
}

/// The position of the first version with this identifier at or behind `from`.
pub open spec fn version_position(versions: Seq<Version>, id: Seq<char>, from: int) -> Option<int>
    decreases versions.len() - from,
{
    if from < 0 || from >= versions.len() {
        None
    } else if versions[from].id@ == id {
        Some(from)
    } else {
        version_position(versions, id, from + 1)
    }
}

/// Finds the first version of the index with this identifier.
pub fn find_version<'a>(versions: &'a Vec<Version>, id: &str) -> (r: Option<&'a Version>)
    ensures
        match r {
            Some(version) => version_position(versions@, id@, 0) matches Some(at)
                && 0 <= at < versions.len() && *version == versions[at],
            None => version_position(versions@, id@, 0) is None,
        },
{
    let mut i: usize = 0;
    while i < versions.len()
        invariant
            i <= versions.len(),
            version_position(versions@, id@, 0) == version_position(versions@, id@, i as int),
        decreases versions.len() - i,
    {
        if same_text(versions[i].id.as_str(), id) {
            return Some(&versions[i]);
        }
        i += 1;
    }
    None
}

/// Why an instance was not made.
#[derive(Debug, Clone, Copy, PartialEq, Eq, Structural)]
pub enum CreateError {
    /// The index holds no version with this identifier.
    VersionNotFound,
    /// The document of the version holds no manifest.
    InvalidManifest(InvalidReason),
}

impl CreateError {
    /// The error in words.
    pub fn describe(&self) -> (r: String)
        ensures
            r@ == match *self {
                CreateError::VersionNotFound => "Version not found"@,
                CreateError::InvalidManifest(reason) => "invalid manifest: "@ + reason_text(reason),
            },
    {
        match self {
            CreateError::VersionNotFound => "Version not found".to_owned(),
            CreateError::InvalidManifest(reason) => "invalid manifest: ".to_owned().concat(
                reason.describe(),
            ),
        }
    }
}

/// The instances and their manifests, by identifier.
pub struct ClientManager {
    pub instances: HashMap<u128, Instance>,
    pub manifests: HashMap<u128, Manifest>,
}

impl ClientManager {
    /// A manager of what was loaded from the cache.
    pub fn new(instances: HashMap<u128, Instance>, manifests: HashMap<u128, Manifest>) -> (r:
        ClientManager)
        ensures
            r.instances == instances,
            r.manifests == manifests,
    {
        ClientManager { instances, manifests }
    }

    /// The instances, in no particular order: as many as the manager
    /// holds, and each of them.
    pub fn get_instances(&self) -> (r: Vec<&Instance>)
        ensures
            r.len() == self.instances@.dom().len(),
            r@.unref().to_set() == self.instances@.values(),
    {
        broadcast use group_hash_axioms;

        let mut out: Vec<&Instance> = Vec::new();
        for instance in it: self.instances.values()
            invariant
                it.seq() == spec_values_iter(&self.instances).remaining(),
                out.len() == it.index(),
                forall|i: int| 0 <= i < out.len() ==> out[i] == it.seq()[i],
        {
            out.push(instance);
        }
        assert(out@ =~= spec_values_iter(&self.instances).remaining());
        out
    }

    /// Copies of the instances, in no particular order.
    pub fn get_instances_owned(&self) -> (r: Vec<Instance>)
        ensures
            r.len() == self.instances@.dom().len(),
            r@.to_set() == self.instances@.values(),
    {
        broadcast use group_hash_axioms;

        let mut out: Vec<Instance> = Vec::new();
        for instance in it: self.instances.values()
            invariant
                it.seq() == spec_values_iter(&self.instances).remaining(),
                out.len() == it.index(),
                forall|i: int| 0 <= i < out.len() ==> out[i] == *it.seq()[i],
        {
            out.push(instance.duplicate());
        }
        assert(out@ =~= spec_values_iter(&self.instances).remaining().unref());
        out
    }

    /// The instance with this identifier.
    pub fn get_instance(&self, uuid: u128) -> (r: Option<&Instance>)
        ensures
            match r {
                Some(instance) => self.instances@.contains_key(uuid) && *instance
                    == self.instances@[uuid],
                None => !self.instances@.contains_key(uuid),
            },
    {
        broadcast use group_hash_axioms;

        self.instances.get(&uuid)
    }

    /// The manifest of the instance with this identifier.
    pub fn get_manifest(&self, uuid: u128) -> (r: Option<&Manifest>)
        ensures
            match r {
                Some(manifest) => self.manifests@.contains_key(uuid) && *manifest
                    == self.manifests@[uuid],
                None => !self.manifests@.contains_key(uuid),
            },
    {
        broadcast use group_hash_axioms;

        self.manifests.get(&uuid)
    }

    /// Makes an instance of a version of the index and registers it with
    /// its manifest under `uuid`, in place of what may be registered under
    /// it. `document` is what was fetched from the address of the first
    /// entry of the index with this version. A version that the index does
    /// not hold, or a document that holds no manifest, is refused, and the
    /// manager is then as it was.
    pub fn create_instance(
        &mut self,
        versions: &Vec<Version>,
        version: &str,
        document: &JsonValue,
        uuid: u128,
        created_at: i64,
        name: String,
        cover: Option<String>,
        group: Option<u128>,
        client: ClientType,
    ) -> (r: Result<u128, CreateError>)
        ensures
            match r {
                Ok(id) => {
                    &&& id == uuid
                    &&& version_position(versions@, version@, 0) is Some
                    &&& final(self).manifests@.dom() == old(self).manifests@.dom().insert(uuid)
                    &&& final(self).manifests@[uuid].id == uuid
                    &&& decode_manifest(document@) == Ok::<MinecraftManifestView, InvalidReason>(
                        final(self).manifests@[uuid].manifest@,
                    )
                    &&& forall|k: u128|
                        #![trigger final(self).manifests@[k]]
                        k != uuid && old(self).manifests@.contains_key(k)
                            ==> final(self).manifests@[k] == old(self).manifests@[k]
                    &&& final(self).instances@ == old(self).instances@.insert(
                        uuid,
                        Instance { id: uuid, created_at, name, cover, group, client },
                    )
                },
                Err(e) => {
                    &&& *final(self) == *old(self)
                    &&& e == if version_position(versions@, version@, 0) is None {
                        CreateError::VersionNotFound
                    } else {
                        CreateError::InvalidManifest(decode_manifest(document@)->Err_0)
                    }
                    &&& version_position(versions@, version@, 0) is Some ==> decode_manifest(
                        document@,
                    ) is Err
                },
            },
    {
        broadcast use group_hash_axioms;

        if find_version(versions, version).is_none() {
            return Err(CreateError::VersionNotFound);
        }
        let manifest = match read_manifest(document) {
            Ok(manifest) => manifest,
            Err(reason) => {
                return Err(CreateError::InvalidManifest(reason));
            },
        };
        self.manifests.insert(uuid, Manifest { id: uuid, manifest });
        self.instances.insert(uuid, Instance { id: uuid, created_at, name, cover, group, client });
        Ok(uuid)
    }
}

/// The records of the first `n` files of a cache directory, by the
/// identifier that the name of each file spells. A file whose name spells
/// no identifier is passed over; of two files of one identifier the later
/// counts; the first file of an identifier that holds no record is an error.
pub open spec fn loaded(files: Seq<(Seq<char>, JsonView)>, n: int) -> Decoded<
    Map<u128, (u128, MinecraftManifestView)>,
>
    decreases n,
{
    if n <= 0 || n > files.len() {
        Ok(Map::empty())
    } else {
        match loaded(files, n - 1) {
            Ok(front) => match uuid_parsed(without(files[n - 1].0, ".json"@)) {
                Some(id) => match decode_record(files[n - 1].1) {
                    Ok(record) => Ok(front.insert(id, record)),
                    Err(e) => Err(e),
                },
                None => Ok(front),
            },
            Err(e) => Err(e),
        }
    }
}

/// Whether a map holds exactly these records.
pub open spec fn holds_records(
    map: Map<u128, Manifest>,
    records: Map<u128, (u128, MinecraftManifestView)>,
) -> bool {
    &&& map.dom() == records.dom()
    &&& forall|k: u128| #[trigger]
        records.contains_key(k) ==> (map[k].id, map[k].manifest@) == records[k]
}

/// An error among the first `n` files is the error of every longer prefix.
proof fn lemma_loaded_error(files: Seq<(Seq<char>, JsonView)>, n: int, m: int)
    requires
        0 <= n <= m <= files.len(),
        loaded(files, n) is Err,
    ensures
        loaded(files, m) == loaded(files, n),
    decreases m - n,
{
    if n < m {
        lemma_loaded_error(files, n, m - 1);
    }
}

/// Builds the map of manifests from the files of a cache directory, each
/// given by its name and the document it holds.
pub fn load_manifests(files: &Vec<(String, JsonValue)>) -> (r: Result<
    HashMap<u128, Manifest>,
    LaunchError,
>)
    ensures
        match r {
            Ok(map) => loaded(members_view(files@), files.len() as int) matches Ok(records)
                && holds_records(map@, records),
            Err(error) => loaded(members_view(files@), files.len() as int) matches Err(reason)
                && error@ == LaunchErrorView::InvalidManifest(reason),
        },
{
    broadcast use group_hash_axioms;

    let ghost fv = members_view(files@);
    let mut map: HashMap<u128, Manifest> = HashMap::new();
    let mut i: usize = 0;
    assert(map@.dom() =~= Map::<u128, (u128, MinecraftManifestView)>::empty().dom());
    while i < files.len()
        invariant
            i <= files.len(),
            fv == members_view(files@),
            loaded(fv, i as int) is Ok,
            holds_records(map@, loaded(fv, i as int)->Ok_0),
        decreases files.len() - i,
    {
        assert(fv[i as int] == (files[i as int].0@, files[i as int].1@));
        match cache_entry_id(files[i].0.as_str()) {
            Some(id) => match Manifest::from_document(&files[i].1) {
                Ok(record) => {
                    let ghost before = map@;
                    let ghost front = loaded(fv, i as int)->Ok_0;
                    map.insert(id, record);
                    assert(map@.dom() =~= front.insert(id, (record.id, record.manifest@)).dom());
                },
                Err(error) => {
                    proof {
                        lemma_loaded_error(fv, i + 1, files.len() as int);
                    }
                    return Err(error);
                },
            },
            None => {},
        }
        i += 1;
    }
    Ok(map)
}

/// A text in which the first character of a pattern does not occur, with
/// the pattern behind it, is the text again once the pattern is taken out.
pub proof fn lemma_without_suffix(w: Seq<char>, pat: Seq<char>)
    requires
        pat.len() > 0,
        forall|i: int| 0 <= i < w.len() ==> #[trigger] w[i] != pat[0],
    ensures
        without(w + pat, pat) == w,
    decreases w.len(),
{
    let s = w + pat;
    if w.len() == 0 {
        assert(s =~= pat);
        assert(s.subrange(0, pat.len() as int) =~= pat);
        assert(s.skip(pat.len() as int) =~= Seq::<char>::empty());
        assert(without(s.skip(pat.len() as int), pat) =~= w);
    } else {
        let rest = w.skip(1);
        assert(s[0] == w[0]);
        if occurs_at(s, 0, pat) {
            assert(s.subrange(0, pat.len() as int)[0] == pat[0]);
        }
        assert(s.skip(1) =~= rest + pat);
        assert forall|i: int| 0 <= i < rest.len() implies #[trigger] rest[i] != pat[0] by {
            assert(rest[i] == w[i + 1]);
        }
        lemma_without_suffix(rest, pat);
        assert(seq![s[0]] + rest =~= w);
    }
}

} // verus!
