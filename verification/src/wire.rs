use crate::json::{JsonValue, json_parsed, json_text, parse_document, value_built, write_document};
use crate::launch::{InvalidReason, LaunchError, LaunchErrorView};
use crate::manifest::{MinecraftManifest, MinecraftManifestView};
use crate::wire_laws::{lemma_decoded_has_one_form, lemma_decoded_is_tidy, lemma_plain_manifest};
use crate::wire_model::{decode_manifest, encode_manifest, has_one_argument_form, tidy_manifest};
use crate::wire_read::read_manifest;
use crate::wire_write::write_manifest;
use vstd::prelude::*;

verus! {

/// What reading a document yields: the manifest that it holds, or that it
/// is invalid and why.
pub open spec fn manifest_of(doc: Option<crate::json::JsonView>) -> Result<
    MinecraftManifestView,
    LaunchErrorView,
> {
    match doc {
        Some(doc) => match decode_manifest(doc) {
            Ok(m) => Ok(m),
            Err(reason) => Err(LaunchErrorView::InvalidManifest(reason)),
        },
        None => Err(LaunchErrorView::InvalidManifest(InvalidReason::NotJson)),
    }
}

/// The view of what a reading call returned.
pub open spec fn reading(r: Result<MinecraftManifest, LaunchError>) -> Result<
    MinecraftManifestView,
    LaunchErrorView,
> {
    match r {
        Ok(m) => Ok(m@),
        Err(error) => Err(error@),
    }
}

/// Reads the manifest that a document holds. Both schema generations are
/// accepted, and members that the format does not name are ignored. A
/// manifest that was read has exactly one of its two argument forms.
pub fn from_document(doc: &JsonValue) -> (r: Result<MinecraftManifest, LaunchError>)
    ensures
        reading(r) == manifest_of(Some(doc@)),
        r matches Ok(m) ==> has_one_argument_form(m@) && tidy_manifest(m@),
{
    proof {
        lemma_decoded_has_one_form(doc@);
        lemma_decoded_is_tidy(doc@);
    }
    match read_manifest(doc) {
        Ok(m) => Ok(m),
        Err(reason) => Err(LaunchError::InvalidManifest(reason)),
    }
}

/// Writes a manifest as a document.
pub fn to_document(manifest: &MinecraftManifest) -> (r: JsonValue)
    ensures
        r@ == encode_manifest(manifest@),
{
    write_manifest(manifest)
}

/// Reads a manifest from its JSON text.
pub fn parse(text: &str) -> (r: Result<MinecraftManifest, LaunchError>)
    ensures
        reading(r) == manifest_of(json_parsed(text@)),
        r matches Ok(m) ==> has_one_argument_form(m@) && tidy_manifest(m@),
{
    match parse_document(text) {
        Some(doc) => from_document(&doc),
        None => Err(LaunchError::InvalidManifest(InvalidReason::NotJson)),
    }
}

/// Writes a manifest as JSON text: the text of its document.
pub fn serialize(manifest: &MinecraftManifest) -> (r: String)
    ensures
        r@ == json_text(value_built(encode_manifest(manifest@))),
{
    proof {
        lemma_plain_manifest(manifest@);
    }
    match write_document(&to_document(manifest)) {
        Some(text) => text,
        None => String::new(),
    }
}

} // verus!
