//! The boundary to `serde_json` and `json_patch`.
//!
//! JSON values and patches are carried as the outside crates' own types. The
//! verifier sees nothing inside them, so every statement about them goes
//! through two abstractions, [`json_content`] and [`patch_content`], and
//! through the trusted contracts of the few calls below. Nothing in this
//! module is proved; everything else in the crate is proved from it.

use vstd::prelude::*;
use serde_json::Value;
use json_patch::{Patch, PatchError};

verus! {

/// `serde_json::Value`: any JSON value.
#[verifier::external_type_specification]
#[verifier::external_body]
pub struct ExValue(serde_json::Value);

/// `json_patch::Patch`: an RFC 6902 patch, a list of operations.
#[verifier::external_type_specification]
#[verifier::external_body]
pub struct ExPatch(json_patch::Patch);

/// `json_patch::PatchOperation`: one operation of a patch. The crate never
/// handles one by itself; `Patch` names the type in its `Deref` impl.
#[verifier::external_type_specification]
#[verifier::external_body]
pub struct ExPatchOperation(json_patch::PatchOperation);

/// `json_patch::PatchError`: why a patch was rejected.
#[verifier::external_type_specification]
#[verifier::external_body]
pub struct ExPatchError(json_patch::PatchError);

/// What a JSON value holds, as its compact text with the members of an
/// object in the order of their keys and equal numbers written alike. Two
/// values hold the same content exactly when `serde_json` calls them equal.
pub uninterp spec fn json_content(value: Value) -> Seq<char>;

/// What a patch holds: the text of its RFC 6902 document.
pub uninterp spec fn patch_content(patch: Patch) -> Seq<char>;

/// The document that `json_patch::patch_unsafe` leaves when it applies the
/// patch `patch` to the document `doc` and every operation succeeds, or
/// `None` when an operation fails.
pub uninterp spec fn patched(doc: Seq<char>, patch: Seq<char>) -> Option<Seq<char>>;

/// The patch that `json_patch::diff` computes from `old` to `new`.
pub uninterp spec fn diffed(old: Seq<char>, new: Seq<char>) -> Seq<char>;

/// The number of operations in a patch.
pub uninterp spec fn patch_size(patch: Seq<char>) -> nat;

/// `json_patch::patch_unsafe`: applies the operations of `patch` to `doc` in
/// order and stops at the first that fails. Believed of it: whether it
/// succeeds, and the document that it leaves when it does, depend on the
/// contents of the two arguments alone. Nothing is claimed of the document
/// that a failed call leaves behind: the operations before the failing one
/// have been carried out, and a failing `move` may have taken its value out
/// already.
#[verifier::external_body]
pub(crate) fn apply_patch(doc: &mut Value, patch: &Patch) -> (res: Result<(), PatchError>)
    ensures
        res is Ok <==> patched(json_content(*old(doc)), patch_content(*patch)) is Some,
        res is Ok ==> Some(json_content(*final(doc))) == patched(
            json_content(*old(doc)),
            patch_content(*patch),
        ),
{
    json_patch::patch_unsafe(doc, patch)
}

/// `json_patch::diff`: the patch that leads from `old` to `new`. Believed of
/// it: the patch depends on the two contents alone; applying it to `old`
/// succeeds and gives `new`; and it has no operation exactly when the two
/// documents are equal.
#[verifier::external_body]
pub(crate) fn diff_values(old: &Value, new: &Value) -> (patch: Patch)
    ensures
        patch_content(patch) == diffed(json_content(*old), json_content(*new)),
        patched(json_content(*old), patch_content(patch)) == Some(json_content(*new)),
        patch_size(patch_content(patch)) == 0 <==> json_content(*old) == json_content(*new),
{
    json_patch::diff(old, new)
}

/// The length of the list of operations that a `json_patch::Patch` is.
#[verifier::external_body]
pub(crate) fn count_operations(patch: &Patch) -> (count: usize)
    ensures
        count == patch_size(patch_content(*patch)),
{
    patch.0.len()
}

/// `serde_json::Value`'s `clone`: a copy with the same content.
pub assume_specification[ <serde_json::Value as Clone>::clone ](value: &serde_json::Value) -> (copy:
    serde_json::Value)
    ensures
        json_content(copy) == json_content(*value),
;

/// `json_patch::Patch`'s `clone`: a copy with the same operations.
pub assume_specification[ <json_patch::Patch as Clone>::clone ](patch: &json_patch::Patch) -> (copy:
    json_patch::Patch)
    ensures
        patch_content(copy) == patch_content(*patch),
;

} // verus!
