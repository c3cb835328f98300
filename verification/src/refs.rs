//! Branch names of checked-out worktrees, from the full names of their HEADs.

use gix::bstr::ByteSlice;
use vstd::prelude::*;

use crate::error::WtError;

verus! {

/// The error of `gix::refs::FullName::try_from` for a name that git does not
/// accept as a reference name.
#[verifier::external_type_specification]
#[verifier::external_body]
pub struct ExReferenceNameError(gix::validate::reference::name::Error);

/// What gix gives as the short form of the full reference name `full`
/// (`FullNameRef::shorten`): the name without the first well-known prefix it
/// carries (`refs/tags/`, `refs/heads/`, `refs/remotes/`, or `refs/` for a
/// few other kinds), or the name itself when it carries none.
pub uninterp spec fn shortened_ref(full: Seq<char>) -> Seq<char>;

/// Whether gix accepts `full` as a full reference name
/// (`gix::validate::reference::name`, through `FullName::try_from`).
pub uninterp spec fn valid_reference_name(full: Seq<char>) -> bool;

/// Validates `full` as a reference name with `gix::refs::FullName::try_from`
/// and shortens it with `FullNameRef::shorten`. Stated: the result is
/// `shortened_ref` of the name, and a name under `refs/heads/` loses exactly
/// that prefix (gix tries `refs/tags/` first, which such a name lacks); the
/// call succeeds exactly when the name is valid (`valid_reference_name`), as
/// shortening itself never fails. Not stated: which names are valid.
#[verifier::external_body]
fn shorten_ref(full: &str) -> (r: Result<String, gix::validate::reference::name::Error>)
    ensures
        r is Ok <==> valid_reference_name(full@),
        r matches Ok(s) ==> s@ == shortened_ref(full@),
        r matches Ok(s) ==> (full@.len() >= 11 && full@.take(11) == "refs/heads/"@ ==> s@
            == full@.skip(11)),
{
    let name = gix::refs::FullName::try_from(full)?;
    Ok(name.shorten().to_str_lossy().into_owned())
}

/// The branch checked out in a worktree whose HEAD refers to the full
/// reference name `head` (none when HEAD is detached): its short name, or an
/// error for a name that is not a valid reference name.
pub fn branch_name(head: &Option<String>) -> (r: Result<Option<String>, WtError>)
    ensures
        head is None ==> r matches Ok(None),
        head matches Some(full) ==> (r is Ok <==> valid_reference_name(full@)),
        head matches Some(full) ==> match r {
            Ok(Some(s)) => s@ == shortened_ref(full@) && (full@.len() >= 11 && full@.take(11)
                == "refs/heads/"@ ==> s@ == full@.skip(11)),
            Ok(None) => false,
            Err(e) => e == (WtError::InvalidReferenceName { name: *full }),
        },
{
    match head {
        None => Ok(None),
        Some(full) => match shorten_ref(full.as_str()) {
            Ok(short) => Ok(Some(short)),
            Err(_) => Err(WtError::InvalidReferenceName { name: full.clone() }),
        },
    }
}

} // verus!
