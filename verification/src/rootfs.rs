//! Validation of the target root.
//!
//! A target is accepted where it exists and is a directory. One given by an
//! absolute path is used as it stands; one given by a relative path is made
//! canonical first. A [`ValidRoot`] can only be had through these checks, and
//! its path is absolute.

use vstd::prelude::*;
use crate::error::ChrootError;

verus! {

/// A path that starts at the filesystem's root.
pub open spec fn is_absolute(path: Seq<char>) -> bool {
    path.len() > 0 && path[0] == '/'
}

/// Whether `path` starts at the filesystem's root.
pub fn is_absolute_path(path: &str) -> (absolute: bool)
    ensures
        absolute == is_absolute(path@),
{
    path.unicode_len() > 0 && path.get_char(0) == '/'
}

/// The path of a target root that passed validation.
#[derive(Debug)]
pub struct ValidRoot {
    path: String,
}

impl View for ValidRoot {
    type V = Seq<char>;

    closed spec fn view(&self) -> Seq<char> {
        self.path@
    }
}

impl ValidRoot {
    #[verifier::type_invariant]
    spec fn path_is_absolute(self) -> bool {
        is_absolute(self.path@)
    }

    /// The path, which is absolute.
    pub fn as_str(&self) -> (path: &str)
        ensures
            path@ == self@,
            is_absolute(path@),
    {
        proof {
            use_type_invariant(self);
        }
        self.path.as_str()
    }

    /// The path, owned.
    pub fn into_string(self) -> (path: String)
        ensures
            path@ == self@,
            is_absolute(path@),
    {
        proof {
            use_type_invariant(&self);
        }
        self.path
    }
}

/// What the validator decided of a target that exists and is a directory.
#[derive(Debug)]
pub enum RootCheck {
    /// The path was absolute: it is the root.
    Accepted(ValidRoot),
    /// The path was relative: its canonical form is needed.
    NeedsCanonicalPath,
}

/// Judges a target path by what the filesystem says of it.
///
/// A path that is missing or is no directory is refused as `InvalidRoot`.
/// Of the others, an absolute one is accepted with its characters
/// unchanged, and a relative one asks for its canonical form.
pub fn validate_root(path: &str, present: bool, is_dir: bool) -> (r: Result<RootCheck, ChrootError>)
    ensures
        !(present && is_dir) <==> r == Err::<RootCheck, ChrootError>(ChrootError::InvalidRoot),
        present && is_dir && is_absolute(path@) <==> (r matches Ok(RootCheck::Accepted(root))
            && root@ == path@),
        present && is_dir && !is_absolute(path@) <==> r matches Ok(RootCheck::NeedsCanonicalPath),
{
    if !present || !is_dir {
        return Err(ChrootError::InvalidRoot);
    }
    if is_absolute_path(path) {
        Ok(RootCheck::Accepted(ValidRoot { path: path.to_owned() }))
    } else {
        Ok(RootCheck::NeedsCanonicalPath)
    }
}

/// Accepts the canonical form of a relative target.
///
/// `canonical` is `None` where the filesystem could not give one. That, or
/// a form that is not absolute, is refused as `InvalidRoot`.
pub fn accept_canonical(canonical: Option<String>) -> (r: Result<ValidRoot, ChrootError>)
    ensures
        match canonical {
            Some(path) if is_absolute(path@) => r matches Ok(root) && root@ == path@,
            _ => r == Err::<ValidRoot, ChrootError>(ChrootError::InvalidRoot),
        },
{
    match canonical {
        Some(path) => {
            if is_absolute_path(path.as_str()) {
                Ok(ValidRoot { path })
            } else {
                Err(ChrootError::InvalidRoot)
            }
        },
        None => Err(ChrootError::InvalidRoot),
    }
}

} // verus!
