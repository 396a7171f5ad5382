//! Path canonicalization and normalization helpers, and a path value that
//! carries its normalized form beside the original.
//!
//! Canonicalization consults the filesystem, so its result is taken from a
//! trusted boundary; the fallback rule — a path that cannot be resolved is
//! kept as it was — is verified in [`resolve_or_fallback`].

use vstd::prelude::*;

verus! {

/// Relies on dunce::canonicalize: resolves `path` against the filesystem
/// into a canonical form without Windows verbatim prefixes. `None` when
/// resolution fails or the resolved path is not valid Unicode. The result
/// depends on what is on disk, so nothing more is stated of it.
#[verifier::external_body]
fn canonicalize_raw(path: &String) -> Option<String> {
    match dunce::canonicalize(path.as_str()) {
        Ok(resolved) => resolved.to_str().map(|s| s.to_string()),
        Err(_) => None,
    }
}

/// The fallback rule of canonicalization: a resolved form is taken as is,
/// and a path that could not be resolved is returned unchanged.
pub fn resolve_or_fallback(path: String, canonical: Option<String>) -> (result: String)
    ensures
        match canonical {
            Some(resolved) => result == resolved,
            None => result == path,
        },
{
    match canonical {
        Some(resolved) => resolved,
        None => path,
    }
}

/// Canonicalize `path` against the filesystem, returning it unchanged when
/// it cannot be resolved.
pub fn canonicalize(path: String) -> String {
    let canonical = canonicalize_raw(&path);
    resolve_or_fallback(path, canonical)
}

/// Normalize a path for display and comparison: its canonical form when the
/// filesystem can resolve it, the path unchanged otherwise.
pub fn normalize(path: String) -> String {
    canonicalize(path)
}

/// A path kept together with its normalized form.
#[derive(Clone, Debug)]
pub struct NormalizedPathBuf {
    /// The normalized form, as [`normalize`] produced it at construction.
    pub normalized: String,
    path: String,
}

impl NormalizedPathBuf {
    /// The original path, exactly as it was given.
    pub closed spec fn original(&self) -> Seq<char> {
        self.path@
    }

    fn build(path: String) -> (result: NormalizedPathBuf)
        ensures
            result.original() == path@,
    {
        let normalized = normalize(path.clone());
        NormalizedPathBuf { normalized, path }
    }

    /// The path this value was built from, unnormalized.
    pub fn path(&self) -> (path: &String)
        ensures
            path@ == self.original(),
    {
        &self.path
    }
}

impl From<String> for NormalizedPathBuf {
    fn from(path: String) -> NormalizedPathBuf {
        NormalizedPathBuf::build(path)
    }
}

impl vstd::std_specs::convert::FromSpecImpl<String> for NormalizedPathBuf {
    open spec fn obeys_from_spec() -> bool {
        false
    }

    open spec fn from_spec(path: String) -> NormalizedPathBuf {
        arbitrary()
    }
}

impl<'a> From<&'a str> for NormalizedPathBuf {
    fn from(path: &'a str) -> NormalizedPathBuf {
        NormalizedPathBuf::build(path.to_string())
    }
}

impl<'a> vstd::std_specs::convert::FromSpecImpl<&'a str> for NormalizedPathBuf {
    open spec fn obeys_from_spec() -> bool {
        false
    }

    open spec fn from_spec(path: &'a str) -> NormalizedPathBuf {
        arbitrary()
    }
}

} // verus!
