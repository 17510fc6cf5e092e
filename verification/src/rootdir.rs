use vstd::prelude::*;
use vstd::string::StringExecFns;

use crate::errors::ShimError;

verus! {

/// The options descriptor found in a bundle: a small object with an optional
/// override for the directory under which container state is persisted.
pub struct Options {
    pub root: Option<String>,
}

/// What reading `options.json` from the bundle directory yielded.  The file
/// itself is read, and parsed, outside the verified library; the resolver
/// only decides what each outcome means.
pub enum OptionsOutcome {
    /// No descriptor file exists in the bundle.  This is not an error.
    Absent,
    /// The descriptor exists but could not be read.
    ReadFailed,
    /// The descriptor was read but is not a well-formed options object.
    Malformed,
    /// The descriptor was read and parsed.
    Parsed(Options),
}

/// The compiled-in directory under which container state lives when no
/// options descriptor overrides it.
pub open spec fn spec_default_root() -> Seq<char> {
    "/run/containerd/lunatic"@
}

/// `root/namespace`: a path joined with a single separator.
pub open spec fn spec_joined(root: Seq<char>, namespace: Seq<char>) -> Seq<char> {
    root + "/"@ + namespace
}

/// The root directory that a given options outcome resolves to, or the error
/// that construction must surface.
pub open spec fn spec_resolved_root(opts: OptionsOutcome, namespace: Seq<char>) -> Result<
    Seq<char>,
    ShimError,
> {
    match opts {
        OptionsOutcome::Absent => Ok(spec_joined(spec_default_root(), namespace)),
        OptionsOutcome::ReadFailed => Err(ShimError::IoError),
        OptionsOutcome::Malformed => Err(ShimError::ParseError),
        OptionsOutcome::Parsed(o) => match o.root {
            Some(r) => Ok(spec_joined(r@, namespace)),
            None => Ok(spec_joined(spec_default_root(), namespace)),
        },
    }
}

/// The default container root directory as a value.
pub fn default_container_root_dir() -> (r: String)
    ensures
        r@ == spec_default_root(),
{
    String::from_str("/run/containerd/lunatic")
}

/// Joins a namespace under a root directory with a single separator.
pub fn join_under(root: &str, namespace: &str) -> (r: String)
    ensures
        r@ == spec_joined(root@, namespace@),
{
    let mut s = String::from_str(root);
    s.append("/");
    s.append(namespace);
    s
}

/// Resolves the on-disk root directory for an instance from the outcome of
/// reading the bundle's options descriptor: an absent descriptor, or one that
/// names no root, falls back to the default root; a named root replaces it;
/// either way the namespace is appended.  A descriptor that exists but cannot
/// be read or parsed is fatal.
pub fn determine_rootdir(opts: &OptionsOutcome, namespace: &str) -> (r: Result<String, ShimError>)
    ensures
        r is Ok <==> spec_resolved_root(*opts, namespace@) is Ok,
        r matches Ok(p) ==> p@ == spec_resolved_root(*opts, namespace@)->Ok_0,
        r matches Err(e) ==> e == spec_resolved_root(*opts, namespace@)->Err_0,
{
    match opts {
        OptionsOutcome::Absent => Ok(join_under(default_container_root_dir().as_str(), namespace)),
        OptionsOutcome::ReadFailed => Err(ShimError::IoError),
        OptionsOutcome::Malformed => Err(ShimError::ParseError),
        OptionsOutcome::Parsed(o) => match &o.root {
            Some(r) => Ok(join_under(r.as_str(), namespace)),
            None => Ok(join_under(default_container_root_dir().as_str(), namespace)),
        },
    }
}

/// A bundle without an options descriptor resolves to the default root with
/// the namespace appended.
pub proof fn lemma_resolve_without_options(namespace: Seq<char>)
    ensures
        spec_resolved_root(OptionsOutcome::Absent, namespace) == Ok::<Seq<char>, ShimError>(
            spec_joined(spec_default_root(), namespace),
        ),
{
}

/// An options descriptor that names a root resolves to that root with the
/// namespace appended.
pub proof fn lemma_resolve_with_root(root: String, namespace: Seq<char>)
    ensures
        spec_resolved_root(
            OptionsOutcome::Parsed(Options { root: Some(root) }),
            namespace,
        ) == Ok::<Seq<char>, ShimError>(spec_joined(root@, namespace)),
{
}

} // verus!
