//! Target directory resolver: locates the root output directory for the
//! nested build by ascending the directory tree from the build output
//! directory, so that the nested build never contends with the outer
//! build on the same output directory lock.

use vstd::prelude::*;

verus! {

/// What the resolver sees of one directory on the ascent: the marker
/// files it holds and its own name.
#[derive(Clone, Copy, Debug)]
pub struct DirLevel {
    /// A compiler metadata cache marker file is present in the directory.
    pub compiler_cache_marker: bool,
    /// A generic build cache marker file is present in the directory.
    pub build_cache_marker: bool,
    /// The directory itself is literally named "target".
    pub named_target: bool,
    /// The directory holds a project manifest file.
    pub project_manifest: bool,
}

/// A configured override for the target directory, and whether the
/// configured path is absolute.
#[derive(Debug)]
pub struct OverrideDir {
    pub path: String,
    pub absolute: bool,
}

/// Where the nested build's artifacts should be rooted.
#[derive(Debug)]
pub enum TargetDirResolution {
    /// The configured absolute override, used directly.
    Configured(String),
    /// The ancestor at this position of the chain, position 0 being the
    /// build output directory itself.
    Ancestor(usize),
}

/// Whether the directory at position `i` of the ascent chain is a build
/// target root: it holds a compiler metadata cache marker, or a generic
/// build cache marker, or is itself named "target" while its parent
/// holds a project manifest.
pub open spec fn marks_target_root(chain: Seq<DirLevel>, i: int) -> bool {
    ||| chain[i].compiler_cache_marker
    ||| chain[i].build_cache_marker
    ||| (chain[i].named_target && i + 1 < chain.len() && chain[i + 1].project_manifest)
}

/// Resolves the root directory for nested-build artifacts. A configured
/// absolute override wins outright; a configured override that is not
/// absolute makes resolution fail. Otherwise the first directory of the
/// ascent chain that is a build target root is chosen, and `None` is
/// returned when the chain holds none, the caller then falling back to a
/// fixed relative default.
pub fn find_target_dir(override_dir: &Option<OverrideDir>, chain: &Vec<DirLevel>) -> (r: Option<
    TargetDirResolution,
>)
    ensures
        match override_dir {
            Some(o) => if o.absolute {
                r matches Some(TargetDirResolution::Configured(p)) && p@ == o.path@
            } else {
                r is None
            },
            None => match r {
                Some(TargetDirResolution::Configured(_)) => false,
                Some(TargetDirResolution::Ancestor(i)) => {
                    &&& i < chain@.len()
                    &&& marks_target_root(chain@, i as int)
                    &&& forall|j: int| 0 <= j < i ==> !marks_target_root(chain@, j)
                },
                None => forall|j: int| 0 <= j < chain@.len() ==> !marks_target_root(chain@, j),
            },
        },
{
    match override_dir {
        Some(o) => {
            if o.absolute {
                return Some(TargetDirResolution::Configured(o.path.clone()));
            }
            return None;
        },
        None => {},
    }
    let n = chain.len();
    let mut i: usize = 0;
    while i < n
        invariant
            override_dir is None,
            n == chain@.len(),
            i <= n,
            forall|j: int| 0 <= j < i ==> !marks_target_root(chain@, j),
        decreases n - i,
    {
        let level = &chain[i];
        let parent_manifest = if i + 1 < n {
            chain[i + 1].project_manifest
        } else {
            false
        };
        if level.compiler_cache_marker || level.build_cache_marker || (level.named_target
            && parent_manifest) {
            return Some(TargetDirResolution::Ancestor(i));
        }
        i = i + 1;
    }
    None
}

/// The directory for the nested build's artifacts: the resolved target
/// root with the fixed nested name appended, or the fixed relative
/// default when resolution found nothing.
pub fn sw_target_dir(target_dir: Option<String>) -> (r: String)
    ensures
        match target_dir {
            Some(dir) => r@ == dir@ + "/service-worker"@,
            None => r@ == "target/service-worker"@,
        },
{
    match target_dir {
        Some(dir) => dir.concat("/service-worker"),
        None => "target/service-worker".to_owned(),
    }
}

} // verus!
