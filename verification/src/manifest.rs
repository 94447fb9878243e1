//! The workspace's build graph as the packaging logic sees it: members,
//! their build targets and declared packaging options, plus member
//! eligibility and name filtering.

use vstd::prelude::*;

use crate::strutil::str_equal;

verus! {

/// The compression applied to the package payload.
#[derive(Clone, Copy, PartialEq, Eq, Structural, Debug)]
pub enum Compression {
    Uncompressed,
    Gzip,
    Zstd,
    Xz,
    Bzip2,
}

/// A declared asset: a source path, an install path, and an octal permission
/// string.
#[derive(Clone, Debug)]
pub struct Asset {
    pub source: String,
    pub dest: String,
    pub mode: String,
}

/// Per-member packaging options declared in the workspace metadata.
#[derive(Clone, Debug)]
pub struct RpmOptions {
    pub compression: Compression,
    pub signing_key: Option<String>,
    pub dependencies: Option<Vec<String>>,
    pub conflicts: Option<Vec<String>>,
    pub assets: Option<Vec<Asset>>,
    pub preinstall: Option<String>,
    pub postinstall: Option<String>,
    pub preuninstall: Option<String>,
    pub postuninstall: Option<String>,
}

/// A named build target with its kind tags; only the `bin` kind matters here.
#[derive(Clone, Debug)]
pub struct Target {
    pub name: String,
    pub kind: Vec<String>,
}

/// One buildable workspace member with its declared metadata.
#[derive(Clone, Debug)]
pub struct Package {
    pub name: String,
    pub version: String,
    pub license: Option<String>,
    pub description: Option<String>,
    pub authors: Vec<String>,
    pub targets: Vec<Target>,
    pub manifest_path: String,
    pub options: Option<RpmOptions>,
    pub homepage: Option<String>,
    pub repository: Option<String>,
}

/// The workspace: its members in declaration order and its optional root.
#[derive(Clone, Debug)]
pub struct Manifest {
    pub packages: Vec<Package>,
    pub workspace_root: Option<String>,
}

/// A target is a binary when one of its kind tags is `bin`.
pub open spec fn target_is_bin(t: Target) -> bool {
    exists|j: int| 0 <= j < t.kind@.len() && t.kind@[j]@ == "bin"@
}

/// A member is eligible for packaging when it has at least one `bin` target.
pub open spec fn spec_eligible(p: Package) -> bool {
    exists|i: int| 0 <= i < p.targets@.len() && target_is_bin(p.targets@[i])
}

/// A member is selected when it is eligible and, if a name filter is given,
/// its name matches the filter.
pub open spec fn spec_selected(p: Package, filter: Option<String>) -> bool {
    spec_eligible(p) && match filter {
        Some(f) => p.name@ == f@,
        None => true,
    }
}

/// Whether one of the target's kind tags is `bin`.
pub fn target_has_bin(t: &Target) -> (r: bool)
    ensures
        r == target_is_bin(*t),
{
    let mut j: usize = 0;
    while j < t.kind.len()
        invariant
            j <= t.kind@.len(),
            forall|m: int| 0 <= m < j ==> t.kind@[m]@ != "bin"@,
        decreases t.kind@.len() - j,
    {
        if str_equal(t.kind[j].as_str(), "bin") {
            return true;
        }
        j += 1;
    }
    false
}

/// Whether the member declares at least one `bin` target.
pub fn is_eligible(p: &Package) -> (r: bool)
    ensures
        r == spec_eligible(*p),
{
    let mut i: usize = 0;
    while i < p.targets.len()
        invariant
            i <= p.targets@.len(),
            forall|m: int| 0 <= m < i ==> !target_is_bin(p.targets@[m]),
        decreases p.targets@.len() - i,
    {
        if target_has_bin(&p.targets[i]) {
            return true;
        }
        i += 1;
    }
    false
}

/// The indices, in order, of exactly the members that are eligible and match
/// the optional name filter. One output artifact is owed per selected member.
pub fn select_members(packages: &Vec<Package>, filter: &Option<String>) -> (r: Vec<usize>)
    ensures
        forall|a: int, b: int| 0 <= a < b < r@.len() ==> r@[a] < r@[b],
        forall|a: int|
            0 <= a < r@.len() ==> r@[a] < packages@.len() && spec_selected(
                packages@[r@[a] as int],
                *filter,
            ),
        forall|i: int|
            0 <= i < packages@.len() && spec_selected(packages@[i], *filter) ==> r@.contains(
                i as usize,
            ),
{
    let mut out: Vec<usize> = Vec::new();
    let mut i: usize = 0;
    while i < packages.len()
        invariant
            i <= packages@.len(),
            forall|a: int, b: int| 0 <= a < b < out@.len() ==> out@[a] < out@[b],
            forall|a: int| 0 <= a < out@.len() ==> out@[a] < i,
            forall|a: int|
                0 <= a < out@.len() ==> out@[a] < packages@.len() && spec_selected(
                    packages@[out@[a] as int],
                    *filter,
                ),
            forall|m: int|
                0 <= m < i && spec_selected(packages@[m], *filter) ==> out@.contains(m as usize),
        decreases packages@.len() - i,
    {
        let matches_filter = match filter {
            Some(f) => str_equal(packages[i].name.as_str(), f.as_str()),
            None => true,
        };
        let ghost out0 = out@;
        if matches_filter && is_eligible(&packages[i]) {
            out.push(i);
            proof {
                assert forall|m: int|
                    0 <= m <= i && spec_selected(packages@[m], *filter) implies out@.contains(
                    m as usize,
                ) by {
                    if m < i {
                        let a = choose|a: int| 0 <= a < out0.len() && out0[a] == m as usize;
                        assert(out@[a] == m as usize);
                    } else {
                        assert(out@[out@.len() - 1] == i as usize);
                    }
                }
            }
        }
        i += 1;
    }
    out
}

} // verus!
