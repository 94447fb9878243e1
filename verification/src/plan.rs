//! Assembling the per-member package specification: option precedence,
//! output locations, the file list of built binaries and declared assets,
//! and the build-step arguments. Everything here is a pure decision; the
//! caller performs the filesystem and process work the decisions call for.

use vstd::prelude::*;

use crate::assets::FileKind;
use crate::assets::octal_digits_ok;
use crate::assets::octal_val;
use crate::assets::parse_octal;
use crate::assets::pad_permission;
use crate::assets::spec_pad_permission;
use crate::errors::PackError;
use crate::errors::RequiredField;
use crate::manifest::Asset;
use crate::manifest::Compression;
use crate::manifest::Package;
use crate::strutil::clone_opt_string;
use crate::strutil::clone_string_vec;
use crate::strutil::join_comma;
use crate::strutil::join_path;
use crate::strutil::opt_view;
use crate::strutil::parent_dir;
use crate::strutil::spec_join_comma;
use crate::strutil::spec_join_path;
use crate::strutil::spec_parent_dir;

verus! {

/// One file carried by the package: where it comes from on disk, where it is
/// installed, and its final type-aware mode value.
#[derive(Clone, Debug)]
pub struct FileEntry {
    pub source: String,
    pub dest: String,
    pub mode: u16,
}

/// The complete, assembled specification of one member's package. Every
/// field is a decided plain value; writing the package file is all that is
/// left to do with it.
#[derive(Clone, Debug)]
pub struct PackageSpec {
    pub name: String,
    pub version: String,
    pub license: String,
    pub description: String,
    pub arch: String,
    pub compression: Compression,
    pub vendor: Option<String>,
    pub url: Option<String>,
    pub vcs: Option<String>,
    pub files: Vec<FileEntry>,
    pub preinstall: Option<String>,
    pub postinstall: Option<String>,
    pub preuninstall: Option<String>,
    pub postuninstall: Option<String>,
    pub dependencies: Vec<String>,
    pub conflicts: Vec<String>,
    pub signing_key_path: Option<String>,
    pub rpm_dir: String,
    pub output_path: String,
}

pub open spec fn entry_view(e: FileEntry) -> (Seq<char>, Seq<char>, u16) {
    (e.source@, e.dest@, e.mode)
}

pub open spec fn entries_view(s: Seq<FileEntry>) -> Seq<(Seq<char>, Seq<char>, u16)> {
    s.map_values(|e: FileEntry| entry_view(e))
}

/// The member's directory: the workspace root when one is declared, else the
/// parent directory of the member's manifest path.
pub open spec fn spec_crate_dir(
    workspace_root: Option<String>,
    manifest_path: Seq<char>,
) -> Option<Seq<char>> {
    match workspace_root {
        Some(w) => Some(w@),
        None => spec_parent_dir(manifest_path),
    }
}

pub fn crate_dir_of(workspace_root: &Option<String>, manifest_path: &str) -> (r: Result<
    String,
    PackError,
>)
    ensures
        match r {
            Ok(d) => spec_crate_dir(*workspace_root, manifest_path@) == Some(d@),
            Err(e) => spec_crate_dir(*workspace_root, manifest_path@) is None && e
                == PackError::ManifestError,
        },
{
    match workspace_root {
        Some(w) => Ok(w.clone()),
        None => match parent_dir(manifest_path) {
            Some(d) => Ok(d),
            None => Err(PackError::ManifestError),
        },
    }
}

/// Where the build step puts the member's binaries.
pub open spec fn spec_build_dir(crate_dir: Seq<char>, target: Option<Seq<char>>) -> Seq<char> {
    crate_dir + "/target/"@ + (match target {
        Some(t) => t,
        None => Seq::<char>::empty(),
    }) + "/release"@
}

/// Where the member's package files go.
pub open spec fn spec_rpm_dir(crate_dir: Seq<char>, target: Option<Seq<char>>) -> Seq<char> {
    crate_dir + "/target/"@ + (match target {
        Some(t) => t,
        None => Seq::<char>::empty(),
    }) + "/rpm"@
}

pub fn build_dir_of(crate_dir: &str, target: &Option<String>) -> (r: String)
    ensures
        r@ == spec_build_dir(crate_dir@, opt_view(*target)),
{
    let mut out = String::from_str(crate_dir);
    out.append("/target/");
    match target {
        Some(t) => out.append(t.as_str()),
        None => (),
    }
    out.append("/release");
    proof {
        assert(out@ =~= spec_build_dir(crate_dir@, opt_view(*target)));
    }
    out
}

pub fn rpm_dir_of(crate_dir: &str, target: &Option<String>) -> (r: String)
    ensures
        r@ == spec_rpm_dir(crate_dir@, opt_view(*target)),
{
    let mut out = String::from_str(crate_dir);
    out.append("/target/");
    match target {
        Some(t) => out.append(t.as_str()),
        None => (),
    }
    out.append("/rpm");
    proof {
        assert(out@ =~= spec_rpm_dir(crate_dir@, opt_view(*target)));
    }
    out
}

/// The package file's name: `<name>-<version>.<arch>.rpm`.
pub open spec fn spec_output_file_name(
    name: Seq<char>,
    version: Seq<char>,
    arch: Seq<char>,
) -> Seq<char> {
    name + "-"@ + version + "."@ + arch + ".rpm"@
}

pub fn output_file_name(name: &str, version: &str, arch: &str) -> (r: String)
    ensures
        r@ == spec_output_file_name(name@, version@, arch@),
{
    let mut out = String::from_str(name);
    out.append("-");
    out.append(version);
    out.append(".");
    out.append(arch);
    out.append(".rpm");
    out
}

/// Law: naming is deterministic. The architecture string and the output file
/// name are functions of the member's name, its version and the mapped
/// architecture alone: equal inputs give byte-identical names on every run.
pub proof fn lemma_output_naming_deterministic(
    name1: Seq<char>,
    version1: Seq<char>,
    arch1: Seq<char>,
    name2: Seq<char>,
    version2: Seq<char>,
    arch2: Seq<char>,
)
    requires
        name1 == name2,
        version1 == version2,
        arch1 == arch2,
    ensures
        spec_output_file_name(name1, version1, arch1) == spec_output_file_name(
            name2,
            version2,
            arch2,
        ),
{
}

/// Option precedence: a command-line choice wins over the member's declared
/// choice, and the fallback is gzip.
pub open spec fn spec_resolve_compression(
    cli: Option<Compression>,
    declared: Option<Compression>,
) -> Compression {
    match cli {
        Some(c) => c,
        None => match declared {
            Some(d) => d,
            None => Compression::Gzip,
        },
    }
}

pub fn resolve_compression(cli: Option<Compression>, declared: Option<Compression>) -> (r:
    Compression)
    ensures
        r == spec_resolve_compression(cli, declared),
{
    match cli {
        Some(c) => c,
        None => match declared {
            Some(d) => d,
            None => Compression::Gzip,
        },
    }
}

/// Key precedence: a command-line key path wins as given; a declared key
/// path is resolved relative to the member's directory.
pub open spec fn spec_resolve_signing_key(
    cli: Option<String>,
    declared: Option<String>,
    crate_dir: Seq<char>,
) -> Option<Seq<char>> {
    match cli {
        Some(k) => Some(k@),
        None => match declared {
            Some(d) => Some(spec_join_path(crate_dir, d@)),
            None => None,
        },
    }
}

pub fn resolve_signing_key(
    cli: &Option<String>,
    declared: &Option<String>,
    crate_dir: &str,
) -> (r: Option<String>)
    ensures
        opt_view(r) == spec_resolve_signing_key(*cli, *declared, crate_dir@),
{
    match cli {
        Some(k) => Some(k.clone()),
        None => match declared {
            Some(d) => Some(join_path(crate_dir, d.as_str())),
            None => None,
        },
    }
}

/// The file entry of one built binary: taken from the build output
/// directory, installed under `/usr/bin`, mode `rwxr-xr-x` on a regular
/// file.
pub open spec fn spec_bin_entry(
    t: crate::manifest::Target,
    build_dir: Seq<char>,
) -> (Seq<char>, Seq<char>, u16) {
    (build_dir + "/"@ + t.name@, "/usr/bin/"@ + t.name@, 0o100755u16)
}

/// The file entries of all `bin` targets, in declaration order.
pub open spec fn spec_bin_entries(
    ts: Seq<crate::manifest::Target>,
    build_dir: Seq<char>,
) -> Seq<(Seq<char>, Seq<char>, u16)>
    decreases ts.len(),
{
    if ts.len() == 0 {
        Seq::empty()
    } else {
        let rest = spec_bin_entries(ts.drop_last(), build_dir);
        if crate::manifest::target_is_bin(ts.last()) {
            rest.push(spec_bin_entry(ts.last(), build_dir))
        } else {
            rest
        }
    }
}

pub fn bin_file_entries(targets: &Vec<crate::manifest::Target>, build_dir: &str) -> (r: Vec<
    FileEntry,
>)
    ensures
        entries_view(r@) == spec_bin_entries(targets@, build_dir@),
{
    let mut out: Vec<FileEntry> = Vec::new();
    let mut i: usize = 0;
    while i < targets.len()
        invariant
            i <= targets@.len(),
            entries_view(out@) == spec_bin_entries(targets@.take(i as int), build_dir@),
        decreases targets@.len() - i,
    {
        let ghost out0 = out@;
        if crate::manifest::target_has_bin(&targets[i]) {
            let mut source = String::from_str(build_dir);
            source.append("/");
            source.append(targets[i].name.as_str());
            let mut dest = String::from_str("/usr/bin/");
            dest.append(targets[i].name.as_str());
            let mode: u16 = 0o100755;
            out.push(FileEntry { source, dest, mode });
            proof {
                assert(entries_view(out@) =~= entries_view(out0).push(
                    spec_bin_entry(targets@[i as int], build_dir@),
                ));
            }
        }
        i += 1;
        proof {
            assert(targets@.take(i as int).drop_last() =~= targets@.take(i - 1));
            assert(targets@.take(i as int).last() == targets@[i - 1]);
        }
    }
    proof {
        assert(targets@.take(targets@.len() as int) =~= targets@);
    }
    out
}

/// The file entry of one declared asset: the source resolved against the
/// member's directory, the declared install path, and the octal permission
/// padded with the type bits of the entry found on disk.
pub open spec fn spec_asset_entry(a: Asset, kind: FileKind, crate_dir: Seq<char>) -> Result<
    (Seq<char>, Seq<char>, u16),
    PackError,
> {
    if !octal_digits_ok(a.mode@) || octal_val(a.mode@) > 0xFFFF {
        Err(PackError::ManifestError)
    } else {
        match spec_pad_permission(octal_val(a.mode@) as u16, kind) {
            Ok(m) => Ok((spec_join_path(crate_dir, a.source@), a.dest@, m)),
            Err(e) => Err(e),
        }
    }
}

/// The file entries of the declared assets, in order; the first failing
/// asset decides the error.
pub open spec fn spec_asset_entries(
    assets: Seq<Asset>,
    kinds: Seq<FileKind>,
    crate_dir: Seq<char>,
) -> Result<Seq<(Seq<char>, Seq<char>, u16)>, PackError>
    recommends
        kinds.len() == assets.len(),
    decreases assets.len(),
{
    if assets.len() == 0 {
        Ok(Seq::empty())
    } else {
        match spec_asset_entries(assets.drop_last(), kinds.drop_last(), crate_dir) {
            Ok(rest) => match spec_asset_entry(assets.last(), kinds.last(), crate_dir) {
                Ok(e) => Ok(rest.push(e)),
                Err(er) => Err(er),
            },
            Err(er) => Err(er),
        }
    }
}

proof fn lemma_asset_entries_err_stays(
    assets: Seq<Asset>,
    kinds: Seq<FileKind>,
    crate_dir: Seq<char>,
    i: int,
)
    requires
        kinds.len() == assets.len(),
        0 <= i < assets.len(),
        spec_asset_entries(assets.take(i + 1), kinds.take(i + 1), crate_dir) is Err,
    ensures
        spec_asset_entries(assets, kinds, crate_dir) == spec_asset_entries(
            assets.take(i + 1),
            kinds.take(i + 1),
            crate_dir,
        ),
    decreases assets.len() - i,
{
    if i + 1 == assets.len() {
        assert(assets.take(i + 1) =~= assets);
        assert(kinds.take(i + 1) =~= kinds);
    } else {
        assert(assets.take(i + 2).drop_last() =~= assets.take(i + 1));
        assert(kinds.take(i + 2).drop_last() =~= kinds.take(i + 1));
        lemma_asset_entries_err_stays(assets, kinds, crate_dir, i + 1);
    }
}

pub fn asset_file_entries(assets: &Vec<Asset>, kinds: &Vec<FileKind>, crate_dir: &str) -> (r:
    Result<Vec<FileEntry>, PackError>)
    requires
        kinds@.len() == assets@.len(),
    ensures
        match r {
            Ok(v) => spec_asset_entries(assets@, kinds@, crate_dir@) == Ok::<
                Seq<(Seq<char>, Seq<char>, u16)>,
                PackError,
            >(entries_view(v@)),
            Err(e) => spec_asset_entries(assets@, kinds@, crate_dir@) == Err::<
                Seq<(Seq<char>, Seq<char>, u16)>,
                PackError,
            >(e),
        },
{
    let mut out: Vec<FileEntry> = Vec::new();
    let mut i: usize = 0;
    proof {
        assert(assets@.take(0) =~= Seq::<Asset>::empty());
        assert(kinds@.take(0) =~= Seq::<FileKind>::empty());
        assert(entries_view(out@) =~= Seq::<(Seq<char>, Seq<char>, u16)>::empty());
    }
    while i < assets.len()
        invariant
            i <= assets@.len(),
            kinds@.len() == assets@.len(),
            spec_asset_entries(assets@.take(i as int), kinds@.take(i as int), crate_dir@) == Ok::<
                Seq<(Seq<char>, Seq<char>, u16)>,
                PackError,
            >(entries_view(out@)),
        decreases assets@.len() - i,
    {
        proof {
            assert(assets@.take(i + 1).drop_last() =~= assets@.take(i as int));
            assert(kinds@.take(i + 1).drop_last() =~= kinds@.take(i as int));
            assert(assets@.take(i + 1).last() == assets@[i as int]);
            assert(kinds@.take(i + 1).last() == kinds@[i as int]);
        }
        let ghost out0 = out@;
        let mode_bits = match parse_octal(assets[i].mode.as_str()) {
            Ok(m) => m,
            Err(e) => {
                proof {
                    lemma_asset_entries_err_stays(assets@, kinds@, crate_dir@, i as int);
                }
                return Err(e);
            },
        };
        let padded = match pad_permission(mode_bits, kinds[i]) {
            Ok(m) => m,
            Err(e) => {
                proof {
                    lemma_asset_entries_err_stays(assets@, kinds@, crate_dir@, i as int);
                }
                return Err(e);
            },
        };
        let source = join_path(crate_dir, assets[i].source.as_str());
        let dest = assets[i].dest.clone();
        out.push(FileEntry { source, dest, mode: padded });
        proof {
            assert(entries_view(out@) =~= entries_view(out0).push(
                spec_asset_entry(assets@[i as int], kinds@[i as int], crate_dir@)->Ok_0,
            ));
        }
        i += 1;
    }
    proof {
        assert(assets@.take(assets@.len() as int) =~= assets@);
        assert(kinds@.take(kinds@.len() as int) =~= kinds@);
    }
    Ok(out)
}

/// The argument list of the build step: release mode, the explicit target
/// passed through, the member filter, then the user's passthrough arguments
/// verbatim.
pub open spec fn spec_build_args(
    target: Option<Seq<char>>,
    member: Option<Seq<char>>,
    passthrough: Seq<Seq<char>>,
) -> Seq<Seq<char>> {
    seq!["build"@, "--release"@] + (match target {
        Some(t) => seq!["--target"@, t],
        None => Seq::<Seq<char>>::empty(),
    }) + (match member {
        Some(m) => seq!["-p"@, m],
        None => Seq::<Seq<char>>::empty(),
    }) + passthrough
}

pub fn build_args(target: &Option<String>, member: &Option<String>, passthrough: &Vec<String>) -> (r:
    Vec<String>)
    ensures
        crate::strutil::strings_view(r@) == spec_build_args(
            opt_view(*target),
            opt_view(*member),
            crate::strutil::strings_view(passthrough@),
        ),
{
    let mut out: Vec<String> = Vec::new();
    out.push(String::from_str("build"));
    out.push(String::from_str("--release"));
    match target {
        Some(t) => {
            out.push(String::from_str("--target"));
            out.push(t.clone());
        },
        None => (),
    }
    match member {
        Some(m) => {
            out.push(String::from_str("-p"));
            out.push(m.clone());
        },
        None => (),
    }
    let mut i: usize = 0;
    let ghost head = crate::strutil::strings_view(out@);
    proof {
        assert(head =~= spec_build_args(opt_view(*target), opt_view(*member), Seq::empty()));
    }
    while i < passthrough.len()
        invariant
            i <= passthrough@.len(),
            crate::strutil::strings_view(out@) == head + crate::strutil::strings_view(
                passthrough@.take(i as int),
            ),
        decreases passthrough@.len() - i,
    {
        let ghost out0 = out@;
        out.push(passthrough[i].clone());
        i += 1;
        proof {
            assert(crate::strutil::strings_view(out@) =~= crate::strutil::strings_view(out0).push(
                passthrough@[i - 1]@,
            ));
            assert(crate::strutil::strings_view(passthrough@.take(i as int)) =~=
                crate::strutil::strings_view(passthrough@.take(i - 1)).push(passthrough@[i - 1]@));
        }
    }
    proof {
        assert(passthrough@.take(passthrough@.len() as int) =~= passthrough@);
        assert(head + crate::strutil::strings_view(passthrough@) =~= spec_build_args(
            opt_view(*target),
            opt_view(*member),
            crate::strutil::strings_view(passthrough@),
        ));
    }
    out
}

/// A nonzero build exit status is fatal: nothing is packaged after a failed
/// build.
pub fn check_build_status(success: bool) -> (r: Result<(), PackError>)
    ensures
        success ==> r is Ok,
        !success ==> r == Err::<(), PackError>(PackError::BuildFailure),
{
    if success {
        Ok(())
    } else {
        Err(PackError::BuildFailure)
    }
}

/// The declared assets of a member, empty when none are declared.
pub open spec fn spec_assets_of(p: Package) -> Seq<Asset> {
    match p.options {
        Some(o) => match o.assets {
            Some(a) => a@,
            None => Seq::empty(),
        },
        None => Seq::empty(),
    }
}

pub open spec fn spec_deps_of(p: Package) -> Seq<String> {
    match p.options {
        Some(o) => match o.dependencies {
            Some(d) => d@,
            None => Seq::empty(),
        },
        None => Seq::empty(),
    }
}

pub open spec fn spec_conflicts_of(p: Package) -> Seq<String> {
    match p.options {
        Some(o) => match o.conflicts {
            Some(c) => c@,
            None => Seq::empty(),
        },
        None => Seq::empty(),
    }
}

pub open spec fn spec_declared_compression(p: Package) -> Option<Compression> {
    match p.options {
        Some(o) => Some(o.compression),
        None => None,
    }
}

pub open spec fn spec_declared_key(p: Package) -> Option<String> {
    match p.options {
        Some(o) => o.signing_key,
        None => None,
    }
}

pub open spec fn spec_preinstall_of(p: Package) -> Option<String> {
    match p.options {
        Some(o) => o.preinstall,
        None => None,
    }
}

pub open spec fn spec_postinstall_of(p: Package) -> Option<String> {
    match p.options {
        Some(o) => o.postinstall,
        None => None,
    }
}

pub open spec fn spec_preuninstall_of(p: Package) -> Option<String> {
    match p.options {
        Some(o) => o.preuninstall,
        None => None,
    }
}

pub open spec fn spec_postuninstall_of(p: Package) -> Option<String> {
    match p.options {
        Some(o) => o.postuninstall,
        None => None,
    }
}

/// The first error the member's specification runs into, if any: no member
/// directory, a missing required field, then the first failing asset.
pub open spec fn spec_member_error(
    p: Package,
    workspace_root: Option<String>,
    kinds: Seq<FileKind>,
) -> Option<PackError> {
    match spec_crate_dir(workspace_root, p.manifest_path@) {
        None => Some(PackError::ManifestError),
        Some(cd) => if p.license is None {
            Some(PackError::MissingField { member: p.name, field: RequiredField::License })
        } else if p.description is None {
            Some(PackError::MissingField { member: p.name, field: RequiredField::Description })
        } else {
            match spec_asset_entries(spec_assets_of(p), kinds, cd) {
                Err(e) => Some(e),
                Ok(_) => None,
            }
        },
    }
}

/// The assembled specification `s` is exactly what the member's metadata,
/// the resolved names and the command-line overrides call for.
pub open spec fn spec_matches_member(
    s: PackageSpec,
    p: Package,
    cd: Seq<char>,
    arch: Seq<char>,
    cli_compression: Option<Compression>,
    cli_target: Option<String>,
    cli_signing_key: Option<String>,
    kinds: Seq<FileKind>,
) -> bool {
    &&& s.name@ == p.name@
    &&& s.version@ == p.version@
    &&& Some(s.license@) == opt_view(p.license)
    &&& Some(s.description@) == opt_view(p.description)
    &&& s.arch@ == arch
    &&& s.compression == spec_resolve_compression(cli_compression, spec_declared_compression(p))
    &&& opt_view(s.vendor) == (if p.authors@.len() == 0 {
        None::<Seq<char>>
    } else {
        Some(spec_join_comma(p.authors@))
    })
    &&& opt_view(s.url) == opt_view(p.homepage)
    &&& opt_view(s.vcs) == (match p.repository {
        Some(rep) => Some("git:"@ + rep@),
        None => None::<Seq<char>>,
    })
    &&& entries_view(s.files@) == spec_bin_entries(
        p.targets@,
        spec_build_dir(cd, opt_view(cli_target)),
    ) + spec_asset_entries(spec_assets_of(p), kinds, cd)->Ok_0
    &&& s.preinstall == spec_preinstall_of(p)
    &&& s.postinstall == spec_postinstall_of(p)
    &&& s.preuninstall == spec_preuninstall_of(p)
    &&& s.postuninstall == spec_postuninstall_of(p)
    &&& s.dependencies@ == spec_deps_of(p)
    &&& s.conflicts@ == spec_conflicts_of(p)
    &&& opt_view(s.signing_key_path) == spec_resolve_signing_key(
        cli_signing_key,
        spec_declared_key(p),
        cd,
    )
    &&& s.rpm_dir@ == spec_rpm_dir(cd, opt_view(cli_target))
    &&& s.output_path@ == spec_rpm_dir(cd, opt_view(cli_target)) + "/"@ + spec_output_file_name(
        p.name@,
        p.version@,
        arch,
    )
}

/// Assembles one member's complete package specification. `asset_kinds[i]`
/// is the filesystem-entry kind found on disk for the member's `i`-th
/// declared asset; the caller stats the sources the member declares.
pub fn build_package_spec(
    package: &Package,
    workspace_root: &Option<String>,
    arch: &String,
    cli_compression: Option<Compression>,
    cli_target: &Option<String>,
    cli_signing_key: &Option<String>,
    asset_kinds: &Vec<FileKind>,
) -> (r: Result<PackageSpec, PackError>)
    requires
        asset_kinds@.len() == spec_assets_of(*package).len(),
    ensures
        match r {
            Ok(s) => {
                &&& spec_member_error(*package, *workspace_root, asset_kinds@) is None
                &&& spec_matches_member(
                    s,
                    *package,
                    spec_crate_dir(*workspace_root, package.manifest_path@)->0,
                    arch@,
                    cli_compression,
                    *cli_target,
                    *cli_signing_key,
                    asset_kinds@,
                )
            },
            Err(e) => spec_member_error(*package, *workspace_root, asset_kinds@) == Some(e),
        },
{
    let crate_dir = match crate_dir_of(workspace_root, package.manifest_path.as_str()) {
        Ok(d) => d,
        Err(e) => {
            return Err(e);
        },
    };
    let license = match &package.license {
        Some(l) => l.clone(),
        None => {
            return Err(
                PackError::MissingField {
                    member: package.name.clone(),
                    field: RequiredField::License,
                },
            );
        },
    };
    let description = match &package.description {
        Some(d) => d.clone(),
        None => {
            return Err(
                PackError::MissingField {
                    member: package.name.clone(),
                    field: RequiredField::Description,
                },
            );
        },
    };
    let build_dir = build_dir_of(crate_dir.as_str(), cli_target);
    let rpm_dir = rpm_dir_of(crate_dir.as_str(), cli_target);
    let mut files = bin_file_entries(&package.targets, build_dir.as_str());
    let empty_assets: Vec<Asset> = Vec::new();
    let declared_assets: &Vec<Asset> = match &package.options {
        Some(o) => match &o.assets {
            Some(a) => a,
            None => &empty_assets,
        },
        None => &empty_assets,
    };
    proof {
        assert(declared_assets@ =~= spec_assets_of(*package));
    }
    let mut asset_entries = match asset_file_entries(
        declared_assets,
        asset_kinds,
        crate_dir.as_str(),
    ) {
        Ok(v) => v,
        Err(e) => {
            return Err(e);
        },
    };
    let ghost files0 = files@;
    let ghost assets0 = asset_entries@;
    files.append(&mut asset_entries);
    proof {
        assert(entries_view(files@) =~= entries_view(files0) + entries_view(assets0));
    }
    let vendor = if package.authors.len() > 0 {
        Some(join_comma(&package.authors))
    } else {
        None
    };
    let vcs = match &package.repository {
        Some(rep) => {
            let mut v = String::from_str("git:");
            v.append(rep.as_str());
            Some(v)
        },
        None => None,
    };
    let (declared_compression, declared_key): (Option<Compression>, Option<String>) =
        match &package.options {
        Some(o) => (Some(o.compression), clone_opt_string(&o.signing_key)),
        None => (None, None),
    };
    let compression = resolve_compression(cli_compression, declared_compression);
    let signing_key_path = resolve_signing_key(cli_signing_key, &declared_key, crate_dir.as_str());
    let (preinstall, postinstall, preuninstall, postuninstall) = match &package.options {
        Some(o) => (
            clone_opt_string(&o.preinstall),
            clone_opt_string(&o.postinstall),
            clone_opt_string(&o.preuninstall),
            clone_opt_string(&o.postuninstall),
        ),
        None => (None, None, None, None),
    };
    let dependencies = match &package.options {
        Some(o) => match &o.dependencies {
            Some(d) => clone_string_vec(d),
            None => Vec::new(),
        },
        None => Vec::new(),
    };
    let conflicts = match &package.options {
        Some(o) => match &o.conflicts {
            Some(c) => clone_string_vec(c),
            None => Vec::new(),
        },
        None => Vec::new(),
    };
    proof {
        assert(dependencies@ =~= spec_deps_of(*package));
        assert(conflicts@ =~= spec_conflicts_of(*package));
    }
    let file_name = output_file_name(
        package.name.as_str(),
        package.version.as_str(),
        arch.as_str(),
    );
    let mut output_path = String::from_str(rpm_dir.as_str());
    output_path.append("/");
    output_path.append(file_name.as_str());
    Ok(
        PackageSpec {
            name: package.name.clone(),
            version: package.version.clone(),
            license,
            description,
            arch: arch.clone(),
            compression,
            vendor,
            url: clone_opt_string(&package.homepage),
            vcs,
            files,
            preinstall,
            postinstall,
            preuninstall,
            postuninstall,
            dependencies,
            conflicts,
            signing_key_path,
            rpm_dir,
            output_path,
        },
    )
}

} // verus!
