//! Platform triplets: parsing a hyphen-delimited `arch-vendor-os[-libc]`
//! string, rendering it back losslessly, and mapping the architecture to the
//! RPM architecture name under a strict allow-list policy.

use vstd::prelude::*;

use crate::errors::PackError;
use crate::strutil::find_from;
use crate::strutil::lemma_find_from;
use crate::strutil::find_char;
use crate::strutil::opt_view;
use crate::strutil::str_equal;

verus! {

/// A platform identifier: architecture, vendor, OS, and an optional libc
/// flavor. The libc part is everything after the third hyphen, so a parsed
/// triplet re-renders to exactly the string it came from.
#[derive(Clone, PartialEq, Eq, Debug)]
pub struct Triplet {
    pub arch: String,
    pub vendor: String,
    pub os: String,
    pub libc: Option<String>,
}

/// Index of the first hyphen.
pub open spec fn hy1(s: Seq<char>) -> int {
    find_from(s, '-', 0)
}

/// Index of the second hyphen.
pub open spec fn hy2(s: Seq<char>) -> int
    recommends
        hy1(s) < s.len(),
{
    find_from(s, '-', hy1(s) + 1)
}

/// Index of the third hyphen.
pub open spec fn hy3(s: Seq<char>) -> int
    recommends
        hy2(s) < s.len(),
{
    find_from(s, '-', hy2(s) + 1)
}

/// A string parses as a triplet when its first three hyphen-delimited
/// segments are non-empty.
pub open spec fn parse_ok(s: Seq<char>) -> bool {
    &&& 0 < hy1(s) < s.len()
    &&& hy1(s) + 1 < hy2(s) < s.len()
    &&& hy2(s) + 1 < hy3(s)
}

pub open spec fn parsed_arch(s: Seq<char>) -> Seq<char>
    recommends
        parse_ok(s),
{
    s.subrange(0, hy1(s))
}

pub open spec fn parsed_vendor(s: Seq<char>) -> Seq<char>
    recommends
        parse_ok(s),
{
    s.subrange(hy1(s) + 1, hy2(s))
}

pub open spec fn parsed_os(s: Seq<char>) -> Seq<char>
    recommends
        parse_ok(s),
{
    s.subrange(hy2(s) + 1, hy3(s))
}

/// The libc flavor: everything after the third hyphen, when there is one.
pub open spec fn parsed_libc(s: Seq<char>) -> Option<Seq<char>>
    recommends
        parse_ok(s),
{
    if hy3(s) < s.len() {
        Some(s.subrange(hy3(s) + 1, s.len() as int))
    } else {
        None
    }
}

/// The hyphen-joined form of a triplet's parts.
pub open spec fn spec_render(
    arch: Seq<char>,
    vendor: Seq<char>,
    os: Seq<char>,
    libc: Option<Seq<char>>,
) -> Seq<char> {
    let base = arch + "-"@ + vendor + "-"@ + os;
    match libc {
        Some(l) => base + "-"@ + l,
        None => base,
    }
}

/// A libc flavor counts as hard-float when it is absent or ends in `hf`.
pub open spec fn libc_is_hf(libc: Option<Seq<char>>) -> bool {
    match libc {
        None => true,
        Some(l) => l.len() >= 2 && l.subrange(l.len() - 2, l.len() as int) == "hf"@,
    }
}

/// The strict architecture mapping table: ARM variants go to `armhfp` when
/// hard-float, PowerPC names are shortened, and only a fixed allow-list of
/// other architectures passes through unchanged.
pub open spec fn spec_rpm_arch(arch: Seq<char>, libc: Option<Seq<char>>) -> Option<Seq<char>> {
    if arch == "armv7"@ || arch == "arm"@ {
        if libc_is_hf(libc) {
            Some("armhfp"@)
        } else {
            None
        }
    } else if arch == "powerpc64"@ {
        Some("ppc64"@)
    } else if arch == "powerpc64le"@ {
        Some("ppc64le"@)
    } else if arch == "x86_64"@ || arch == "aarch64"@ || arch == "i386"@ || arch == "s390x"@ {
        Some(arch)
    } else {
        None
    }
}

/// The triplet `t` is exactly what parsing `s` yields.
pub open spec fn triplet_matches(t: Triplet, s: Seq<char>) -> bool {
    &&& parse_ok(s)
    &&& t.arch@ == parsed_arch(s)
    &&& t.vendor@ == parsed_vendor(s)
    &&& t.os@ == parsed_os(s)
    &&& opt_view(t.libc) == parsed_libc(s)
}

impl Triplet {
    /// Splits a `arch-vendor-os[-libc]` string. Fails when fewer than three
    /// non-empty hyphen-delimited segments are there.
    pub fn parse(s: &str) -> (r: Result<Triplet, PackError>)
        ensures
            match r {
                Ok(t) => triplet_matches(t, s@),
                Err(e) => !parse_ok(s@) && e == PackError::TargetResolutionError,
            },
    {
        let n = s.unicode_len();
        let i = find_char(s, '-', 0);
        if i == 0 || i == n {
            return Err(PackError::TargetResolutionError);
        }
        proof {
            lemma_find_from(s@, '-', 0);
        }
        let j = find_char(s, '-', i + 1);
        if j == i + 1 || j == n {
            return Err(PackError::TargetResolutionError);
        }
        proof {
            lemma_find_from(s@, '-', i + 1);
        }
        let k = find_char(s, '-', j + 1);
        if k == j + 1 {
            return Err(PackError::TargetResolutionError);
        }
        proof {
            lemma_find_from(s@, '-', j + 1);
        }
        let arch = String::from_str(s.substring_char(0, i));
        let vendor = String::from_str(s.substring_char(i + 1, j));
        let os = String::from_str(s.substring_char(j + 1, k));
        let libc = if k < n {
            Some(String::from_str(s.substring_char(k + 1, n)))
        } else {
            None
        };
        Ok(Triplet { arch, vendor, os, libc })
    }

    /// Joins the parts back with hyphens.
    pub fn render(&self) -> (r: String)
        ensures
            r@ == spec_render(self.arch@, self.vendor@, self.os@, opt_view(self.libc)),
    {
        let mut out = String::from_str(self.arch.as_str());
        out.append("-");
        out.append(self.vendor.as_str());
        out.append("-");
        out.append(self.os.as_str());
        match &self.libc {
            Some(l) => {
                out.append("-");
                out.append(l.as_str());
            },
            None => {},
        }
        out
    }

    /// Maps the architecture to its RPM name under the strict allow-list
    /// policy; an architecture outside the table is unsupported.
    pub fn rpm_arch(&self) -> (r: Result<String, PackError>)
        ensures
            match r {
                Ok(a) => spec_rpm_arch(self.arch@, opt_view(self.libc)) == Some(a@),
                Err(e) => {
                    &&& spec_rpm_arch(self.arch@, opt_view(self.libc)) is None
                    &&& e matches PackError::UnsupportedArch { arch } && arch@ == self.arch@
                },
            },
    {
        let a = self.arch.as_str();
        if str_equal(a, "armv7") || str_equal(a, "arm") {
            if self.libc_is_hard_float() {
                Ok(String::from_str("armhfp"))
            } else {
                Err(PackError::UnsupportedArch { arch: self.arch.clone() })
            }
        } else if str_equal(a, "powerpc64") {
            Ok(String::from_str("ppc64"))
        } else if str_equal(a, "powerpc64le") {
            Ok(String::from_str("ppc64le"))
        } else if str_equal(a, "x86_64") || str_equal(a, "aarch64") || str_equal(a, "i386")
            || str_equal(a, "s390x") {
            Ok(self.arch.clone())
        } else {
            Err(PackError::UnsupportedArch { arch: self.arch.clone() })
        }
    }

    /// Whether the libc flavor is absent or ends in `hf`.
    pub fn libc_is_hard_float(&self) -> (r: bool)
        ensures
            r == libc_is_hf(opt_view(self.libc)),
    {
        match &self.libc {
            None => true,
            Some(l) => {
                let n = l.as_str().unicode_len();
                if n < 2 {
                    false
                } else {
                    let tail = l.as_str().substring_char(n - 2, n);
                    str_equal(tail, "hf")
                }
            },
        }
    }
}

/// Law: the architecture mapping is a pure, deterministic function of the
/// triplet: equal architecture and libc give the same mapped name on every
/// run.
pub proof fn lemma_rpm_arch_deterministic(
    arch1: Seq<char>,
    libc1: Option<Seq<char>>,
    arch2: Seq<char>,
    libc2: Option<Seq<char>>,
)
    requires
        arch1 == arch2,
        libc1 == libc2,
    ensures
        spec_rpm_arch(arch1, libc1) == spec_rpm_arch(arch2, libc2),
{
}

/// Law: a string that parses as a triplet re-renders to exactly itself.
pub proof fn lemma_parse_then_render(s: Seq<char>)
    requires
        parse_ok(s),
    ensures
        spec_render(parsed_arch(s), parsed_vendor(s), parsed_os(s), parsed_libc(s)) == s,
{
    reveal_strlit("-");
    lemma_find_from(s, '-', 0);
    lemma_find_from(s, '-', hy1(s) + 1);
    lemma_find_from(s, '-', hy2(s) + 1);
    assert("-"@ =~= seq!['-']);
    assert(spec_render(parsed_arch(s), parsed_vendor(s), parsed_os(s), parsed_libc(s)) =~= s);
}

} // verus!
