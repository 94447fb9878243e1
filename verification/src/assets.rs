//! Filesystem-entry metadata for bundled assets: parsing the declared octal
//! permission string and composing a type-aware mode value.

use vstd::prelude::*;

use crate::errors::PackError;

verus! {

/// The kind of filesystem entry found at an asset's source path. Anything
/// beyond a regular file, a directory or a symlink cannot be packaged.
#[derive(Clone, Copy, PartialEq, Eq, Structural, Debug)]
pub enum FileKind {
    Regular,
    Directory,
    Symlink,
    Other,
}

/// The permission bits ORed with the type bits of the entry kind, or
/// `InvalidFileType` for an entry that cannot be packaged.
pub open spec fn spec_pad_permission(mode: u16, kind: FileKind) -> Result<u16, PackError> {
    match kind {
        FileKind::Regular => Ok(0o100000u16 | mode),
        FileKind::Directory => Ok(0o040000u16 | mode),
        FileKind::Symlink => Ok(0o120000u16 | mode),
        FileKind::Other => Err(PackError::InvalidFileType),
    }
}

/// Composes the final mode of an asset: the requested permission bits plus
/// the type bits of the entry actually present on disk.
pub fn pad_permission(mode: u16, kind: FileKind) -> (r: Result<u16, PackError>)
    ensures
        r == spec_pad_permission(mode, kind),
{
    match kind {
        FileKind::Regular => Ok(0o100000u16 | mode),
        FileKind::Directory => Ok(0o040000u16 | mode),
        FileKind::Symlink => Ok(0o120000u16 | mode),
        FileKind::Other => Err(PackError::InvalidFileType),
    }
}

/// A character `0` through `7`.
pub open spec fn is_octal_digit(c: char) -> bool {
    48 <= c as u32 <= 55
}

/// A non-empty string of octal digits.
pub open spec fn octal_digits_ok(s: Seq<char>) -> bool {
    s.len() > 0 && forall|i: int| 0 <= i < s.len() ==> is_octal_digit(s[i])
}

/// The numeric value of a string of octal digits.
pub open spec fn octal_val(s: Seq<char>) -> int
    decreases s.len(),
{
    if s.len() == 0 {
        0
    } else {
        octal_val(s.drop_last()) * 8 + ((s.last() as u32) as int - 48)
    }
}

proof fn lemma_octal_val_nonneg(s: Seq<char>)
    requires
        forall|i: int| 0 <= i < s.len() ==> is_octal_digit(s[i]),
    ensures
        octal_val(s) >= 0,
    decreases s.len(),
{
    if s.len() > 0 {
        lemma_octal_val_nonneg(s.drop_last());
    }
}

proof fn lemma_octal_val_prefix_le(s: Seq<char>, i: int)
    requires
        0 <= i <= s.len(),
        forall|m: int| 0 <= m < s.len() ==> is_octal_digit(s[m]),
    ensures
        octal_val(s.take(i)) <= octal_val(s),
    decreases s.len() - i,
{
    if i < s.len() {
        lemma_octal_val_prefix_le(s, i + 1);
        assert(s.take(i + 1).drop_last() =~= s.take(i));
        assert(s.take(i + 1).last() == s[i]);
        lemma_octal_val_nonneg(s.take(i));
    } else {
        assert(s.take(i) =~= s);
    }
}

/// Reads a non-empty octal digit string into a 16-bit mode value; a malformed
/// or overlarge value is a malformed member declaration.
pub fn parse_octal(s: &str) -> (r: Result<u16, PackError>)
    ensures
        match r {
            Ok(v) => octal_digits_ok(s@) && octal_val(s@) == v as int,
            Err(e) => {
                &&& e == PackError::ManifestError
                &&& !octal_digits_ok(s@) || octal_val(s@) > 0xFFFF
            },
        },
{
    let n = s.unicode_len();
    if n == 0 {
        return Err(PackError::ManifestError);
    }
    let mut acc: u32 = 0;
    let mut i: usize = 0;
    while i < n
        invariant
            i <= n,
            n == s@.len(),
            acc <= 0xFFFF,
            acc as int == octal_val(s@.take(i as int)),
            forall|m: int| 0 <= m < i ==> is_octal_digit(s@[m]),
        decreases n - i,
    {
        let c = s.get_char(i);
        let d = c as u32;
        if d < 48 || d > 55 {
            return Err(PackError::ManifestError);
        }
        let next = acc * 8 + (d - 48);
        proof {
            assert(s@.take(i + 1).drop_last() =~= s@.take(i as int));
            assert(s@.take(i + 1).last() == s@[i as int]);
        }
        if next > 0xFFFF {
            proof {
                if octal_digits_ok(s@) {
                    lemma_octal_val_prefix_le(s@, i + 1);
                }
            }
            return Err(PackError::ManifestError);
        }
        acc = next;
        i += 1;
    }
    proof {
        assert(s@.take(n as int) =~= s@);
    }
    Ok(acc as u16)
}

} // verus!
