//! Package artifacts: the upload size limit and the derivation of the
//! delete-path variables from an artifact path.

use vstd::prelude::*;
use crate::errors::PathError;
use crate::strutil::str_eq;

verus! {

/// Largest artifact, in bytes, that an upload will accept; larger files
/// are skipped with a warning.
pub const MAX_PKG_SIZE: u64 = 100 * 1024 * 1024;

/// Holds exactly when a file of `size` bytes may be uploaded.
pub open spec fn spec_size_ok(size: u64) -> bool {
    size <= MAX_PKG_SIZE
}

/// Decides whether an artifact of `size` bytes is within the upload size
/// limit.
pub fn upload_size_ok(size: u64) -> (r: bool)
    ensures
        r == spec_size_ok(size),
{
    size <= MAX_PKG_SIZE
}

/// What to do with an artifact of a given size.
#[derive(Clone, Copy, Debug, PartialEq, Eq, Structural)]
pub enum UploadPlan {
    /// The artifact is too large: warn and issue no request.
    Skip,
    /// The artifact may be uploaded.
    Proceed,
}

/// Plans an upload: an artifact over the size limit is skipped entirely,
/// before any of its content is read or digested.
pub fn plan_upload(size: u64) -> (r: UploadPlan)
    ensures
        r is Proceed <==> spec_size_ok(size),
{
    if size <= MAX_PKG_SIZE {
        UploadPlan::Proceed
    } else {
        UploadPlan::Skip
    }
}

/// The position of the last `/` of `s`, or `-1` when there is none.
pub open spec fn spec_last_slash(s: Seq<char>) -> int
    decreases s.len(),
{
    if s.len() == 0 {
        -1
    } else if s.last() == '/' {
        s.len() - 1
    } else {
        spec_last_slash(s.drop_last())
    }
}

/// The delete-path variables of an artifact path: `subdir` is the name of
/// the parent directory, `pkg` the file name. A path without both named
/// components is an error; a parent component that is the current- or
/// parent-directory marker (`.` or `..`) is no name.
pub open spec fn spec_delete_vars(s: Seq<char>) -> Result<(Seq<char>, Seq<char>), PathError> {
    let p = spec_last_slash(s);
    if p < 0 {
        Err(PathError::NoParent)
    } else if p == s.len() - 1 {
        Err(PathError::NoFileName)
    } else {
        let pkg = s.subrange(p + 1, s.len() as int);
        let head = s.subrange(0, p);
        let q = spec_last_slash(head);
        let subdir = if q < 0 {
            head
        } else {
            head.subrange(q + 1, head.len() as int)
        };
        if subdir.len() == 0 || subdir == "."@ || subdir == ".."@ {
            Err(PathError::NoParent)
        } else {
            Ok((subdir, pkg))
        }
    }
}

/// Finds the last `/` of `s`.
fn last_slash(s: &str) -> (r: Option<usize>)
    ensures
        (match r {
            Some(p) => spec_last_slash(s@) == p as int && p < s@.len(),
            None => spec_last_slash(s@) == -1,
        }),
{
    let slen = s.unicode_len();
    let mut i: usize = slen;
    proof {
        assert(s@.take(slen as int) =~= s@);
    }
    while i > 0
        invariant
            i <= slen,
            slen == s@.len(),
            spec_last_slash(s@) == spec_last_slash(s@.take(i as int)),
        decreases i,
    {
        i = i - 1;
        proof {
            assert(s@.take(i as int + 1).drop_last() =~= s@.take(i as int));
            assert(s@.take(i as int + 1).last() == s@[i as int]);
        }
        if s.get_char(i) == '/' {
            return Some(i);
        }
    }
    proof {
        assert(s@.take(0) =~= Seq::<char>::empty());
    }
    None
}

/// Derives the delete-path variables from an artifact path.
pub fn derive_delete_vars(path: &str) -> (r: Result<(String, String), PathError>)
    ensures
        (match spec_delete_vars(path@) {
            Ok(sv) => r matches Ok(o) && o.0@ == sv.0 && o.1@ == sv.1,
            Err(e) => r matches Err(e2) && e2 == e,
        }),
{
    let slen = path.unicode_len();
    match last_slash(path) {
        None => Err(PathError::NoParent),
        Some(p) => {
            if p + 1 == slen {
                return Err(PathError::NoFileName);
            }
            let pkg = path.substring_char(p + 1, slen);
            let head = path.substring_char(0, p);
            let subdir = match last_slash(head) {
                None => {
                    if p == 0 {
                        return Err(PathError::NoParent);
                    }
                    head
                },
                Some(q) => {
                    if q + 1 == p {
                        return Err(PathError::NoParent);
                    }
                    head.substring_char(q + 1, p)
                },
            };
            if str_eq(subdir, ".") || str_eq(subdir, "..") {
                return Err(PathError::NoParent);
            }
            Ok((subdir.to_owned(), pkg.to_owned()))
        },
    }
}

} // verus!
