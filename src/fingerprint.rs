use vstd::prelude::*;
use vstd::utf8::encode_utf8;
use crate::words::{trim, trim_of};

verus! {

/// The lower-case hexadecimal MD5 digest of a byte sequence.
pub uninterp spec fn md5_hex_of(data: Seq<u8>) -> Seq<char>;

/// Relies on `md5::compute` and the digest's `LowerHex` format: sixteen bytes,
/// two lower-case hexadecimal digits each; the digest depends on the bytes alone.
#[verifier::external_body]
pub(crate) fn md5_hex(data: &[u8]) -> (r: String)
    ensures
        r@ == md5_hex_of(data@),
        r@.len() == 32,
{
    format!("{:x}", md5::compute(data))
}

/// The pair that ties cached repository-derived data to a repository state:
/// the head commit identifier and the digest of the working-tree status text.
/// Either part is absent where the query that gives it failed.
#[derive(Clone, Debug)]
pub struct Fingerprint {
    pub commit: Option<String>,
    pub working_tree: Option<String>,
}

pub open spec fn opt_view(o: Option<String>) -> Option<Seq<char>> {
    match o {
        Some(s) => Some(s@),
        None => None,
    }
}

/// The fingerprint that the outputs of the head query and the status query give.
pub open spec fn spec_fingerprint_of(
    head_output: Option<Seq<char>>,
    status_output: Option<Seq<char>>,
) -> (Option<Seq<char>>, Option<Seq<char>>) {
    (
        match head_output {
            Some(h) => Some(trim_of(h)),
            None => None,
        },
        match status_output {
            Some(s) => Some(md5_hex_of(encode_utf8(s))),
            None => None,
        },
    )
}

impl Fingerprint {
    pub open spec fn view_pair(&self) -> (Option<Seq<char>>, Option<Seq<char>>) {
        (opt_view(self.commit), opt_view(self.working_tree))
    }

    /// Computes the fingerprint from the output of the head query (`None` where
    /// it failed) and the output of the status query (`None` where it failed):
    /// the trimmed commit identifier and the MD5 digest of the status text.
    pub fn from_outputs(head_output: Option<&str>, status_output: Option<&str>) -> (r: Fingerprint)
        ensures
            r.view_pair() == spec_fingerprint_of(
                match head_output { Some(h) => Some(h@), None => None },
                match status_output { Some(s) => Some(s@), None => None },
            ),
    {
        let commit = match head_output {
            Some(h) => Some(trim(h)),
            None => None,
        };
        let working_tree = match status_output {
            Some(s) => Some(md5_hex(s.as_bytes())),
            None => None,
        };
        Fingerprint { commit, working_tree }
    }
}

/// A copy of an optional text.
pub fn copy_text(o: &Option<String>) -> (r: Option<String>)
    ensures
        opt_view(r) == opt_view(*o),
{
    match o {
        Some(s) => Some(s.clone()),
        None => None,
    }
}

/// Whether two optional texts are equal.
pub fn same_text(a: &Option<String>, b: &Option<String>) -> (r: bool)
    ensures
        r == (opt_view(*a) == opt_view(*b)),
{
    match a {
        Some(x) => match b {
            Some(y) => x.eq(y),
            None => false,
        },
        None => b.is_none(),
    }
}

} // verus!
