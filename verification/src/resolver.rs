use vstd::prelude::*;
use vstd::string::StrSliceExecFns;

verus! {

/// Target pixel dimensions for one quality tier.
#[derive(Clone, Copy, PartialEq, Eq, Structural, Debug)]
pub struct Resolution {
    pub width: u32,
    pub height: u32,
}

/// The fixed resolution ladder: the dimensions each recognized tier label
/// stands for, and `None` for an unrecognized label.
pub open spec fn tier_dims(label: Seq<char>) -> Option<Resolution> {
    if label == "4K"@ {
        Some(Resolution { width: 3840, height: 2160 })
    } else if label == "1080p"@ {
        Some(Resolution { width: 1920, height: 1080 })
    } else if label == "720p"@ {
        Some(Resolution { width: 1280, height: 720 })
    } else if label == "480p"@ {
        Some(Resolution { width: 854, height: 480 })
    } else {
        None
    }
}

/// Dimensions of the smallest tier, the fallback for unrecognized labels.
pub open spec fn fallback_dims() -> Resolution {
    Resolution { width: 854, height: 480 }
}

/// Label resolution with the silent fallback: an unrecognized label resolves
/// to the smallest tier's dimensions rather than erroring.
pub open spec fn spec_resolve(label: Seq<char>) -> Resolution {
    match tier_dims(label) {
        Some(r) => r,
        None => fallback_dims(),
    }
}

/// The upscaling policy: a tier is skipped when its target exceeds the
/// source in either axis.
pub open spec fn spec_skip(target: Resolution, src_w: u32, src_h: u32) -> bool {
    target.width > src_w || target.height > src_h
}

/// Character-by-character equality of two string slices.
pub fn str_eq(a: &str, b: &str) -> (r: bool)
    ensures
        r == (a@ == b@),
{
    let alen = a.unicode_len();
    let blen = b.unicode_len();
    if alen != blen {
        return false;
    }
    let mut i: usize = 0;
    while i < alen
        invariant
            0 <= i <= alen,
            alen == a@.len(),
            alen == b@.len(),
            forall|j: int| 0 <= j < i ==> a@[j] == b@[j],
        decreases alen - i,
    {
        if a.get_char(i) != b.get_char(i) {
            return false;
        }
        i += 1;
    }
    proof {
        assert(a@ =~= b@);
    }
    true
}

impl Resolution {
    /// Looks a tier label up in the fixed ladder.
    pub fn from_string(res: &str) -> (r: Option<Resolution>)
        ensures
            r == tier_dims(res@),
    {
        if str_eq(res, "4K") {
            Some(Resolution { width: 3840, height: 2160 })
        } else if str_eq(res, "1080p") {
            Some(Resolution { width: 1920, height: 1080 })
        } else if str_eq(res, "720p") {
            Some(Resolution { width: 1280, height: 720 })
        } else if str_eq(res, "480p") {
            Some(Resolution { width: 854, height: 480 })
        } else {
            None
        }
    }
}

/// Resolves a tier label, substituting the smallest tier's dimensions for an
/// unrecognized one; never fails.
pub fn resolve_target(label: &str) -> (r: Resolution)
    ensures
        r == spec_resolve(label@),
{
    match Resolution::from_string(label) {
        Some(r) => r,
        None => Resolution { width: 854, height: 480 },
    }
}

/// The upscaling check as executable code.
pub fn should_skip(target: &Resolution, source_width: u32, source_height: u32) -> (r: bool)
    ensures
        r == spec_skip(*target, source_width, source_height),
{
    target.width > source_width || target.height > source_height
}

/// Every valid tier label resolves to the fixed pair of the canonical table,
/// and to nothing else.
pub proof fn lemma_ladder_table()
    ensures
        tier_dims("4K"@) == Some(Resolution { width: 3840, height: 2160 }),
        tier_dims("1080p"@) == Some(Resolution { width: 1920, height: 1080 }),
        tier_dims("720p"@) == Some(Resolution { width: 1280, height: 720 }),
        tier_dims("480p"@) == Some(Resolution { width: 854, height: 480 }),
{
    reveal_strlit("4K");
    reveal_strlit("1080p");
    reveal_strlit("720p");
    reveal_strlit("480p");
    assert("4K"@.len() == 2);
    assert("1080p"@.len() == 5);
    assert("720p"@.len() == 4);
    assert("480p"@.len() == 4);
    assert("720p"@[0] == '7');
    assert("480p"@[0] == '4');
}

/// An unrecognized label never errors: it resolves to the smallest tier's
/// dimensions.
pub proof fn lemma_unknown_label_falls_back(label: Seq<char>)
    requires
        tier_dims(label) is None,
    ensures
        spec_resolve(label) == fallback_dims(),
{
}

} // verus!
