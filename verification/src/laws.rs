//! Properties of the normalization pipeline that hold for every input, stated
//! once and proved against the specification functions the executable
//! contracts use.

use vstd::prelude::*;

use crate::category::spec_find_download_path;
use crate::status::{raw_ok, spec_normalize, RawView};

verus! {

/// A task whose total length is unknown (zero) shows no size, downloaded or
/// percent figure at all.
pub proof fn lemma_zero_length_hides_sizes(v: RawView)
    requires
        raw_ok(v),
        v.completed_length <= v.total_length,
        v.total_length == 0,
    ensures
        spec_normalize(v).size_str is None,
        spec_normalize(v).downloaded_str is None,
        spec_normalize(v).percent_str is None,
{
}

/// A task downloaded to its full length shows exactly one hundred percent.
pub proof fn lemma_full_download_is_hundred_percent(v: RawView)
    requires
        raw_ok(v),
        v.total_length > 0,
        v.completed_length == v.total_length,
    ensures
        spec_normalize(v).percent_str == Some("100%"@),
{
    let t = v.total_length as int;
    assert(t * 100 / t == 100) by {
        vstd::arithmetic::div_mod::lemma_div_by_multiple(100, t);
    }
    assert(crate::strnum::dec_of(100) + "%"@ =~= "100%"@) by {
        reveal_strlit("%");
        reveal_strlit("100%");
        reveal_with_fuel(crate::strnum::dec_of, 4);
    }
}

/// A completed task always shows a remaining time of `0s`, whatever its
/// speed and length say.
pub proof fn lemma_complete_has_zero_eta(v: RawView)
    requires
        raw_ok(v),
        v.completed_length <= v.total_length,
        v.status == Some("complete"@),
    ensures
        spec_normalize(v).eta_str == Some("0s"@),
{
    reveal_strlit("complete");
    reveal_strlit("active");
    reveal_strlit("removed");
    assert("complete"@.len() == 8);
    assert("active"@.len() == 6);
    assert("removed"@.len() == 7);
}

/// The raw `active` status is shown as `downloading`, and the raw `removed`
/// status as `stopped`.
pub proof fn lemma_status_remap(v: RawView)
    requires
        raw_ok(v),
        v.completed_length <= v.total_length,
    ensures
        v.status == Some("active"@) ==> spec_normalize(v).status_label == Some("downloading"@),
        v.status == Some("removed"@) ==> spec_normalize(v).status_label == Some("stopped"@),
{
    reveal_strlit("active");
    reveal_strlit("removed");
    assert("active"@.len() == 6);
    assert("removed"@.len() == 7);
}

/// With subfolder classification off, the destination is the base path
/// unchanged, whatever the file name.
pub proof fn lemma_disabled_keeps_base(name: Seq<char>, base: Seq<char>, subfolder: Seq<char>)
    requires
        subfolder != "yes"@,
    ensures
        spec_find_download_path(name, base, subfolder) == base,
{
}

} // verus!
