use vstd::prelude::*;
use vstd::string::{StrSliceExecFns, StringExecFns};

use crate::process::same_text;

verus! {

/// The `len` characters of `hay` from position `at`.
pub open spec fn window(hay: Seq<char>, at: int, len: int) -> Seq<char> {
    hay.subrange(at, at + len)
}

/// Whether `needle` occurs in `hay`.
pub open spec fn occurs_in(hay: Seq<char>, needle: Seq<char>) -> bool {
    exists|i: int| 0 <= i <= hay.len() - needle.len() && #[trigger] window(hay, i, needle.len() as int) == needle
}

/// The board model on macOS: the hardware model, marked as a Hackintosh when
/// the loaded kernel extensions include an SMC emulator.
pub open spec fn model_description(hw_model: Seq<char>, kext_listing: Seq<char>) -> Seq<char> {
    if occurs_in(kext_listing, "FakeSMC"@) || occurs_in(kext_listing, "VirtualSMC"@) {
        "Hackintosh (SMBIOS: "@ + hw_model + ")"@
    } else {
        hw_model
    }
}

/// Whether `needle` occurs in `hay`.
pub fn contains_text(hay: &str, needle: &str) -> (r: bool)
    ensures
        r == occurs_in(hay@, needle@),
{
    let n = hay.unicode_len();
    let m = needle.unicode_len();
    if m > n {
        return false;
    }
    if m == 0 {
        assert(window(hay@, 0, 0) =~= needle@);
        return true;
    }
    let mut i: usize = 0;
    while i <= n - m
        invariant
            n == hay@.len(),
            m == needle@.len(),
            1 <= m <= n,
            i <= n - m + 1,
            forall|k: int| 0 <= k < i ==> #[trigger] window(hay@, k, m as int) != needle@,
        decreases n - m + 1 - i,
    {
        if same_text(hay.substring_char(i, i + m), needle) {
            assert(window(hay@, i as int, m as int) == needle@);
            return true;
        }
        i = i + 1;
    }
    proof {
        assert forall|k: int| 0 <= k <= hay@.len() - needle@.len() implies #[trigger] window(
            hay@,
            k,
            needle@.len() as int,
        ) != needle@ by {
            assert(k < i);
        }
    }
    false
}

/// Describes the board model on macOS from the output of `sysctl -n hw.model`
/// and of `kextstat`.
pub fn get_model(hw_model: &str, kext_listing: &str) -> (r: String)
    ensures
        r@ == model_description(hw_model@, kext_listing@),
{
    if contains_text(kext_listing, "FakeSMC") || contains_text(kext_listing, "VirtualSMC") {
        let mut r = String::from_str("Hackintosh (SMBIOS: ");
        r.append(hw_model);
        r.append(")");
        r
    } else {
        String::from_str(hw_model)
    }
}

} // verus!
