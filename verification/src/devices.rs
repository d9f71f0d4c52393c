//! Input-device descriptors and selector matching.
//!
//! The shell enumerates the host's input devices and hands their names to the
//! engine; the engine picks the first device whose display name contains the
//! requested selector as a case-insensitive substring, falling back to the
//! host's default input device, and failing with `NoDeviceFound` when neither
//! yields a device.

use vstd::prelude::*;
use vstd::string::StrSliceExecFns;

use crate::CaptureError;

verus! {

/// An immutable snapshot of one enumerable input device. Identity is the
/// device name; the id mirrors it.
#[derive(Clone, Debug)]
pub struct AudioDevice {
    pub id: String,
    pub name: String,
}

/// `needle` occurs in `hay` starting at position `i`.
pub open spec fn occurs_at(hay: Seq<char>, needle: Seq<char>, i: int) -> bool {
    0 <= i && i + needle.len() <= hay.len() && hay.subrange(i, i + needle.len() as int) == needle
}

/// `needle` is a contiguous substring of `hay`.
pub open spec fn is_substring(needle: Seq<char>, hay: Seq<char>) -> bool {
    exists|i: int| occurs_at(hay, needle, i)
}

/// What Unicode lowercasing returns for a sequence of characters.
pub uninterp spec fn fold_case(s: Seq<char>) -> Seq<char>;

/// Relies on str::to_lowercase: the lowercase mapping of the string,
/// depending on its characters alone.
#[verifier::external_body]
fn fold_lower(s: &str) -> (r: String)
    ensures
        r@ == fold_case(s@),
{
    s.to_lowercase()
}

/// The device name matches the selector: the lowercased selector is a
/// substring of the lowercased name.
pub open spec fn selector_matches(name: Seq<char>, selector: Seq<char>) -> bool {
    is_substring(fold_case(selector), fold_case(name))
}

/// Whether `needle` occurs in `hay` starting exactly at position `i`.
fn occurs_here(hay: &str, needle: &str, i: usize) -> (r: bool)
    requires
        i + needle@.len() <= hay@.len(),
        hay@.len() <= usize::MAX,
    ensures
        r == occurs_at(hay@, needle@, i as int),
{
    let n = needle.unicode_len();
    let mut k: usize = 0;
    while k < n
        invariant
            n == needle@.len(),
            i + n <= hay@.len(),
            hay@.len() <= usize::MAX,
            0 <= k <= n,
            forall|j: int| 0 <= j < k ==> hay@[i + j] == needle@[j],
        decreases n - k,
    {
        if hay.get_char(i + k) != needle.get_char(k) {
            proof {
                assert(hay@.subrange(i as int, i + n as int)[k as int] == hay@[i + k]);
            }
            return false;
        }
        k += 1;
    }
    proof {
        assert(hay@.subrange(i as int, i + n as int) =~= needle@);
    }
    true
}

/// Whether `needle` is a contiguous substring of `hay`, by characters.
fn contains_chars(hay: &str, needle: &str) -> (r: bool)
    ensures
        r == is_substring(needle@, hay@),
{
    let n = needle.unicode_len();
    let h = hay.unicode_len();
    if n > h {
        return false;
    }
    if n == 0 {
        proof {
            assert(occurs_at(hay@, needle@, 0)) by {
                assert(hay@.subrange(0, 0) =~= needle@);
            }
        }
        return true;
    }
    let mut i: usize = 0;
    loop
        invariant
            n == needle@.len(),
            h == hay@.len(),
            1 <= n <= h,
            0 <= i <= h - n + 1,
            forall|j: int| 0 <= j < i ==> !occurs_at(hay@, needle@, j),
        decreases h - n + 1 - i,
    {
        if i > h - n {
            return false;
        }
        if occurs_here(hay, needle, i) {
            return true;
        }
        i += 1;
    }
}

/// Case-insensitive substring match of a selector against a device's display
/// name: true exactly when the lowercased selector occurs contiguously in
/// the lowercased name.
pub fn matches_selector(name: &str, selector: &str) -> (r: bool)
    ensures
        r == selector_matches(name@, selector@),
{
    let folded_name = fold_lower(name);
    let folded_selector = fold_lower(selector);
    contains_chars(folded_name.as_str(), folded_selector.as_str())
}

/// The position of the first device whose name matches the selector, or -1
/// when none does.
pub open spec fn first_matching_index(devices: Seq<AudioDevice>, sel: Seq<char>) -> int
    decreases devices.len(),
{
    if devices.len() == 0 {
        -1
    } else if selector_matches(devices[0].name@, sel) {
        0
    } else {
        let rest = first_matching_index(devices.drop_first(), sel);
        if rest == -1 {
            -1
        } else {
            rest + 1
        }
    }
}

/// `first_matching_index` names the first match: when it is -1 no device
/// matches, and otherwise it points at a matching device before which none
/// matches.
pub proof fn lemma_first_matching_index(devices: Seq<AudioDevice>, sel: Seq<char>)
    ensures
        first_matching_index(devices, sel) == -1 ==> forall|j: int|
            0 <= j < devices.len() ==> !selector_matches(#[trigger] devices[j].name@, sel),
        first_matching_index(devices, sel) != -1 ==> {
            let m = first_matching_index(devices, sel);
            &&& 0 <= m < devices.len()
            &&& selector_matches(devices[m].name@, sel)
            &&& forall|j: int|
                0 <= j < m ==> !selector_matches(#[trigger] devices[j].name@, sel)
        },
    decreases devices.len(),
{
    if devices.len() == 0 {
    } else if selector_matches(devices[0].name@, sel) {
    } else {
        let rest = devices.drop_first();
        lemma_first_matching_index(rest, sel);
        let mr = first_matching_index(rest, sel);
        if mr == -1 {
            assert forall|j: int|
                0 <= j < devices.len() implies !selector_matches(
                #[trigger] devices[j].name@,
                sel,
            ) by {
                if j > 0 {
                    assert(devices[j] == rest[j - 1]);
                }
            }
        } else {
            assert(devices[mr + 1] == rest[mr]);
            assert forall|j: int|
                0 <= j < mr + 1 implies !selector_matches(#[trigger] devices[j].name@, sel) by {
                if j > 0 {
                    assert(devices[j] == rest[j - 1]);
                }
            }
        }
    }
}

/// The selector as the contract sees it: the characters of the string, if
/// one was given.
pub open spec fn selector_view(selector: Option<String>) -> Option<Seq<char>> {
    match selector {
        Some(s) => Some(s@),
        None => None,
    }
}

/// What device selection returns: the first device whose name matches the
/// selector; failing that — or with no selector — the host's default input
/// device; failing both, `NoDeviceFound`.
pub open spec fn device_choice(
    devices: Seq<AudioDevice>,
    selector: Option<Seq<char>>,
    default_index: Option<usize>,
) -> Result<usize, CaptureError> {
    let m = match selector {
        Some(sel) => first_matching_index(devices, sel),
        None => -1,
    };
    if m >= 0 {
        Ok(m as usize)
    } else {
        match default_index {
            Some(d) => Ok(d),
            None => Err(CaptureError::NoDeviceFound),
        }
    }
}

/// Pick the input device for a session: with a selector, the first device
/// whose name matches it case-insensitively; otherwise — or when nothing
/// matches — the host's default input device; `NoDeviceFound` when neither
/// yields a device. Returns the index of the chosen device.
pub fn select_device(
    devices: &Vec<AudioDevice>,
    selector: &Option<String>,
    default_index: Option<usize>,
) -> (r: Result<usize, CaptureError>)
    requires
        default_index matches Some(d) ==> d < devices@.len(),
    ensures
        r == device_choice(devices@, selector_view(*selector), default_index),
{
    if let Some(sel) = selector {
        let mut i: usize = 0;
        while i < devices.len()
            invariant
                (*selector) == Some(*sel),
                i <= devices@.len(),
                forall|j: int| 0 <= j < i ==> !selector_matches(#[trigger] devices@[j].name@, sel@),
            decreases devices@.len() - i,
        {
            if matches_selector(devices[i].name.as_str(), sel.as_str()) {
                proof {
                    lemma_first_matching_index(devices@, sel@);
                }
                return Ok(i);
            }
            i += 1;
        }
        proof {
            lemma_first_matching_index(devices@, sel@);
        }
    }
    match default_index {
        Some(d) => Ok(d),
        None => Err(CaptureError::NoDeviceFound),
    }
}

/// Turn the device names the host reports into descriptors, in order; the
/// name doubles as the identifier.
pub fn descriptors_from_names(names: &Vec<String>) -> (r: Vec<AudioDevice>)
    ensures
        r@.len() == names@.len(),
        forall|i: int|
            0 <= i < names@.len() ==> #[trigger] r@[i].id@ == names@[i]@ && r@[i].name@
                == names@[i]@,
{
    let mut out: Vec<AudioDevice> = Vec::new();
    let mut i: usize = 0;
    while i < names.len()
        invariant
            i <= names@.len(),
            out@.len() == i,
            forall|j: int|
                0 <= j < i ==> #[trigger] out@[j].id@ == names@[j]@ && out@[j].name@
                    == names@[j]@,
        decreases names@.len() - i,
    {
        let name = names[i].clone();
        let id = names[i].clone();
        out.push(AudioDevice { id, name });
        i += 1;
    }
    out
}

} // verus!
