//! Recognising the touch strip among the input devices by its name.

use vstd::prelude::*;

verus! {

/// The bytes of `" Touch Bar"`, which the name of the touch strip contains.
pub open spec fn spec_marker() -> Seq<u8> {
    seq![0x20u8, 0x54u8, 0x6fu8, 0x75u8, 0x63u8, 0x68u8, 0x20u8, 0x42u8, 0x61u8, 0x72u8]
}

/// Whether `needle` stands in `hay` at offset `at`.
pub open spec fn spec_occurs_at(hay: Seq<u8>, needle: Seq<u8>, at: int) -> bool {
    &&& 0 <= at
    &&& at + needle.len() <= hay.len()
    &&& hay.subrange(at, at + needle.len()) == needle
}

/// Whether `needle` stands somewhere in `hay`.
pub open spec fn spec_contains(hay: Seq<u8>, needle: Seq<u8>) -> bool {
    exists|at: int| spec_occurs_at(hay, needle, at)
}

/// Whether `needle` stands in `hay` at offset `at`.
pub fn occurs_at(hay: &[u8], needle: &[u8], at: usize) -> (r: bool)
    requires
        at + needle@.len() <= hay@.len(),
    ensures
        r == spec_occurs_at(hay@, needle@, at as int),
{
    let total: usize = hay.len();
    let mut k: usize = 0;
    while k < needle.len()
        invariant
            total == hay@.len(),
            k <= needle@.len(),
            at + needle@.len() <= hay@.len(),
            forall|j: int| 0 <= j < k ==> hay@[at + j] == needle@[j],
        decreases needle@.len() - k,
    {
        if hay[at + k] != needle[k] {
            proof {
                let sub = hay@.subrange(at as int, at + needle@.len());
                assert(sub[k as int] == hay@[at + k]);
            }
            return false;
        }
        k += 1;
    }
    assert(hay@.subrange(at as int, at + needle@.len()) =~= needle@);
    true
}

/// Whether `needle` stands somewhere in `hay`.
pub fn contains_bytes(hay: &[u8], needle: &[u8]) -> (r: bool)
    ensures
        r == spec_contains(hay@, needle@),
{
    if needle.len() > hay.len() {
        return false;
    }
    let last: usize = hay.len() - needle.len();
    if needle.len() == 0 {
        assert(hay@.subrange(0, 0) =~= needle@);
        assert(spec_occurs_at(hay@, needle@, 0));
        return true;
    }
    let mut at: usize = 0;
    while at <= last
        invariant
            last + needle@.len() == hay@.len(),
            needle@.len() > 0,
            hay@.len() <= usize::MAX,
            at <= last + 1,
            forall|j: int| 0 <= j < at ==> !spec_occurs_at(hay@, needle@, j),
        decreases last + 1 - at,
    {
        if occurs_at(hay, needle, at) {
            return true;
        }
        at += 1;
    }
    false
}

/// Whether a device of this name, given as UTF-8 bytes, is the touch strip.
pub fn names_touch_bar(name: &[u8]) -> (r: bool)
    ensures
        r == spec_contains(name@, spec_marker()),
{
    let marker: [u8; 10] = [0x20, 0x54, 0x6f, 0x75, 0x63, 0x68, 0x20, 0x42, 0x61, 0x72];
    assert(marker@ =~= spec_marker());
    contains_bytes(name, marker.as_slice())
}

} // verus!
