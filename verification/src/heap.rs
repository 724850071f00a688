//! The initial layout of the heap: a sentinel area at each end, each knowing the space
//! between them.
use vstd::prelude::*;
use crate::util::{round_up, round_up_spec};

verus! {

/// The size of a heap area header, in bytes.
pub const HEAP_AREA_SIZE: usize = 64;

/// The header fields of a heap area: the distances to the next and the previous area.
#[derive(Clone, Copy, Debug, PartialEq, Eq, Structural)]
pub struct HeapArea {
    pub next: u64,
    pub prev: u64,
}

/// Where the heap's two sentinel areas stand and what their headers hold.
#[derive(Clone, Copy, Debug, PartialEq, Eq, Structural)]
pub struct HeapInit {
    /// The address of the first area
    pub begin: usize,
    /// The address of the last area
    pub end: usize,
    /// The header of the first area
    pub begin_area: HeapArea,
    /// The header of the last area
    pub end_area: HeapArea,
}

/// The space from `begin` to `end` counted in whole areas (rounded toward zero) and given
/// in bytes; negative where `end` lies before `begin`.
pub open spec fn heap_space(begin: int, end: int) -> int {
    if end >= begin {
        ((end - begin) / 64) * 64
    } else {
        -(((begin - end) / 64) * 64)
    }
}

/// The 64-bit two's complement of `heap_space(begin, end)`, as it stands in a header.
pub open spec fn heap_space_bits(begin: int, end: int) -> u64 {
    if heap_space(begin, end) >= 0 {
        heap_space(begin, end) as u64
    } else {
        (0x1_0000_0000_0000_0000 + heap_space(begin, end)) as u64
    }
}

/// The heap's initial layout, where the program's data ends at `bss_end`, the heap may
/// take `heap_size` bytes past the page that follows, and pages are `page_size` bytes: the
/// first area is the first aligned one after `bss_end`, the last one ends where the heap
/// does, and each records the space between them.
pub fn init(bss_end: usize, heap_size: usize, page_size: usize) -> (h: HeapInit)
    requires
        page_size > 0,
        bss_end + page_size - 1 <= usize::MAX,
        bss_end + HEAP_AREA_SIZE - 1 <= usize::MAX,
        HEAP_AREA_SIZE <= round_up_spec(bss_end as int, page_size as int) + heap_size <= usize::MAX,
    ensures
        h.begin == round_up_spec(bss_end as int, HEAP_AREA_SIZE as int),
        h.end == round_up_spec(bss_end as int, page_size as int) + heap_size - HEAP_AREA_SIZE,
        h.begin_area == (HeapArea { next: heap_space_bits(h.begin as int, h.end as int), prev: 0 }),
        h.end_area == (HeapArea { next: 0, prev: heap_space_bits(h.begin as int, h.end as int) }),
{
    let begin = round_up(bss_end, HEAP_AREA_SIZE);
    let end = round_up(bss_end, page_size) + heap_size - HEAP_AREA_SIZE;
    let space: u64 = if end >= begin {
        ((end - begin) / HEAP_AREA_SIZE * HEAP_AREA_SIZE) as u64
    } else {
        let d: u64 = ((begin - end) / HEAP_AREA_SIZE * HEAP_AREA_SIZE) as u64;
        0u64.wrapping_sub(d)
    };
    HeapInit {
        begin,
        end,
        begin_area: HeapArea { next: space, prev: 0 },
        end_area: HeapArea { next: 0, prev: space },
    }
}

} // verus!

verus! {

/// Where the last area does not lie before the first, the space their headers record is
/// the distance between them in whole areas: a multiple of the area size, at most the
/// distance, and less than one area short of it.
pub proof fn lemma_heap_space_whole_areas(begin: int, end: int)
    requires
        begin <= end,
    ensures
        heap_space(begin, end) % 64 == 0,
        begin + heap_space(begin, end) <= end < begin + heap_space(begin, end) + 64,
{
    vstd::arithmetic::div_mod::lemma_fundamental_div_mod(end - begin, 64);
    vstd::arithmetic::div_mod::lemma_mod_multiples_basic((end - begin) / 64, 64);
}

} // verus!

verus! {

/// Where the last area lies before the first, the headers record the negative distance
/// in whole areas as its 64-bit two's complement: added to that distance it gives 2^64,
/// or 0 when the distance is less than one area.
pub proof fn lemma_heap_space_negative(begin: int, end: int)
    requires
        end < begin,
        begin - end < 0x1_0000_0000_0000_0000,
    ensures
        heap_space(begin, end) == -(((begin - end) / 64) * 64),
        ((begin - end) / 64) * 64 == 0 ==> heap_space_bits(begin, end) == 0,
        ((begin - end) / 64) * 64 > 0 ==> heap_space_bits(begin, end) + ((begin - end) / 64) * 64
            == 0x1_0000_0000_0000_0000,
{
    vstd::arithmetic::div_mod::lemma_fundamental_div_mod(begin - end, 64);
}

} // verus!
