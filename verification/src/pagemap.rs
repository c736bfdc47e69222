//! The arithmetic of the page-frame resolver.
//!
//! The operating system keeps one eight-byte entry for every page of a
//! process's address space. The low 55 bits of an entry are the number of the
//! physical page frame; the three highest bits are status bits, the highest
//! of them saying that the page is present in memory. To resolve a range of
//! addresses, the entries of the pages that cover it are read one by one.

use crate::bytes::{read_u64, u64_at, ByteOrder};
use vstd::prelude::*;

verus! {

/// Bytes of one entry.
pub const PM_ENTRY_BYTES: usize = 8;

/// Number of status bits.
pub const PM_STATUS_BITS: usize = 3;

/// Position of the lowest status bit.
pub const PM_STATUS_OFFSET: usize = 61;

/// The status bits.
pub const PM_STATUS_MASK: i64 = -0x2000_0000_0000_0000;

/// Number of bits of the page shift field.
pub const PM_PSHIFT_BITS: usize = 6;

/// Position of the lowest bit of the page shift field.
pub const PM_PSHIFT_OFFSET: usize = 55;

/// The bits of the page shift field.
pub const PM_PSHIFT_MASK: i64 = 0x1F80_0000_0000_0000;

/// The bits of the page frame number.
pub const PM_PFRAME_MASK: i64 = 0x007F_FFFF_FFFF_FFFF;

/// Status of a page that is present in memory.
pub const PM_PRESENT: i64 = i64::MIN;

/// Status of a page that is swapped out.
pub const PM_SWAP: i64 = 0x4000_0000_0000_0000;

/// One more than the largest page frame number.
pub const PFN_LIMIT: u64 = 0x0080_0000_0000_0000;

/// Why a range could not be resolved.
#[derive(Clone, Copy, Debug, PartialEq, Eq, Structural)]
pub enum PagemapError {
    /// Pages of no bytes cover nothing.
    ZeroPageSize,
    /// The range has more pages than a length can say.
    TooManyPages,
    /// An entry lies beyond the end of the entry table.
    OffsetOverflow,
    /// The bytes end before the last entry does.
    ShortRead,
}

/// The status `nr` in its place in an entry.
pub open spec fn pm_status_spec(nr: i64) -> i64 {
    (nr << 61usize) & PM_STATUS_MASK
}

/// The page shift `x` in its place in an entry.
pub open spec fn pm_pshift_spec(x: i64) -> i64 {
    (x << 55usize) & PM_PSHIFT_MASK
}

/// The page frame number of the entry `x`.
pub open spec fn pm_pframe_spec(x: i64) -> i64 {
    x & PM_PFRAME_MASK
}

/// The page frame number of an entry: its low 55 bits.
pub open spec fn pfn_spec(raw: u64) -> u64 {
    raw % PFN_LIMIT
}

/// Whether an entry says that its page is present: its highest bit.
pub open spec fn present_spec(raw: u64) -> bool {
    raw >= 0x8000_0000_0000_0000
}

/// Pages that cover `length` bytes.
pub open spec fn page_count_spec(length: u64, page_size: u64) -> int {
    if length % page_size == 0 {
        length as int / page_size as int
    } else {
        length as int / page_size as int + 1
    }
}

/// Where the entry of page `page` of the range that starts at `virt_addr`
/// stands in the entry table.
pub open spec fn entry_offset_spec(virt_addr: u64, page_size: u64, page: int) -> int {
    (virt_addr as int / page_size as int + page) * PM_ENTRY_BYTES
}

/// The offsets of the entries to read for the range of `length` bytes that
/// starts at `virt_addr`.
pub open spec fn entry_offsets_spec(virt_addr: u64, length: u64, page_size: u64) -> Result<
    Seq<u64>,
    PagemapError,
> {
    let pages = page_count_spec(length, page_size);
    if page_size == 0 {
        Err(PagemapError::ZeroPageSize)
    } else if pages > usize::MAX {
        Err(PagemapError::TooManyPages)
    } else if pages > 0 && entry_offset_spec(virt_addr, page_size, pages - 1) > u64::MAX {
        Err(PagemapError::OffsetOverflow)
    } else {
        Ok(Seq::new(pages as nat, |i: int| entry_offset_spec(virt_addr, page_size, i) as u64))
    }
}

/// The page frame numbers in the first `count` entries of `data`.
pub open spec fn decode_entries_spec(order: ByteOrder, data: Seq<u8>, count: nat) -> Result<
    Seq<u64>,
    PagemapError,
> {
    if data.len() < count * PM_ENTRY_BYTES {
        Err(PagemapError::ShortRead)
    } else {
        Ok(Seq::new(count, |i: int| pfn_spec(u64_at(order, data, PM_ENTRY_BYTES * i))))
    }
}

/// The mathematical value of a list of numbers or an error.
pub open spec fn list_view(r: Result<Vec<u64>, PagemapError>) -> Result<Seq<u64>, PagemapError> {
    match r {
        Ok(list) => Ok(list@),
        Err(e) => Err(e),
    }
}

/// The named statuses are the status numbers 4 and 2 in their place.
pub proof fn lemma_status_values()
    ensures
        PM_PRESENT == pm_status_spec(4),
        PM_SWAP == pm_status_spec(2),
        PM_STATUS_MASK == pm_status_spec(7),
        PM_PSHIFT_MASK == pm_pshift_spec(63),
        PM_PFRAME_MASK == PFN_LIMIT - 1,
{
    assert(((4i64 << 61usize) & -0x2000_0000_0000_0000i64) == -0x8000_0000_0000_0000i64)
        by (bit_vector);
    assert(((2i64 << 61usize) & -0x2000_0000_0000_0000i64) == 0x4000_0000_0000_0000i64)
        by (bit_vector);
    assert(((7i64 << 61usize) & -0x2000_0000_0000_0000i64) == -0x2000_0000_0000_0000i64)
        by (bit_vector);
    assert(((63i64 << 55usize) & 0x1F80_0000_0000_0000i64) == 0x1F80_0000_0000_0000i64)
        by (bit_vector);
}

/// The pages that cover a range hold all of its bytes and less than one page
/// more; they hold exactly its bytes where its length is a whole number of
/// pages.
pub proof fn lemma_page_count_covers(length: u64, page_size: u64)
    requires
        page_size > 0,
    ensures
        length <= page_count_spec(length, page_size) * page_size < length + page_size,
        length % page_size == 0 ==> page_count_spec(length, page_size) * page_size == length,
        page_count_spec(length, page_size) >= 0,
        length > 0 ==> page_count_spec(length, page_size) > 0,
{
    let q = length as int / page_size as int;
    let r = length as int % page_size as int;
    assert(length == q * page_size + r && 0 <= r < page_size && q >= 0) by (nonlinear_arith)
        requires
            page_size > 0,
            q == length as int / page_size as int,
            r == length as int % page_size as int,
            length >= 0,
    ;
    assert((q + 1) * page_size == q * page_size + page_size) by (nonlinear_arith);
    assert(length > 0 && r == 0 ==> q > 0) by (nonlinear_arith)
        requires
            length == q * page_size + r,
            page_size > 0,
    ;
}

/// A length that is no whole number of pages has fewer whole pages than any
/// number can say.
proof fn lemma_ragged_quotient(length: u64, page_size: u64)
    requires
        page_size > 0,
        length % page_size != 0,
    ensures
        length / page_size < u64::MAX,
{
    let q = length as int / page_size as int;
    let r = length as int % page_size as int;
    assert(q < length) by (nonlinear_arith)
        requires
            page_size > 0,
            q == length as int / page_size as int,
            r == length as int % page_size as int,
            r != 0,
            length >= 0,
    ;
}

/// The status `nr` in its place in an entry.
#[allow(non_snake_case)]
pub fn PM_STATUS(nr: i64) -> (r: i64)
    ensures
        r == pm_status_spec(nr),
{
    (nr << PM_STATUS_OFFSET) & PM_STATUS_MASK
}

/// The page shift `x` in its place in an entry.
#[allow(non_snake_case)]
pub fn PM_PSHIFT(x: i64) -> (r: i64)
    ensures
        r == pm_pshift_spec(x),
{
    (x << PM_PSHIFT_OFFSET) & PM_PSHIFT_MASK
}

/// The page frame number of the entry `x`.
#[allow(non_snake_case)]
pub fn PM_PFRAME(x: i64) -> (r: i64)
    ensures
        r == pm_pframe_spec(x),
        0 <= r < PFN_LIMIT,
{
    assert(0 <= (x & 0x007F_FFFF_FFFF_FFFFi64) < 0x0080_0000_0000_0000) by (bit_vector);
    x & PM_PFRAME_MASK
}

/// The page frame number of the entry `raw`.
pub fn entry_pfn(raw: u64) -> (pfn: u64)
    ensures
        pfn == pfn_spec(raw),
        pfn as i64 == pm_pframe_spec(raw as i64),
        pfn < PFN_LIMIT,
{
    assert(raw & 0x007F_FFFF_FFFF_FFFFu64 == raw % 0x0080_0000_0000_0000) by (bit_vector);
    assert(((raw & 0x007F_FFFF_FFFF_FFFFu64) as i64) == ((raw as i64) & 0x007F_FFFF_FFFF_FFFFi64))
        by (bit_vector);
    raw & 0x007F_FFFF_FFFF_FFFF
}

/// Whether the entry `raw` says that its page is present in memory.
pub fn entry_present(raw: u64) -> (present: bool)
    ensures
        present == present_spec(raw),
        present == (pm_status_spec(4) & (raw as i64) != 0),
{
    assert((raw >= 0x8000_0000_0000_0000u64) == ((((4i64 << 61usize) & -0x2000_0000_0000_0000i64)
        & (raw as i64)) != 0)) by (bit_vector);
    raw >= 0x8000_0000_0000_0000
}

/// Pages that cover `length` bytes.
pub fn page_count(length: u64, page_size: u64) -> (pages: u64)
    requires
        page_size > 0,
    ensures
        pages == page_count_spec(length, page_size),
{
    if length % page_size == 0 {
        length / page_size
    } else {
        proof {
            lemma_ragged_quotient(length, page_size);
        }
        length / page_size + 1
    }
}

/// The offsets in the entry table of the entries of the pages that cover the
/// `length` bytes from `virt_addr` on, in the order of the pages.
pub fn entry_offsets(virt_addr: u64, length: u64, page_size: u64) -> (r: Result<
    Vec<u64>,
    PagemapError,
>)
    ensures
        list_view(r) == entry_offsets_spec(virt_addr, length, page_size),
{
    if page_size == 0 {
        return Err(PagemapError::ZeroPageSize);
    }
    let pages: u64 = page_count(length, page_size);
    if pages > usize::MAX as u64 {
        return Err(PagemapError::TooManyPages);
    }
    let first: u64 = virt_addr / page_size;
    if pages > 0 {
        let fits = match first.checked_add(pages - 1) {
            Some(last) => last.checked_mul(8).is_some(),
            None => false,
        };
        if !fits {
            return Err(PagemapError::OffsetOverflow);
        }
    }
    let mut offsets: Vec<u64> = Vec::new();
    let mut i: u64 = 0;
    while i < pages
        invariant
            i <= pages,
            page_size > 0,
            first == virt_addr / page_size,
            pages > 0 ==> (first + pages - 1) * 8 <= u64::MAX,
            offsets@.len() == i,
            forall|j: int|
                0 <= j < i ==> offsets@[j] == entry_offset_spec(virt_addr, page_size, j) as u64,
        decreases pages - i,
    {
        offsets.push((first + i) * 8);
        i = i + 1;
    }
    assert(offsets@ =~= Seq::new(
        pages as nat,
        |i: int| entry_offset_spec(virt_addr, page_size, i) as u64,
    ));
    Ok(offsets)
}

/// The page frame numbers in the first `count` entries of `data`, which
/// holds the entries one after the other as they were read.
pub fn decode_entries(order: ByteOrder, data: &[u8], count: usize) -> (r: Result<
    Vec<u64>,
    PagemapError,
>)
    ensures
        list_view(r) == decode_entries_spec(order, data@, count as nat),
{
    let total: usize = data.len();
    if total / PM_ENTRY_BYTES < count {
        return Err(PagemapError::ShortRead);
    }
    let mut pfns: Vec<u64> = Vec::new();
    let mut i: usize = 0;
    while i < count
        invariant
            i <= count,
            total == data@.len(),
            count * PM_ENTRY_BYTES <= total,
            pfns@.len() == i,
            forall|j: int|
                0 <= j < i ==> pfns@[j] == pfn_spec(u64_at(order, data@, PM_ENTRY_BYTES * j)),
        decreases count - i,
    {
        let raw: u64 = read_u64(order, data, PM_ENTRY_BYTES * i);
        pfns.push(entry_pfn(raw));
        i = i + 1;
    }
    assert(pfns@ =~= Seq::new(
        count as nat,
        |i: int| pfn_spec(u64_at(order, data@, PM_ENTRY_BYTES * i)),
    ));
    Ok(pfns)
}

} // verus!
