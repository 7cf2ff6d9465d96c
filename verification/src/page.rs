//! Pagination: selecting one page of an unfiltered row set.

use vstd::prelude::*;

verus! {

/// The page size used when the caller asks for none.
pub const DEFAULT_PAGE_SIZE: u64 = 10;

/// The largest page size served, to keep a single read bounded.
pub const MAX_PAGE_SIZE: u64 = 100;

/// A request for one page of results: 1-indexed page number and page size.
#[derive(Clone, Copy, Debug, PartialEq, Eq, Structural)]
pub struct PageRequest {
    pub page_no: u64,
    pub page_size: u64,
}

impl PageRequest {
    /// A page request the repository accepts: a 1-indexed page number and a
    /// positive page size no larger than the cap.
    pub open spec fn wf(self) -> bool {
        &&& self.page_no >= 1
        &&& 1 <= self.page_size <= MAX_PAGE_SIZE
    }

    /// Brings raw query parameters into range: page 0 means the first page,
    /// size 0 means the default size, and oversized pages are capped.
    pub fn normalize(page_no: u64, page_size: u64) -> (r: PageRequest)
        ensures
            r.wf(),
            r.page_no == if page_no == 0 { 1u64 } else { page_no },
            r.page_size == if page_size == 0 { DEFAULT_PAGE_SIZE } else if page_size
                > MAX_PAGE_SIZE { MAX_PAGE_SIZE } else { page_size },
    {
        let no: u64 = if page_no == 0 { 1 } else { page_no };
        let size: u64 = if page_size == 0 {
            DEFAULT_PAGE_SIZE
        } else if page_size > MAX_PAGE_SIZE {
            MAX_PAGE_SIZE
        } else {
            page_size
        };
        PageRequest { page_no: no, page_size: size }
    }
}

/// The index of the first row of the requested page.
pub open spec fn spec_page_offset(req: PageRequest) -> int {
    (req.page_no - 1) * req.page_size
}

/// The index one past the last row of the requested page, in a row set of
/// `total` rows.
pub open spec fn spec_page_end(req: PageRequest, total: int) -> int {
    if spec_page_offset(req) + req.page_size <= total {
        spec_page_offset(req) + req.page_size
    } else {
        total
    }
}

/// One page of a larger result set, together with the total row count.
#[derive(Clone, Debug, PartialEq)]
pub struct Page<T> {
    pub records: Vec<T>,
    pub total: usize,
    pub page_no: u64,
    pub page_size: u64,
}

/// Selects the requested page out of the full, unfiltered row set — every
/// row is eligible, there is no filter — and reports the total row count.
/// No page carries more than `page_size` rows, and a page past the last
/// non-empty one is empty with the correct total, not an error.
pub fn paginate<T>(rows: Vec<T>, req: &PageRequest) -> (p: Page<T>)
    requires
        req.wf(),
    ensures
        p.page_no == req.page_no,
        p.page_size == req.page_size,
        p.total == rows@.len(),
        p.records@.len() <= req.page_size,
        spec_page_offset(*req) >= rows@.len() ==> p.records@.len() == 0,
        spec_page_offset(*req) < rows@.len() ==> p.records@ == rows@.subrange(
            spec_page_offset(*req),
            spec_page_end(*req, rows@.len() as int),
        ),
{
    let ghost all = rows@;
    let total: usize = rows.len();
    let before: u64 = req.page_no - 1;
    proof {
        assert(before as int * req.page_size as int <= u64::MAX as int * MAX_PAGE_SIZE as int)
            by (nonlinear_arith)
            requires
                before <= u64::MAX,
                req.page_size <= MAX_PAGE_SIZE,
        ;
    }
    let off_wide: u128 = (before as u128) * (req.page_size as u128);
    let mut records: Vec<T> = Vec::new();
    if off_wide < total as u128 {
        proof {
            assert(off_wide == spec_page_offset(*req));
            assert(off_wide < total as u128);
        }
        let off: usize = off_wide as usize;
        let count: usize = if total - off > req.page_size as usize {
            req.page_size as usize
        } else {
            total - off
        };
        proof {
            assert(off + count == spec_page_end(*req, all.len() as int));
            assert(count <= req.page_size);
        }
        let mut rest = rows;
        let mut i: usize = 0;
        while i < count
            invariant
                i <= count,
                off + count <= total,
                total == all.len(),
                rest@ =~= all.subrange(0, off as int) + all.subrange(
                    off + i,
                    all.len() as int,
                ),
                records@ =~= all.subrange(off as int, off + i),
            decreases count - i,
        {
            proof {
                assert(rest@.len() == all.len() - i);
                assert(off < rest@.len());
                assert(rest@[off as int] == all[off + i]);
            }
            let x = rest.remove(off);
            records.push(x);
            i = i + 1;
            proof {
                assert(records@ =~= all.subrange(off as int, off + i));
                assert(rest@ =~= all.subrange(0, off as int) + all.subrange(
                    off + i,
                    all.len() as int,
                ));
            }
        }
        proof {
            assert(records@ =~= all.subrange(
                spec_page_offset(*req),
                spec_page_end(*req, all.len() as int),
            ));
        }
        Page { records, total, page_no: req.page_no, page_size: req.page_size }
    } else {
        proof {
            assert(spec_page_offset(*req) >= total);
        }
        Page { records, total, page_no: req.page_no, page_size: req.page_size }
    }
}

} // verus!
