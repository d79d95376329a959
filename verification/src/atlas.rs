//! A texture atlas of several square pages. Rectangles are placed by a
//! skyline packer, one per page; a rectangle goes to the first page that has
//! room for it, and a new page is opened when none has.

use vstd::prelude::*;
use rect_packer::DensePacker;

verus! {

/// `rect_packer::DensePacker`, the packer of one page.
#[verifier::external_type_specification]
#[verifier::external_body]
pub struct ExDensePacker(rect_packer::DensePacker);

/// The largest page side that the atlas takes: with it, no sum of a
/// coordinate and a side leaves the 32-bit integers.
pub const PAGE_LIMIT: i32 = 0x3FFF_FFFF;

/// The rectangles that a packer has placed, in the order of placing, each as
/// `(x, y, width, height)`.
pub uninterp spec fn packer_rects(packer: DensePacker) -> Seq<(i32, i32, i32, i32)>;

/// The side of the square that a packer was made for.
pub uninterp spec fn packer_limit(packer: DensePacker) -> i32;

/// Where a packer would place a rectangle of a width and a height, if it has
/// room for one.
pub uninterp spec fn packer_place(packer: DensePacker, w: i32, h: i32) -> Option<(i32, i32)>;

/// `DensePacker::new` for a square: a packer of that side, or of side zero
/// for a negative one, that has placed nothing.
#[verifier::external_body]
fn new_packer(size: i32) -> (r: DensePacker)
    ensures
        packer_limit(r) == (if size < 0 { 0 } else { size }),
        packer_rects(r).len() == 0,
{
    DensePacker::new(size, size)
}

/// `DensePacker::pack` without rotation. The rectangle comes back with the
/// width and height that were asked for, at the place that `packer_place`
/// names, inside the square of the packer, and is then the last of the
/// placed ones. Without room the packer stays as it was. A packer that has
/// placed nothing puts a rectangle that fits its square into the corner.
/// Sides and square are held under `PAGE_LIMIT`, so that no sum in the
/// packer overflows.
#[verifier::external_body]
fn pack_rect(packer: &mut DensePacker, w: i32, h: i32) -> (r: Option<(i32, i32, i32, i32)>)
    requires
        packer_limit(*old(packer)) <= PAGE_LIMIT,
        w <= PAGE_LIMIT,
        h <= PAGE_LIMIT,
    ensures
        packer_limit(*final(packer)) == packer_limit(*old(packer)),
        match r {
            Some((x, y, rw, rh)) => {
                &&& packer_place(*old(packer), w, h) == Some((x, y))
                &&& rw == w && rh == h && w > 0 && h > 0
                &&& 0 <= x && x + w <= packer_limit(*old(packer))
                &&& 0 <= y && y + h <= packer_limit(*old(packer))
                &&& packer_rects(*final(packer)) == packer_rects(*old(packer)).push((x, y, w, h))
            },
            None => packer_place(*old(packer), w, h) is None && *final(packer) == *old(packer),
        },
        packer_rects(*old(packer)).len() == 0 && 0 < w <= packer_limit(*old(packer)) && 0 < h
            <= packer_limit(*old(packer)) ==> r == Some((0i32, 0i32, w, h)),
{
    match packer.pack(w, h, false) {
        Some(rect) => Some((rect.x, rect.y, rect.width, rect.height)),
        None => None,
    }
}

/// Builds an atlas page by page.
pub struct AtlasBuilder {
    max_size: i32,
    packers: Vec<DensePacker>,
}

/// Where a rectangle lies in the atlas.
#[derive(Clone, Copy, Debug, PartialEq, Eq, Structural)]
pub struct AtlasRef {
    /// The page.
    pub atlas_id: u32,
    pub w: i32,
    pub h: i32,
    pub x: i32,
    pub y: i32,
}

/// The first page from `from` on that has room for a rectangle, or the
/// number of pages if none has.
pub open spec fn first_page_with_room(pages: Seq<DensePacker>, from: int, w: i32, h: i32) -> int
    decreases pages.len() - from,
{
    if from < 0 || from >= pages.len() {
        pages.len() as int
    } else if packer_place(pages[from], w, h) is Some {
        from
    } else {
        first_page_with_room(pages, from + 1, w, h)
    }
}

impl AtlasBuilder {
    /// The side of every page.
    pub closed spec fn max_size(&self) -> i32 {
        self.max_size
    }

    /// The packers of the pages, in order.
    pub closed spec fn pages(&self) -> Seq<DensePacker> {
        self.packers@
    }

    /// Every page is a square of side `max_size`.
    pub closed spec fn wf(&self) -> bool {
        forall|i: int|
            0 <= i < self.packers@.len() ==> packer_limit(#[trigger] self.packers@[i])
                == self.max_size
    }

    /// An atlas without pages, each page of which will have the side given.
    pub fn new(max_wh: i32) -> (r: AtlasBuilder)
        ensures
            r.wf(),
            r.max_size() == max_wh,
            r.pages().len() == 0,
    {
        AtlasBuilder { max_size: max_wh, packers: Vec::new() }
    }

    /// How many pages the atlas has.
    pub fn page_count(&self) -> (r: usize)
        ensures
            r == self.pages().len(),
    {
        self.packers.len()
    }

    /// Places a rectangle on the first page that has room for it, or on a
    /// new page, in its corner, if none has. The other pages stay as they
    /// are. The rectangle has to fit a page, and the number of a new page
    /// has to fit the 32 bits of `atlas_id`.
    pub fn add(&mut self, w: i32, h: i32) -> (r: AtlasRef)
        requires
            old(self).wf(),
            old(self).max_size() <= PAGE_LIMIT,
            0 < w <= old(self).max_size(),
            0 < h <= old(self).max_size(),
            old(self).pages().len() < u32::MAX,
        ensures
            final(self).wf(),
            final(self).max_size() == old(self).max_size(),
            r.atlas_id == first_page_with_room(old(self).pages(), 0, w, h),
            r.w == w && r.h == h,
            0 <= r.x && r.x + w <= old(self).max_size(),
            0 <= r.y && r.y + h <= old(self).max_size(),
            r.atlas_id < old(self).pages().len() ==> {
                &&& final(self).pages().len() == old(self).pages().len()
                &&& packer_place(old(self).pages()[r.atlas_id as int], w, h) == Some((r.x, r.y))
                &&& packer_rects(final(self).pages()[r.atlas_id as int]) == packer_rects(
                    old(self).pages()[r.atlas_id as int],
                ).push((r.x, r.y, w, h))
            },
            r.atlas_id == old(self).pages().len() ==> {
                &&& final(self).pages().len() == old(self).pages().len() + 1
                &&& r.x == 0 && r.y == 0
                &&& packer_rects(final(self).pages()[r.atlas_id as int]) == seq![(0i32, 0i32, w, h)]
            },
            forall|j: int|
                0 <= j < old(self).pages().len() && j != r.atlas_id ==> final(self).pages()[j]
                    == old(self).pages()[j],
    {
        let mut i: usize = 0;
        while i < self.packers.len()
            invariant
                i <= self.packers@.len(),
                self.packers@ == old(self).packers@,
                self.max_size == old(self).max_size,
                self.wf(),
                self.max_size <= PAGE_LIMIT,
                0 < w <= self.max_size,
                0 < h <= self.max_size,
                self.packers@.len() < u32::MAX,
                first_page_with_room(old(self).packers@, 0, w, h) == first_page_with_room(
                    old(self).packers@,
                    i as int,
                    w,
                    h,
                ),
            decreases self.packers@.len() - i,
        {
            let placed = pack_rect(&mut self.packers[i], w, h);
            match placed {
                Some((x, y, rw, rh)) => {
                    return AtlasRef { atlas_id: i as u32, w: rw, h: rh, x, y };
                },
                None => {
                    assert(self.packers@ =~= old(self).packers@);
                },
            }
            i += 1;
        }
        let mut page = new_packer(self.max_size);
        let placed = pack_rect(&mut page, w, h);
        assert(packer_rects(page) =~= seq![(0i32, 0i32, w, h)]);
        self.packers.push(page);
        match placed {
            Some((x, y, rw, rh)) => AtlasRef { atlas_id: i as u32, w: rw, h: rh, x, y },
            None => AtlasRef { atlas_id: i as u32, w, h, x: 0, y: 0 },
        }
    }
}

} // verus!
