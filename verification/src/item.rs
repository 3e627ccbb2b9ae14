use vstd::prelude::*;
use crate::iter::Ordering;

verus! {

/// One pixel crossing the boundary: red, green, blue, alpha.
#[derive(Debug, PartialEq, Eq)]
pub struct Rgba {
    pub r: u8,
    pub g: u8,
    pub b: u8,
    pub a: u8,
}

/// The record produced for each pixel by the source adapter: its
/// coordinates and its color.
#[derive(Debug, PartialEq, Eq)]
pub struct PixelResult {
    pub x: u32,
    pub y: u32,
    pub color: Rgba,
}

/// An opaque item moving through an erased pipeline.  The bridge never
/// interprets the payload of a `Word`; the structured variants exist only
/// because some combinators (`zip`, `enumerate`) and the pixel source
/// produce records of their own.
#[derive(Debug, PartialEq, Eq)]
pub enum Item {
    /// A caller-interpreted machine word.
    Word(u64),
    /// A pair produced by `zip`.
    Pair(Box<Item>, Box<Item>),
    /// A counted item produced by `enumerate`.
    Indexed(usize, Box<Item>),
    /// A coordinate-and-color record produced by the pixel source.
    Pixel(PixelResult),
}

/// Rank of an item's shape, used to order items of different shapes.
pub open spec fn spec_item_rank(a: Item) -> int {
    match a {
        Item::Word(_) => 0,
        Item::Pair(_, _) => 1,
        Item::Indexed(_, _) => 2,
        Item::Pixel(_) => 3,
    }
}

/// Three-way comparison of two integers.
pub open spec fn spec_int_cmp(a: int, b: int) -> Ordering {
    if a < b {
        Ordering::ORDERING_LESS
    } else if a == b {
        Ordering::ORDERING_EQUAL
    } else {
        Ordering::ORDERING_GREATER
    }
}

/// The natural total order on opaque items: items of different shapes are
/// ordered by shape; items of the same shape are ordered by their fields,
/// lexicographically.
pub open spec fn spec_item_cmp(a: Item, b: Item) -> Ordering
    decreases a,
{
    if spec_item_rank(a) != spec_item_rank(b) {
        spec_int_cmp(spec_item_rank(a), spec_item_rank(b))
    } else {
        match (a, b) {
            (Item::Word(x), Item::Word(y)) => spec_int_cmp(x as int, y as int),
            (Item::Pair(x0, x1), Item::Pair(y0, y1)) => {
                if spec_item_cmp(*x0, *y0) == Ordering::ORDERING_EQUAL {
                    spec_item_cmp(*x1, *y1)
                } else {
                    spec_item_cmp(*x0, *y0)
                }
            },
            (Item::Indexed(i, x), Item::Indexed(j, y)) => {
                if i == j {
                    spec_item_cmp(*x, *y)
                } else {
                    spec_int_cmp(i as int, j as int)
                }
            },
            (Item::Pixel(p), Item::Pixel(q)) => spec_pixel_cmp(p, q),
            _ => Ordering::ORDERING_EQUAL,
        }
    }
}

/// Pixels are ordered by coordinates, then by channels.
pub open spec fn spec_pixel_cmp(p: PixelResult, q: PixelResult) -> Ordering {
    if p.x != q.x {
        spec_int_cmp(p.x as int, q.x as int)
    } else if p.y != q.y {
        spec_int_cmp(p.y as int, q.y as int)
    } else if p.color.r != q.color.r {
        spec_int_cmp(p.color.r as int, q.color.r as int)
    } else if p.color.g != q.color.g {
        spec_int_cmp(p.color.g as int, q.color.g as int)
    } else if p.color.b != q.color.b {
        spec_int_cmp(p.color.b as int, q.color.b as int)
    } else {
        spec_int_cmp(p.color.a as int, q.color.a as int)
    }
}

/// Compare two items in the natural order on opaque items.
pub fn item_cmp(a: &Item, b: &Item) -> (r: Ordering)
    ensures
        r == spec_item_cmp(*a, *b),
    decreases *a,
{
    match (a, b) {
        (Item::Word(x), Item::Word(y)) => int_cmp_u64(*x, *y),
        (Item::Pair(x0, x1), Item::Pair(y0, y1)) => {
            match item_cmp(x0, y0) {
                Ordering::ORDERING_EQUAL => item_cmp(x1, y1),
                o => o,
            }
        },
        (Item::Indexed(i, x), Item::Indexed(j, y)) => {
            if i == j {
                item_cmp(x, y)
            } else {
                int_cmp_usize(*i, *j)
            }
        },
        (Item::Pixel(p), Item::Pixel(q)) => pixel_cmp(p, q),
        _ => rank_cmp(a, b),
    }
}

fn int_cmp_u64(a: u64, b: u64) -> (r: Ordering)
    ensures
        r == spec_int_cmp(a as int, b as int),
{
    if a < b {
        Ordering::ORDERING_LESS
    } else if a == b {
        Ordering::ORDERING_EQUAL
    } else {
        Ordering::ORDERING_GREATER
    }
}

fn int_cmp_usize(a: usize, b: usize) -> (r: Ordering)
    ensures
        r == spec_int_cmp(a as int, b as int),
{
    if a < b {
        Ordering::ORDERING_LESS
    } else if a == b {
        Ordering::ORDERING_EQUAL
    } else {
        Ordering::ORDERING_GREATER
    }
}

fn rank_of(a: &Item) -> (r: u8)
    ensures
        r as int == spec_item_rank(*a),
{
    match a {
        Item::Word(_) => 0,
        Item::Pair(_, _) => 1,
        Item::Indexed(_, _) => 2,
        Item::Pixel(_) => 3,
    }
}

fn rank_cmp(a: &Item, b: &Item) -> (r: Ordering)
    requires
        spec_item_rank(*a) != spec_item_rank(*b),
    ensures
        r == spec_item_cmp(*a, *b),
{
    int_cmp_u64(rank_of(a) as u64, rank_of(b) as u64)
}

fn pixel_cmp(p: &PixelResult, q: &PixelResult) -> (r: Ordering)
    ensures
        r == spec_pixel_cmp(*p, *q),
{
    if p.x != q.x {
        int_cmp_u64(p.x as u64, q.x as u64)
    } else if p.y != q.y {
        int_cmp_u64(p.y as u64, q.y as u64)
    } else if p.color.r != q.color.r {
        int_cmp_u64(p.color.r as u64, q.color.r as u64)
    } else if p.color.g != q.color.g {
        int_cmp_u64(p.color.g as u64, q.color.g as u64)
    } else if p.color.b != q.color.b {
        int_cmp_u64(p.color.b as u64, q.color.b as u64)
    } else {
        int_cmp_u64(p.color.a as u64, q.color.a as u64)
    }
}

/// Comparing equal is exactly structural equality of items.
pub proof fn lemma_item_cmp_equal(a: Item, b: Item)
    ensures
        (spec_item_cmp(a, b) == Ordering::ORDERING_EQUAL) <==> a == b,
    decreases a,
{
    match (a, b) {
        (Item::Pair(x0, x1), Item::Pair(y0, y1)) => {
            lemma_item_cmp_equal(*x0, *y0);
            lemma_item_cmp_equal(*x1, *y1);
        },
        (Item::Indexed(i, x), Item::Indexed(j, y)) => {
            lemma_item_cmp_equal(*x, *y);
        },
        _ => {},
    }
}

} // verus!
