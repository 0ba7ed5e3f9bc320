//! Tree shapes: which arities the replica tree of each sector size has.

use vstd::prelude::*;

use crate::constants::{
    SECTOR_SIZE_16_KIB, SECTOR_SIZE_16_MIB, SECTOR_SIZE_1_GIB, SECTOR_SIZE_2_KIB,
    SECTOR_SIZE_32_GIB, SECTOR_SIZE_32_KIB, SECTOR_SIZE_4_KIB, SECTOR_SIZE_512_MIB,
    SECTOR_SIZE_64_GIB, SECTOR_SIZE_8_MIB,
};

verus! {

/// The shape of the replica tree of a sector: an octal base tree, optionally split into
/// 2 or 8 sub-trees, optionally grouped under a binary top.
#[derive(Clone, Copy, Debug, PartialEq, Eq, Structural)]
pub enum SectorShape {
    /// One octal tree.
    Base,
    /// Two octal trees under a binary sub-tree level.
    Sub2,
    /// Eight octal trees under an octal sub-tree level.
    Sub8,
    /// Sixteen octal trees: an octal sub-tree level under a binary top level.
    Top2,
}

pub open spec fn spec_shape_base(s: u64) -> bool {
    s == SECTOR_SIZE_2_KIB || s == SECTOR_SIZE_8_MIB || s == SECTOR_SIZE_512_MIB
}

pub open spec fn spec_shape_sub2(s: u64) -> bool {
    s == SECTOR_SIZE_4_KIB || s == SECTOR_SIZE_16_MIB || s == SECTOR_SIZE_1_GIB
}

pub open spec fn spec_shape_sub8(s: u64) -> bool {
    s == SECTOR_SIZE_16_KIB || s == SECTOR_SIZE_32_GIB
}

pub open spec fn spec_shape_top2(s: u64) -> bool {
    s == SECTOR_SIZE_32_KIB || s == SECTOR_SIZE_64_GIB
}

/// The shape that a sector size uses, if the size is supported.
pub open spec fn spec_sector_shape(s: u64) -> Option<SectorShape> {
    if spec_shape_base(s) {
        Some(SectorShape::Base)
    } else if spec_shape_sub2(s) {
        Some(SectorShape::Sub2)
    } else if spec_shape_sub8(s) {
        Some(SectorShape::Sub8)
    } else if spec_shape_top2(s) {
        Some(SectorShape::Top2)
    } else {
        None
    }
}

impl SectorShape {
    pub open spec fn spec_base_arity(self) -> usize {
        8
    }

    pub open spec fn spec_sub_tree_arity(self) -> usize {
        match self {
            SectorShape::Base => 0,
            SectorShape::Sub2 => 2,
            SectorShape::Sub8 => 8,
            SectorShape::Top2 => 8,
        }
    }

    pub open spec fn spec_top_tree_arity(self) -> usize {
        match self {
            SectorShape::Top2 => 2,
            _ => 0,
        }
    }

    /// The number of base trees: the product of the non-zero upper arities.
    pub open spec fn spec_base_tree_count(self) -> usize {
        let sub = self.spec_sub_tree_arity();
        let top = self.spec_top_tree_arity();
        if top > 0 {
            (sub * top) as usize
        } else if sub > 0 {
            sub
        } else {
            1
        }
    }

    /// The arity of the base (bottom) trees.
    pub fn base_arity(&self) -> (r: usize)
        ensures
            r == self.spec_base_arity(),
    {
        8
    }

    /// The arity of the sub-tree level, 0 where there is none.
    pub fn sub_tree_arity(&self) -> (r: usize)
        ensures
            r == self.spec_sub_tree_arity(),
    {
        match self {
            SectorShape::Base => 0,
            SectorShape::Sub2 => 2,
            SectorShape::Sub8 => 8,
            SectorShape::Top2 => 8,
        }
    }

    /// The arity of the top-tree level, 0 where there is none.
    pub fn top_tree_arity(&self) -> (r: usize)
        ensures
            r == self.spec_top_tree_arity(),
    {
        match self {
            SectorShape::Top2 => 2,
            _ => 0,
        }
    }

    /// The number of base trees, which is also the number of files a split tree store
    /// is spread over.
    pub fn base_tree_count(&self) -> (r: usize)
        ensures
            r == self.spec_base_tree_count(),
            r >= 1,
    {
        let sub = self.sub_tree_arity();
        let top = self.top_tree_arity();
        if top > 0 {
            sub * top
        } else if sub > 0 {
            sub
        } else {
            1
        }
    }
}

/// The shape of a sector size; `None` for an unsupported size.
pub fn sector_shape(sector_size: u64) -> (r: Option<SectorShape>)
    ensures
        r == spec_sector_shape(sector_size),
        r.is_some() <==> crate::constants::is_supported_sector_size(sector_size),
{
    if is_sector_shape_base(sector_size) {
        Some(SectorShape::Base)
    } else if is_sector_shape_sub2(sector_size) {
        Some(SectorShape::Sub2)
    } else if is_sector_shape_sub8(sector_size) {
        Some(SectorShape::Sub8)
    } else if is_sector_shape_top2(sector_size) {
        Some(SectorShape::Top2)
    } else {
        None
    }
}

pub fn is_sector_shape_base(sector_size: u64) -> (r: bool)
    ensures
        r == spec_shape_base(sector_size),
{
    sector_size == SECTOR_SIZE_2_KIB || sector_size == SECTOR_SIZE_8_MIB || sector_size
        == SECTOR_SIZE_512_MIB
}

pub fn is_sector_shape_sub2(sector_size: u64) -> (r: bool)
    ensures
        r == spec_shape_sub2(sector_size),
{
    sector_size == SECTOR_SIZE_4_KIB || sector_size == SECTOR_SIZE_16_MIB || sector_size
        == SECTOR_SIZE_1_GIB
}

pub fn is_sector_shape_sub8(sector_size: u64) -> (r: bool)
    ensures
        r == spec_shape_sub8(sector_size),
{
    sector_size == SECTOR_SIZE_16_KIB || sector_size == SECTOR_SIZE_32_GIB
}

pub fn is_sector_shape_top2(sector_size: u64) -> (r: bool)
    ensures
        r == spec_shape_top2(sector_size),
{
    sector_size == SECTOR_SIZE_32_KIB || sector_size == SECTOR_SIZE_64_GIB
}

} // verus!
