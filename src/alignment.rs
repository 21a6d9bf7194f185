use vstd::prelude::*;

verus! {

/// Horizontal anchor of a text block.
#[derive(Clone, Copy, Debug, PartialEq, Eq, Structural)]
pub enum HorizontalAlign {
    Left,
    Center,
    Right,
}

/// Vertical anchor of a text block.
#[derive(Clone, Copy, Debug, PartialEq, Eq, Structural)]
pub enum VerticalAlign {
    Top,
    Center,
    Bottom,
}

/// Where a text block is anchored, on each axis independently.
#[derive(Clone, Copy, Debug, PartialEq, Eq, Structural)]
pub struct TextAlignment {
    pub vertical: VerticalAlign,
    pub horizontal: HorizontalAlign,
}

/// Horizontal offset, in half widths: Left 0, Center -1/2, Right -1.
pub open spec fn horizontal_halves(h: HorizontalAlign) -> int {
    match h {
        HorizontalAlign::Left => 0,
        HorizontalAlign::Center => -1,
        HorizontalAlign::Right => -2,
    }
}

/// Vertical offset, in half heights: Top -1, Center -1/2, Bottom 0.
pub open spec fn vertical_halves(v: VerticalAlign) -> int {
    match v {
        VerticalAlign::Top => -2,
        VerticalAlign::Center => -1,
        VerticalAlign::Bottom => 0,
    }
}

/// Twice the alignment offset of a block of the given size: the offset is
/// `(-w/2, -h/2)` for Center/Center, `(0, -h)` for Top/Left and `(-w, 0)` for
/// Bottom/Right.
pub open spec fn doubled_offset(width: int, height: int, a: TextAlignment) -> (int, int) {
    (horizontal_halves(a.horizontal) * width, vertical_halves(a.vertical) * height)
}

impl Default for TextAlignment {
    /// Centered on both axes.
    fn default() -> (r: TextAlignment)
        ensures
            r == (TextAlignment { vertical: VerticalAlign::Center, horizontal: HorizontalAlign::Center }),
    {
        TextAlignment { vertical: VerticalAlign::Center, horizontal: HorizontalAlign::Center }
    }
}

impl TextAlignment {
    /// The factors, in halves of the width and of the height, by which the
    /// block is moved: the offset is `(x * width / 2, y * height / 2)`.
    pub fn offset_halves(&self) -> (r: (i8, i8))
        ensures
            r.0 as int == horizontal_halves(self.horizontal),
            r.1 as int == vertical_halves(self.vertical),
    {
        let x: i8 = match self.horizontal {
            HorizontalAlign::Left => 0,
            HorizontalAlign::Center => -1,
            HorizontalAlign::Right => -2,
        };
        let y: i8 = match self.vertical {
            VerticalAlign::Top => -2,
            VerticalAlign::Center => -1,
            VerticalAlign::Bottom => 0,
        };
        (x, y)
    }

    /// Twice the offset of a block of `width` by `height`, exact in integers.
    pub fn doubled_offset(&self, width: i32, height: i32) -> (r: (i64, i64))
        ensures
            (r.0 as int, r.1 as int) == doubled_offset(width as int, height as int, *self),
    {
        let w = width as i64;
        let h = height as i64;
        let x: i64 = match self.horizontal {
            HorizontalAlign::Left => 0,
            HorizontalAlign::Center => -w,
            HorizontalAlign::Right => -(w + w),
        };
        let y: i64 = match self.vertical {
            VerticalAlign::Top => -(h + h),
            VerticalAlign::Center => -h,
            VerticalAlign::Bottom => 0,
        };
        (x, y)
    }
}

} // verus!
