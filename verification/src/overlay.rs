//! The dot that shows the state of the input method.

use vstd::prelude::*;

verus! {

/// A dot of one place: below the caret, or beside the mouse.
pub struct IndicatorOverlay {
    name: String,
    size: i32,
    color_cn: u32,
    color_en: u32,
    offset_x: i32,
    offset_y: i32,
    last_render: Option<(i32, i32, bool)>,
}

/// The mathematical content of an [`IndicatorOverlay`].
#[verifier::ext_equal]
pub struct OverlayModel {
    pub name: Seq<char>,
    pub size: i32,
    pub color_cn: u32,
    pub color_en: u32,
    pub offset_x: i32,
    pub offset_y: i32,
    /// Where and in which mode the dot was last drawn.
    pub last: Option<(i32, i32, bool)>,
}

impl View for IndicatorOverlay {
    type V = OverlayModel;

    closed spec fn view(&self) -> OverlayModel {
        OverlayModel {
            name: self.name@,
            size: self.size,
            color_cn: self.color_cn,
            color_en: self.color_en,
            offset_x: self.offset_x,
            offset_y: self.offset_y,
            last: self.last_render,
        }
    }
}

/// A dot to be drawn: the upper left corner of its square, its size and its colour.
#[derive(Debug, Clone, Copy, PartialEq, Eq, Structural)]
pub struct DotDrawing {
    pub x: i32,
    pub y: i32,
    pub size: i32,
    pub color: u32,
}

/// Half of `size`, rounded towards zero.
pub open spec fn half(size: int) -> int {
    if size >= 0 {
        size / 2
    } else {
        -((-size) / 2)
    }
}

/// The left edge of a dot for a caret at `x`.
pub open spec fn dot_x(m: OverlayModel, x: int) -> int {
    x + m.offset_x - half(m.size as int)
}

/// The upper edge of a dot for a caret at `y` of height `caret_h`.
pub open spec fn dot_y(m: OverlayModel, y: int, caret_h: int) -> int {
    y + caret_h + m.offset_y - half(m.size as int)
}

/// `n` is a machine integer.
pub open spec fn is_i32(n: int) -> bool {
    i32::MIN <= n <= i32::MAX
}

/// The place of the dot, and what leads to it, are machine integers.
pub open spec fn placeable(m: OverlayModel, x: i32, y: i32, caret_h: i32) -> bool {
    &&& is_i32(x + m.offset_x)
    &&& is_i32(dot_x(m, x as int))
    &&& is_i32(y + caret_h)
    &&& is_i32(y + caret_h + m.offset_y)
    &&& is_i32(dot_y(m, y as int, caret_h as int))
}

/// The dot for a caret in the mode `is_chinese`.
pub open spec fn dot(
    m: OverlayModel,
    x: i32,
    y: i32,
    is_chinese: bool,
    caret_h: i32,
) -> DotDrawing {
    DotDrawing {
        x: dot_x(m, x as int) as i32,
        y: dot_y(m, y as int, caret_h as int) as i32,
        size: m.size,
        color: if is_chinese {
            m.color_cn
        } else {
            m.color_en
        },
    }
}

/// The overlay after it was told of a caret, and what is to be drawn: the dot,
/// unless it is there already.
pub open spec fn updated(m: OverlayModel, x: i32, y: i32, is_chinese: bool, caret_h: i32) -> (
    OverlayModel,
    Option<DotDrawing>,
) {
    let dot = dot(m, x, y, is_chinese, caret_h);
    if m.last == Some((dot.x, dot.y, is_chinese)) {
        (m, None)
    } else {
        (OverlayModel { last: Some((dot.x, dot.y, is_chinese)), ..m }, Some(dot))
    }
}

impl IndicatorOverlay {
    pub fn new(
        name: &str,
        size: i32,
        color_cn: u32,
        color_en: u32,
        offset_x: i32,
        offset_y: i32,
    ) -> (overlay: IndicatorOverlay)
        ensures
            overlay@ == (OverlayModel {
                name: name@,
                size,
                color_cn,
                color_en,
                offset_x,
                offset_y,
                last: None,
            }),
    {
        let mut copy = String::new();
        copy.append(name);
        assert(copy@ =~= name@);
        IndicatorOverlay {
            name: copy,
            size,
            color_cn,
            color_en,
            offset_x,
            offset_y,
            last_render: None,
        }
    }

    /// The width and height of the dot.
    pub fn size(&self) -> (size: i32)
        ensures
            size == self@.size,
    {
        self.size
    }

    /// The name of the class of the overlay's window.
    pub fn class_name(&self) -> (name: String)
        ensures
            name@ == "IMEIndicator_"@ + self@.name,
    {
        let mut out = String::new();
        out.append("IMEIndicator_");
        out.append(self.name.as_str());
        assert(out@ =~= "IMEIndicator_"@ + self@.name);
        out
    }

    /// The name of the overlay's window.
    pub fn window_name(&self) -> (name: String)
        ensures
            name@ == "Indicator_"@ + self@.name,
    {
        let mut out = String::new();
        out.append("Indicator_");
        out.append(self.name.as_str());
        assert(out@ =~= "Indicator_"@ + self@.name);
        out
    }

    /// Whether the dot can be placed for a caret.
    pub fn can_place(&self, x: i32, y: i32, caret_h: i32) -> (yes: bool)
        ensures
            yes == placeable(self@, x, y, caret_h),
    {
        let half_size: i64 = (self.size / 2) as i64;
        let left: i64 = x as i64 + self.offset_x as i64;
        let bottom: i64 = y as i64 + caret_h as i64;
        let below: i64 = bottom + self.offset_y as i64;
        Self::is_machine_int(left) && Self::is_machine_int(left - half_size)
            && Self::is_machine_int(bottom) && Self::is_machine_int(below)
            && Self::is_machine_int(below - half_size)
    }

    fn is_machine_int(n: i64) -> (yes: bool)
        ensures
            yes == is_i32(n as int),
    {
        i32::MIN as i64 <= n && n <= i32::MAX as i64
    }

    /// Moves the dot to a caret of height `caret_h` at `x` and `y`, and tells what
    /// is to be drawn.
    pub fn update(&mut self, x: i32, y: i32, is_chinese: bool, caret_h: i32) -> (drawing: Option<
        DotDrawing,
    >)
        requires
            placeable(old(self)@, x, y, caret_h),
        ensures
            (final(self)@, drawing) == updated(old(self)@, x, y, is_chinese, caret_h),
            drawing matches Some(dot) ==> dot.x == dot_x(old(self)@, x as int) && dot.y == dot_y(
                old(self)@,
                y as int,
                caret_h as int,
            ),
    {
        let dest_x: i32 = x + self.offset_x - self.size / 2;
        let dest_y: i32 = y + caret_h + self.offset_y - self.size / 2;
        if let Some((last_x, last_y, last_chinese)) = self.last_render {
            if last_x == dest_x && last_y == dest_y && last_chinese == is_chinese {
                return None;
            }
        }
        self.last_render = Some((dest_x, dest_y, is_chinese));
        let color: u32 = if is_chinese {
            self.color_cn
        } else {
            self.color_en
        };
        Some(DotDrawing { x: dest_x, y: dest_y, size: self.size, color })
    }
}

/// A dot that is there already is not drawn again.
pub proof fn a_dot_is_drawn_once(m: OverlayModel, x: i32, y: i32, is_chinese: bool, caret_h: i32)
    ensures
        ({
            let after = updated(m, x, y, is_chinese, caret_h).0;
            updated(after, x, y, is_chinese, caret_h) == (after, None::<DotDrawing>)
        }),
{
}

/// A change of the mode is drawn even where the dot stays in its place.
pub proof fn a_change_of_mode_is_drawn(
    m: OverlayModel,
    x: i32,
    y: i32,
    is_chinese: bool,
    caret_h: i32,
)
    ensures
        ({
            let after = updated(m, x, y, is_chinese, caret_h).0;
            updated(after, x, y, !is_chinese, caret_h).1 == Some(
                dot(m, x, y, !is_chinese, caret_h),
            )
        }),
{
}

} // verus!
