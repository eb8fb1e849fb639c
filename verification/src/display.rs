//! Boot screen: layout arithmetic, status presentation, and the placement
//! and byte order of framebuffer pixels.
use vstd::prelude::*;
use crate::boot_protocol::BootInfo;
use crate::boot_state::Status;

verus! {

/// Height of the boot screen's content block, in pixels.
pub const CONTENT_HEIGHT: i32 = 360;

/// Size of the screen in pixels.
#[derive(Clone, Copy, PartialEq, Eq, Structural)]
pub struct ScreenGeometry {
    width: u32,
    height: u32,
}

impl ScreenGeometry {
    pub closed spec fn spec_width(&self) -> u32 {
        self.width
    }

    pub closed spec fn spec_height(&self) -> u32 {
        self.height
    }

    /// The geometry of a `width` x `height` screen.
    pub fn new(width: u32, height: u32) -> (r: Self)
        ensures
            r.spec_width() == width && r.spec_height() == height,
    {
        ScreenGeometry { width, height }
    }

    pub fn width(&self) -> (r: u32)
        ensures
            r == self.spec_width(),
    {
        self.width
    }

    pub fn height(&self) -> (r: u32)
        ensures
            r == self.spec_height(),
    {
        self.height
    }

    /// Horizontal center, rounded down.
    pub fn center_x(&self) -> (r: i32)
        ensures
            r == self.spec_width() / 2,
    {
        (self.width / 2) as i32
    }

    /// Vertical center, rounded down.
    pub fn center_y(&self) -> (r: i32)
        ensures
            r == self.spec_height() / 2,
    {
        (self.height / 2) as i32
    }

    /// Left edge of an element `width` pixels wide centered horizontally.
    pub fn centered_x(&self, width: u32) -> (r: i32)
        ensures
            r == self.spec_width() / 2 - width / 2,
    {
        self.center_x() - (width / 2) as i32
    }
}

/// Vertical placement of the boot screen's rows, relative to the top of the
/// content block, which is centered on the screen.
pub struct BootLayout {
    screen: ScreenGeometry,
    top: i32,
}

impl BootLayout {
    pub closed spec fn spec_top(&self) -> i32 {
        self.top
    }

    pub closed spec fn spec_screen(&self) -> ScreenGeometry {
        self.screen
    }

    /// Centers the content block on a screen of the given geometry.
    pub fn new(screen: ScreenGeometry) -> (r: Self)
        ensures
            r.spec_top() == screen.spec_height() / 2 - CONTENT_HEIGHT / 2,
            r.spec_screen() == screen,
    {
        let top = screen.center_y() - CONTENT_HEIGHT / 2;
        BootLayout { screen, top }
    }

    pub fn screen(&self) -> (r: &ScreenGeometry)
        ensures
            *r == self.spec_screen(),
    {
        &self.screen
    }

    pub fn header_y(&self) -> (r: i32)
        ensures
            r == self.spec_top(),
    {
        self.top
    }

    pub fn subtitle_y(&self) -> (r: i32)
        requires
            self.spec_top() + 32 <= i32::MAX,
        ensures
            r == self.spec_top() + 32,
    {
        self.top + 32
    }

    pub fn header_separator_y(&self) -> (r: i32)
        requires
            self.spec_top() + 70 <= i32::MAX,
        ensures
            r == self.spec_top() + 70,
    {
        self.top + 70
    }

    pub fn status_y(&self) -> (r: i32)
        requires
            self.spec_top() + 110 <= i32::MAX,
        ensures
            r == self.spec_top() + 110,
    {
        self.top + 110
    }

    pub fn status_text_y(&self) -> (r: i32)
        requires
            self.spec_top() + 120 <= i32::MAX,
        ensures
            r == self.spec_top() + 120,
    {
        self.top + 120
    }

    /// Row `index` of the information table, 32 pixels apart.
    pub fn info_y(&self, index: i32) -> (r: i32)
        requires
            i32::MIN <= self.spec_top() + 180 + index * 32 <= i32::MAX,
            i32::MIN <= index * 32 <= i32::MAX,
            self.spec_top() + 180 <= i32::MAX,
        ensures
            r == self.spec_top() + 180 + index * 32,
    {
        self.top + 180 + index * 32
    }

    pub fn footer_separator_y(&self) -> (r: i32)
        requires
            self.spec_top() + 320 <= i32::MAX,
        ensures
            r == self.spec_top() + 320,
    {
        self.top + 320
    }

    pub fn footer_y(&self) -> (r: i32)
        requires
            self.spec_top() + 360 <= i32::MAX,
        ensures
            r == self.spec_top() + 360,
    {
        self.top + 360
    }
}

/// Law: on any screen at least as tall as the content block, the rows are
/// in order and inside the screen.
pub proof fn lemma_layout_rows_on_screen(height: u32)
    requires
        CONTENT_HEIGHT <= height <= i32::MAX,
    ensures
        ({
            let top = height / 2 - CONTENT_HEIGHT / 2;
            &&& 0 <= top
            &&& top < top + 32 < top + 70 < top + 110 < top + 120 < top + 180 < top + 320 < top + 360
            &&& top + 360 <= height
        }),
{
}

/// Colours of the boot screen's palette.
#[derive(Clone, Copy, PartialEq, Eq, Structural)]
pub enum PaletteColor {
    Background,
    Border,
    Text,
    TextMuted,
    Accent,
    Success,
    Warning,
    Error,
}

/// Font sizes of the boot screen.
#[derive(Clone, Copy, PartialEq, Eq, Structural)]
pub enum FontSize {
    /// 6x10 glyphs.
    Small,
    /// 8x13 glyphs.
    Body,
    /// 10x20 glyphs.
    Title,
}

/// A text style: font and colour.
#[derive(Clone, Copy, PartialEq, Eq, Structural)]
pub struct TextStyle {
    pub font: FontSize,
    pub color: PaletteColor,
}

impl TextStyle {
    pub fn title() -> (r: Self)
        ensures
            r == (TextStyle { font: FontSize::Title, color: PaletteColor::Text }),
    {
        TextStyle { font: FontSize::Title, color: PaletteColor::Text }
    }

    pub fn body() -> (r: Self)
        ensures
            r == (TextStyle { font: FontSize::Body, color: PaletteColor::Text }),
    {
        TextStyle { font: FontSize::Body, color: PaletteColor::Text }
    }

    pub fn muted() -> (r: Self)
        ensures
            r == (TextStyle { font: FontSize::Body, color: PaletteColor::TextMuted }),
    {
        TextStyle { font: FontSize::Body, color: PaletteColor::TextMuted }
    }

    pub fn small() -> (r: Self)
        ensures
            r == (TextStyle { font: FontSize::Small, color: PaletteColor::TextMuted }),
    {
        TextStyle { font: FontSize::Small, color: PaletteColor::TextMuted }
    }
}

pub open spec fn status_color_of(s: Status) -> PaletteColor {
    match s {
        Status::Initializing => PaletteColor::Accent,
        Status::Ready => PaletteColor::Success,
        Status::Warning => PaletteColor::Warning,
        Status::Error => PaletteColor::Error,
    }
}

impl Status {
    /// Colour of the status indicator.
    pub fn color(self) -> (r: PaletteColor)
        ensures
            r == status_color_of(self),
    {
        match self {
            Status::Initializing => PaletteColor::Accent,
            Status::Ready => PaletteColor::Success,
            Status::Warning => PaletteColor::Warning,
            Status::Error => PaletteColor::Error,
        }
    }

    /// Label of the status.
    pub fn text(self) -> (r: &'static str)
        ensures
            self == Status::Initializing ==> r@ == "INITIALIZING"@,
            self == Status::Ready ==> r@ == "SYSTEM READY"@,
            self == Status::Warning ==> r@ == "WARNING"@,
            self == Status::Error ==> r@ == "ERROR"@,
    {
        match self {
            Status::Initializing => "INITIALIZING",
            Status::Ready => "SYSTEM READY",
            Status::Warning => "WARNING",
            Status::Error => "ERROR",
        }
    }

    /// Style of the status label: body font in the status colour.
    pub fn text_style(self) -> (r: TextStyle)
        ensures
            r == (TextStyle { font: FontSize::Body, color: status_color_of(self) }),
    {
        TextStyle { font: FontSize::Body, color: self.color() }
    }
}

/// A piece of text placed at `(x, y)` in a style.
#[derive(Clone, Copy)]
pub struct TextLabel {
    pub x: i32,
    pub y: i32,
    pub text: &'static str,
    pub style: TextStyle,
}

impl TextLabel {
    pub fn new(x: i32, y: i32, text: &'static str, style: TextStyle) -> (r: Self)
        ensures
            r.x == x && r.y == y && r.text == text && r.style == style,
    {
        TextLabel { x, y, text, style }
    }
}

/// The screen title.
#[derive(Clone, Copy)]
pub struct Header {
    pub x: i32,
    pub y: i32,
    pub title: &'static str,
}

impl Header {
    pub fn new(x: i32, y: i32, title: &'static str) -> (r: Self)
        ensures
            r.x == x && r.y == y && r.title == title,
    {
        Header { x, y, title }
    }

    /// The title is drawn as a label in the title style.
    pub fn label(&self) -> (r: TextLabel)
        ensures
            r.x == self.x && r.y == self.y && r.text == self.title
                && r.style == (TextStyle { font: FontSize::Title, color: PaletteColor::Text }),
    {
        TextLabel::new(self.x, self.y, self.title, TextStyle::title())
    }
}

/// A filled circle in the colour of a status, with top-left corner `(x, y)`.
#[derive(Clone, Copy)]
pub struct StatusIndicator {
    pub x: i32,
    pub y: i32,
    pub radius: u32,
    pub status: Status,
}

impl StatusIndicator {
    pub fn new(x: i32, y: i32, radius: u32, status: Status) -> (r: Self)
        ensures
            r.x == x && r.y == y && r.radius == radius && r.status == status,
    {
        StatusIndicator { x, y, radius, status }
    }

    pub fn status(&self) -> (r: Status)
        ensures
            r == self.status,
    {
        self.status
    }

    /// Diameter of the drawn circle.
    pub fn diameter(&self) -> (r: u32)
        requires
            self.radius * 2 <= u32::MAX,
        ensures
            r == self.radius * 2,
    {
        self.radius * 2
    }

    /// Fill colour of the circle.
    pub fn color(&self) -> (r: PaletteColor)
        ensures
            r == status_color_of(self.status),
    {
        self.status.color()
    }
}

/// Horizontal offset of an information row's value from its label.
pub const INFO_VALUE_OFFSET: i32 = 300;
/// Offsets, from the value column, of the " X " separator and of the height
/// in a resolution value.
pub const RESOLUTION_SEPARATOR_OFFSET: i32 = 42;
pub const RESOLUTION_HEIGHT_OFFSET: i32 = 66;

/// The value shown in an information row.
#[derive(Clone, Copy, PartialEq, Eq)]
pub enum InfoValue {
    Text(&'static str),
    /// Width and height, printed as "W X H".
    Resolution(u32, u32),
}

/// A "label ... value" row of the boot screen, placed at `(x, y)`.
#[derive(Clone, Copy)]
pub struct InfoRow {
    pub x: i32,
    pub y: i32,
    pub label: &'static str,
    pub value: InfoValue,
    pub value_style: TextStyle,
}

impl InfoRow {
    /// A row whose value is a text.
    pub fn new(x: i32, y: i32, label: &'static str, value: &'static str, value_style: TextStyle) -> (r: Self)
        ensures
            r.x == x && r.y == y && r.label == label && r.value == InfoValue::Text(value) && r.value_style == value_style,
    {
        InfoRow { x, y, label, value: InfoValue::Text(value), value_style }
    }

    /// A row whose value is a screen resolution.
    pub fn resolution(x: i32, y: i32, label: &'static str, width: u32, height: u32, value_style: TextStyle) -> (r: Self)
        ensures
            r.x == x && r.y == y && r.label == label && r.value == InfoValue::Resolution(width, height)
                && r.value_style == value_style,
    {
        InfoRow { x, y, label, value: InfoValue::Resolution(width, height), value_style }
    }

    /// A row showing a status in its own label and style.
    pub fn status(x: i32, y: i32, label: &'static str, status: Status) -> (r: Self)
        ensures
            r.x == x && r.y == y && r.label == label && r.value_style == (TextStyle {
                font: FontSize::Body,
                color: status_color_of(status),
            }),
            r.value is Text,
            status == Status::Ready ==> r.value->Text_0@ == "SYSTEM READY"@,
            status == Status::Initializing ==> r.value->Text_0@ == "INITIALIZING"@,
            status == Status::Warning ==> r.value->Text_0@ == "WARNING"@,
            status == Status::Error ==> r.value->Text_0@ == "ERROR"@,
    {
        InfoRow::new(x, y, label, status.text(), status.text_style())
    }

    /// Left edge of the value column.
    pub fn value_x(&self) -> (r: i32)
        requires
            self.x + INFO_VALUE_OFFSET <= i32::MAX,
        ensures
            r == self.x + INFO_VALUE_OFFSET,
    {
        self.x + INFO_VALUE_OFFSET
    }

    /// Left edges of the width, the " X " separator and the height of a
    /// resolution value.
    pub fn resolution_columns(&self) -> (r: (i32, i32, i32))
        requires
            self.x + INFO_VALUE_OFFSET + RESOLUTION_HEIGHT_OFFSET <= i32::MAX,
        ensures
            r.0 == self.x + INFO_VALUE_OFFSET,
            r.1 == self.x + INFO_VALUE_OFFSET + RESOLUTION_SEPARATOR_OFFSET,
            r.2 == self.x + INFO_VALUE_OFFSET + RESOLUTION_HEIGHT_OFFSET,
    {
        let value_x = self.x + INFO_VALUE_OFFSET;
        (value_x, value_x + RESOLUTION_SEPARATOR_OFFSET, value_x + RESOLUTION_HEIGHT_OFFSET)
    }
}

/// Framebuffer layout: sizes in pixels except `size`, in bytes.
#[derive(Clone, Copy, PartialEq, Eq, Structural)]
pub struct FramebufferLayout {
    pub size: usize,
    pub width: usize,
    pub height: usize,
    pub stride: usize,
    pub format: u32,
}

impl FramebufferLayout {
    /// The layout the bootloader reported (address aside); values wider than
    /// a `usize` keep their low bits.
    pub fn from_boot_info(boot_info: &BootInfo) -> (r: Self)
        ensures
            r.size == boot_info.framebuffer_size as usize,
            r.width == boot_info.framebuffer_width as usize,
            r.height == boot_info.framebuffer_height as usize,
            r.stride == boot_info.framebuffer_stride as usize,
            r.format == boot_info.framebuffer_format,
    {
        FramebufferLayout {
            size: boot_info.framebuffer_size as usize,
            width: boot_info.framebuffer_width as usize,
            height: boot_info.framebuffer_height as usize,
            stride: boot_info.framebuffer_stride as usize,
            format: boot_info.framebuffer_format,
        }
    }

    /// Width and height in pixels.
    pub fn resolution(&self) -> (r: (u32, u32))
        ensures
            r == (self.width as u32, self.height as u32),
    {
        (self.width as u32, self.height as u32)
    }
}

/// The four bytes stored for a colour in pixel format `format`; none for
/// formats without a linear framebuffer or unknown ones.
pub open spec fn pixel_bytes_of(format: u32, red: u8, green: u8, blue: u8) -> Option<Seq<u8>> {
    if format == 0 || format == 2 {
        Some(seq![red, green, blue, 0u8])
    } else if format == 1 {
        Some(seq![blue, green, red, 0u8])
    } else {
        None
    }
}

/// Byte offset of pixel `(x, y)` when it and its four bytes are inside the
/// framebuffer.
pub open spec fn pixel_offset_of(fb: FramebufferLayout, x: int, y: int) -> Option<int> {
    if x < 0 || y < 0 || x >= fb.width || y >= fb.height {
        None
    } else if (y * fb.stride + x) * 4 + 4 > fb.size {
        None
    } else {
        Some((y * fb.stride + x) * 4)
    }
}

/// Where and what to write for pixel `(x, y)` of colour `(red, green, blue)`:
/// the byte offset and the four bytes, or `None` when nothing is written
/// (off-screen, past the buffer, or a format without pixels).
pub fn pixel_write(fb: &FramebufferLayout, x: i32, y: i32, red: u8, green: u8, blue: u8) -> (r: Option<(usize, [u8; 4])>)
    requires
        0 <= x < fb.width && 0 <= y < fb.height ==> (y * fb.stride + x) * 4 + 4 <= usize::MAX,
    ensures
        match (pixel_offset_of(*fb, x as int, y as int), pixel_bytes_of(fb.format, red, green, blue)) {
            (Some(offset), Some(bytes)) => match r {
                Some((o, b)) => o == offset && b@ == bytes,
                None => false,
            },
            _ => r is None,
        },
{
    if x < 0 || y < 0 {
        return None;
    }
    let x = x as usize;
    let y = y as usize;
    if x >= fb.width || y >= fb.height {
        return None;
    }
    assert(((y * fb.stride + x) * 4) + 4 <= usize::MAX);
    assert(0 <= y * fb.stride) by (nonlinear_arith)
        requires
            0 <= y,
            0 <= fb.stride,
    ;
    let offset = (y * fb.stride + x) * 4;
    if offset + 4 > fb.size {
        return None;
    }
    let pixel: [u8; 4] = if fb.format == 0 {
        [red, green, blue, 0]
    } else if fb.format == 1 {
        [blue, green, red, 0]
    } else if fb.format == 2 {
        [red, green, blue, 0]
    } else {
        return None;
    };
    assert(pixel@ =~= pixel_bytes_of(fb.format, red, green, blue)->0);
    Some((offset, pixel))
}


/// Law: when rows are at least as long as the screen is wide, two distinct
/// on-screen pixels are written to disjoint 4-byte slots.
pub proof fn lemma_pixels_do_not_overlap(fb: FramebufferLayout, x1: int, y1: int, x2: int, y2: int)
    requires
        fb.width <= fb.stride,
        pixel_offset_of(fb, x1, y1) is Some,
        pixel_offset_of(fb, x2, y2) is Some,
        x1 != x2 || y1 != y2,
    ensures
        pixel_offset_of(fb, x1, y1)->0 + 4 <= pixel_offset_of(fb, x2, y2)->0
            || pixel_offset_of(fb, x2, y2)->0 + 4 <= pixel_offset_of(fb, x1, y1)->0,
{
    let s = fb.stride as int;
    if y1 == y2 {
        assert(y1 * s + x1 != y2 * s + x2);
    } else if y1 < y2 {
        assert((y2 - y1) * s >= s) by (nonlinear_arith)
            requires
                y2 - y1 >= 1,
                s >= 0,
        ;
        assert(y2 * s - y1 * s == (y2 - y1) * s) by (nonlinear_arith);
    } else {
        assert((y1 - y2) * s >= s) by (nonlinear_arith)
            requires
                y1 - y2 >= 1,
                s >= 0,
        ;
        assert(y1 * s - y2 * s == (y1 - y2) * s) by (nonlinear_arith);
    }
}


/// One drawing operation of the boot screen, in the order it is drawn.
#[derive(Clone, Copy)]
pub enum DrawItem {
    /// Fill the whole screen.
    Clear { color: PaletteColor },
    /// A text with its baseline-left corner at `(x, y)`.
    Text { x: i32, y: i32, text: &'static str, style: TextStyle },
    /// A number printed in decimal at `(x, y)`.
    Number { x: i32, y: i32, value: u32, style: TextStyle },
    /// A filled rectangle with top-left corner `(x, y)`.
    Rect { x: i32, y: i32, width: u32, height: u32, color: PaletteColor },
    /// A filled circle with top-left corner `(x, y)`.
    Circle { x: i32, y: i32, diameter: u32, color: PaletteColor },
}

/// What a drawing operation does, over mathematical values.
pub enum DrawStep {
    Clear(PaletteColor),
    Text(int, int, Seq<char>, TextStyle),
    Number(int, int, nat, TextStyle),
    Rect(int, int, nat, nat, PaletteColor),
    Circle(int, int, nat, PaletteColor),
}

impl View for DrawItem {
    type V = DrawStep;

    open spec fn view(&self) -> DrawStep {
        match *self {
            DrawItem::Clear { color } => DrawStep::Clear(color),
            DrawItem::Text { x, y, text, style } => DrawStep::Text(x as int, y as int, text@, style),
            DrawItem::Number { x, y, value, style } => DrawStep::Number(x as int, y as int, value as nat, style),
            DrawItem::Rect { x, y, width, height, color } => DrawStep::Rect(
                x as int,
                y as int,
                width as nat,
                height as nat,
                color,
            ),
            DrawItem::Circle { x, y, diameter, color } => DrawStep::Circle(x as int, y as int, diameter as nat, color),
        }
    }
}

/// The steps of a list of drawing operations.
pub open spec fn steps_of(items: Seq<DrawItem>) -> Seq<DrawStep> {
    items.map_values(|d: DrawItem| d@)
}

pub open spec fn body_style() -> TextStyle {
    TextStyle { font: FontSize::Body, color: PaletteColor::Text }
}

pub open spec fn small_style() -> TextStyle {
    TextStyle { font: FontSize::Small, color: PaletteColor::TextMuted }
}

/// How an information row is drawn: its label in the body style at its
/// position, then its value in the value style, `INFO_VALUE_OFFSET` to the
/// right; a resolution as an (empty) text, the width, " X " and the height.
pub open spec fn info_row_steps(row: InfoRow) -> Seq<DrawStep> {
    let x = row.x as int;
    let y = row.y as int;
    let vx = x + INFO_VALUE_OFFSET;
    let label = DrawStep::Text(x, y, row.label@, body_style());
    match row.value {
        InfoValue::Text(t) => seq![label, DrawStep::Text(vx, y, t@, row.value_style)],
        InfoValue::Resolution(w, h) => seq![
            label,
            DrawStep::Text(vx, y, ""@, row.value_style),
            DrawStep::Number(vx, y, w as nat, row.value_style),
            DrawStep::Text(vx + RESOLUTION_SEPARATOR_OFFSET, y, " X "@, row.value_style),
            DrawStep::Number(vx + RESOLUTION_HEIGHT_OFFSET, y, h as nat, row.value_style),
        ],
    }
}

impl InfoRow {
    /// The drawing operations of this row.
    pub fn draw_items(&self) -> (r: Vec<DrawItem>)
        requires
            self.x + INFO_VALUE_OFFSET + RESOLUTION_HEIGHT_OFFSET <= i32::MAX,
        ensures
            steps_of(r@) == info_row_steps(*self),
    {
        let mut items: Vec<DrawItem> = Vec::new();
        let (value_x, separator_x, height_x) = self.resolution_columns();
        items.push(DrawItem::Text { x: self.x, y: self.y, text: self.label, style: TextStyle::body() });
        match self.value {
            InfoValue::Text(text) => {
                items.push(DrawItem::Text { x: value_x, y: self.y, text, style: self.value_style });
            },
            InfoValue::Resolution(width, height) => {
                items.push(DrawItem::Text { x: value_x, y: self.y, text: "", style: self.value_style });
                items.push(DrawItem::Number { x: value_x, y: self.y, value: width, style: self.value_style });
                items.push(DrawItem::Text { x: separator_x, y: self.y, text: " X ", style: self.value_style });
                items.push(DrawItem::Number { x: height_x, y: self.y, value: height, style: self.value_style });
            },
        }
        assert(steps_of(items@) =~= info_row_steps(*self));
        items
    }
}

/// Width of the header separator, and of the information table and the
/// footer separator.
pub const CONTENT_WIDTH: u32 = 560;
pub const INFO_WIDTH: u32 = 440;

/// The status row of the boot screen for `label`: ready.
pub open spec fn ready_row(x: int, y: int, label: Seq<char>) -> Seq<DrawStep> {
    seq![
        DrawStep::Text(x, y, label, body_style()),
        DrawStep::Text(x + INFO_VALUE_OFFSET, y, "SYSTEM READY"@, TextStyle { font: FontSize::Body, color: PaletteColor::Success }),
    ]
}

/// The boot screen of a `width` x `height` framebuffer: cleared to the
/// background; the title and subtitle centered at the top of the content
/// block, a separator below; the ready indicator and its label; the rows
/// Kernel, Bootloader and Graphics (ready) and Framebuffer (the resolution,
/// muted), 32 pixels apart; a separator and the footer.
pub open spec fn boot_screen_steps(width: u32, height: u32) -> Seq<DrawStep> {
    let cx = width / 2;
    let top = height / 2 - CONTENT_HEIGHT / 2;
    let info_x = cx - INFO_WIDTH / 2;
    let info_y = top + 180;
    let ready_style = TextStyle { font: FontSize::Body, color: PaletteColor::Success };
    seq![
        DrawStep::Clear(PaletteColor::Background),
        DrawStep::Text(cx - 75, top, "MENTACORE"@, TextStyle { font: FontSize::Title, color: PaletteColor::Text }),
        DrawStep::Text(cx - 82, top + 32, "OPERATING ENVIRONMENT"@, small_style()),
        DrawStep::Rect(cx - CONTENT_WIDTH / 2, top + 70, CONTENT_WIDTH as nat, 1, PaletteColor::Border),
        DrawStep::Circle(cx - 110, top + 110, 12, PaletteColor::Success),
        DrawStep::Text(cx - 85, top + 120, "SYSTEM READY"@, ready_style),
    ] + ready_row(info_x, info_y, "Kernel"@) + ready_row(info_x, info_y + 32, "Bootloader"@) + ready_row(
        info_x,
        info_y + 64,
        "Graphics"@,
    ) + seq![
        DrawStep::Text(info_x, info_y + 96, "Framebuffer"@, body_style()),
        DrawStep::Text(info_x + INFO_VALUE_OFFSET, info_y + 96, ""@, TextStyle { font: FontSize::Body, color: PaletteColor::TextMuted }),
        DrawStep::Number(info_x + INFO_VALUE_OFFSET, info_y + 96, width as nat, TextStyle { font: FontSize::Body, color: PaletteColor::TextMuted }),
        DrawStep::Text(info_x + INFO_VALUE_OFFSET + RESOLUTION_SEPARATOR_OFFSET, info_y + 96, " X "@, TextStyle { font: FontSize::Body, color: PaletteColor::TextMuted }),
        DrawStep::Number(info_x + INFO_VALUE_OFFSET + RESOLUTION_HEIGHT_OFFSET, info_y + 96, height as nat, TextStyle { font: FontSize::Body, color: PaletteColor::TextMuted }),
        DrawStep::Rect(cx - INFO_WIDTH / 2, top + 320, INFO_WIDTH as nat, 1, PaletteColor::Border),
        DrawStep::Text(cx - 90, top + 360, "INITIALIZING SYSTEM"@, small_style()),
    ]
}

/// Appends the drawing operations of `row`.
fn push_row(items: &mut Vec<DrawItem>, row: InfoRow)
    requires
        row.x + INFO_VALUE_OFFSET + RESOLUTION_HEIGHT_OFFSET <= i32::MAX,
    ensures
        steps_of(final(items)@) == steps_of(old(items)@) + info_row_steps(row),
{
    let row_items = row.draw_items();
    let ghost before = items@;
    let mut i: usize = 0;
    while i < row_items.len()
        invariant
            0 <= i <= row_items@.len(),
            items@ == before + row_items@.subrange(0, i as int),
        decreases row_items@.len() - i,
    {
        items.push(row_items[i]);
        assert(row_items@.subrange(0, i + 1) =~= row_items@.subrange(0, i as int).push(row_items@[i as int]));
        i = i + 1;
    }
    assert(row_items@.subrange(0, i as int) =~= row_items@);
    assert(steps_of(items@) =~= steps_of(before) + steps_of(row_items@));
}

/// The drawing operations of the boot screen of a `width` x `height`
/// framebuffer, in order.
pub fn boot_screen_plan(width: u32, height: u32) -> (r: Vec<DrawItem>)
    requires
        height / 2 + CONTENT_HEIGHT / 2 <= i32::MAX,
        width / 2 + INFO_VALUE_OFFSET + RESOLUTION_HEIGHT_OFFSET <= i32::MAX,
    ensures
        steps_of(r@) == boot_screen_steps(width, height),
{
    let screen = ScreenGeometry::new(width, height);
    let layout = BootLayout::new(screen);
    let center_x = screen.center_x();
    let mut items: Vec<DrawItem> = Vec::new();
    items.push(DrawItem::Clear { color: PaletteColor::Background });
    let header = Header::new(screen.centered_x(150), layout.header_y(), "MENTACORE").label();
    items.push(DrawItem::Text { x: header.x, y: header.y, text: header.text, style: header.style });
    items.push(DrawItem::Text {
        x: screen.centered_x(164),
        y: layout.subtitle_y(),
        text: "OPERATING ENVIRONMENT",
        style: TextStyle::small(),
    });
    items.push(DrawItem::Rect {
        x: screen.centered_x(CONTENT_WIDTH),
        y: layout.header_separator_y(),
        width: CONTENT_WIDTH,
        height: 1,
        color: PaletteColor::Border,
    });
    let indicator = StatusIndicator::new(center_x - 110, layout.status_y(), 6, Status::Ready);
    items.push(DrawItem::Circle {
        x: indicator.x,
        y: indicator.y,
        diameter: indicator.diameter(),
        color: indicator.color(),
    });
    items.push(DrawItem::Text {
        x: center_x - 85,
        y: layout.status_text_y(),
        text: indicator.status().text(),
        style: TextStyle { font: FontSize::Body, color: PaletteColor::Success },
    });
    let ghost head = steps_of(items@);
    let info_x = screen.centered_x(INFO_WIDTH);
    let ghost cx: int = (width / 2) as int;
    let ghost top: int = (height / 2) as int - CONTENT_HEIGHT / 2;
    let ghost ix = cx - INFO_WIDTH / 2;
    let ghost iy = top + 180;
    let kernel = InfoRow::status(info_x, layout.info_y(0), "Kernel", Status::Ready);
    assert(info_row_steps(kernel) =~= ready_row(ix, iy, "Kernel"@));
    push_row(&mut items, kernel);
    let bootloader = InfoRow::status(info_x, layout.info_y(1), "Bootloader", Status::Ready);
    assert(info_row_steps(bootloader) =~= ready_row(ix, iy + 32, "Bootloader"@));
    push_row(&mut items, bootloader);
    let graphics = InfoRow::status(info_x, layout.info_y(2), "Graphics", Status::Ready);
    assert(info_row_steps(graphics) =~= ready_row(ix, iy + 64, "Graphics"@));
    push_row(&mut items, graphics);
    let ghost before_fb = steps_of(items@);
    let framebuffer_row = InfoRow::resolution(info_x, layout.info_y(3), "Framebuffer", width, height, TextStyle::muted());
    let ghost muted = TextStyle { font: FontSize::Body, color: PaletteColor::TextMuted };
    let ghost fb_steps = seq![
        DrawStep::Text(ix, iy + 96, "Framebuffer"@, body_style()),
        DrawStep::Text(ix + INFO_VALUE_OFFSET, iy + 96, ""@, muted),
        DrawStep::Number(ix + INFO_VALUE_OFFSET, iy + 96, width as nat, muted),
        DrawStep::Text(ix + INFO_VALUE_OFFSET + RESOLUTION_SEPARATOR_OFFSET, iy + 96, " X "@, muted),
        DrawStep::Number(ix + INFO_VALUE_OFFSET + RESOLUTION_HEIGHT_OFFSET, iy + 96, height as nat, muted),
    ];
    assert(info_row_steps(framebuffer_row) =~= fb_steps);
    push_row(&mut items, framebuffer_row);
    let ghost rows = steps_of(items@);
    items.push(DrawItem::Rect {
        x: screen.centered_x(INFO_WIDTH),
        y: layout.footer_separator_y(),
        width: INFO_WIDTH,
        height: 1,
        color: PaletteColor::Border,
    });
    items.push(DrawItem::Text {
        x: screen.centered_x(180),
        y: layout.footer_y(),
        text: "INITIALIZING SYSTEM",
        style: TextStyle::small(),
    });
    assert(head =~= seq![
        DrawStep::Clear(PaletteColor::Background),
        DrawStep::Text(cx - 75, top, "MENTACORE"@, TextStyle { font: FontSize::Title, color: PaletteColor::Text }),
        DrawStep::Text(cx - 82, top + 32, "OPERATING ENVIRONMENT"@, small_style()),
        DrawStep::Rect(cx - CONTENT_WIDTH / 2, top + 70, CONTENT_WIDTH as nat, 1, PaletteColor::Border),
        DrawStep::Circle(cx - 110, top + 110, 12, PaletteColor::Success),
        DrawStep::Text(cx - 85, top + 120, "SYSTEM READY"@, TextStyle { font: FontSize::Body, color: PaletteColor::Success }),
    ]);
    let ghost tail = seq![
        DrawStep::Rect(cx - INFO_WIDTH / 2, top + 320, INFO_WIDTH as nat, 1, PaletteColor::Border),
        DrawStep::Text(cx - 90, top + 360, "INITIALIZING SYSTEM"@, small_style()),
    ];
    assert(steps_of(items@) =~= rows + tail);
    assert(rows == head + ready_row(ix, iy, "Kernel"@) + ready_row(ix, iy + 32, "Bootloader"@) + ready_row(ix, iy + 64, "Graphics"@) + fb_steps);
    assert(steps_of(items@) =~= boot_screen_steps(width, height));
    items
}


/// The point a drawing step is placed at; none for clearing the screen.
pub open spec fn step_origin(s: DrawStep) -> Option<(int, int)> {
    match s {
        DrawStep::Clear(_) => None,
        DrawStep::Text(x, y, _, _) => Some((x, y)),
        DrawStep::Number(x, y, _, _) => Some((x, y)),
        DrawStep::Rect(x, y, _, _, _) => Some((x, y)),
        DrawStep::Circle(x, y, _, _) => Some((x, y)),
    }
}

/// Whether a step is placed at a point of a `width` x `height` screen.
pub open spec fn placed_on_screen(s: DrawStep, width: u32, height: u32) -> bool {
    match step_origin(s) {
        Some((x, y)) => 0 <= x < width && 0 <= y <= height,
        None => false,
    }
}

/// Law: on a screen at least as large as the content block, the boot screen
/// first clears the whole screen and then places every element on screen;
/// both separators are centered horizontally; and the resolution row shows
/// the framebuffer's width and then its height, on one line.
pub proof fn lemma_boot_screen_on_screen(width: u32, height: u32)
    requires
        CONTENT_WIDTH <= width,
        CONTENT_HEIGHT <= height,
    ensures
        ({
            let steps = boot_screen_steps(width, height);
            &&& steps[0] == DrawStep::Clear(PaletteColor::Background)
            &&& forall|i: int| 1 <= i < steps.len() ==> placed_on_screen(#[trigger] steps[i], width, height)
            &&& forall|i: int| 0 <= i < steps.len() && #[trigger] steps[i] is Rect ==> steps[i]->Rect_0
                + steps[i]->Rect_2 / 2 == width / 2
            &&& exists|i: int, j: int| 0 <= i < j < steps.len() && steps[i] is Number && steps[j] is Number
                && steps[i]->Number_2 == width && steps[j]->Number_2 == height
                && steps[i]->Number_1 == steps[j]->Number_1
        }),
{
    let steps = boot_screen_steps(width, height);
    assert(steps.len() == 19);
    assert(steps[14] is Number && steps[16] is Number);
}

} // verus!
