//! The composition engine: rasterizes the encoded module grid onto the
//! surface at a fixed scale and anchor, and lays out text lines top to
//! bottom with a running vertical cursor. Glyph rasterization itself is an
//! outside collaborator: each line becomes a `TextOp` with its computed
//! position, handed to the display layer to draw.

use vstd::prelude::*;
use vstd::string::StringExecFns;
use vstd::arithmetic::div_mod::lemma_fundamental_div_mod_converse;
use qrcodegen_no_heap::QrCode;
use crate::geometry::{Point, Rectangle, Size};
use crate::qrcode::{grid_wf, qr_encode_text, qr_encoding, qr_get_module, qr_grid, qr_side, QR_BUFFER_LEN};
use crate::surface::{Color, Framebuffer};

verus! {

/// Maps one module of the code grid to a pixel color: a dark module
/// renders as `Off`, a light one as `On`. The polarity is fixed; on the
/// physical medium it decides whether the code comes out dark-on-light.
pub open spec fn to_color_spec(x: bool) -> Color {
    if x {
        Color::Off
    } else {
        Color::On
    }
}

/// The mark color of a dark module and the background color of a light one.
pub fn to_color(x: bool) -> (c: Color)
    ensures
        c == to_color_spec(x),
{
    if x {
        Color::Off
    } else {
        Color::On
    }
}

/// Which of the two fixed fonts a line uses; the display layer maps each
/// to its glyph set.
#[derive(Clone, Copy, PartialEq, Eq, Structural, Debug)]
pub enum FontChoice {
    Heading,
    Body,
}

/// One line of the fixed layout: its text, its font and the vertical room
/// it is given.
#[derive(Clone, Debug)]
pub struct TextLine {
    pub text: String,
    pub font: FontChoice,
    pub height: u32,
}

/// One text draw request: render `text` with `font` at (x, y), anchored
/// top-left, leaving pixels outside the glyph strokes untouched.
#[derive(Clone, Debug)]
pub struct TextOp {
    pub text: String,
    pub font: FontChoice,
    pub x: i32,
    pub y: i32,
}

/// The two fatal conditions: the surface has the wrong geometry, or the
/// payload cannot fit the largest code version.
#[derive(Clone, Copy, PartialEq, Eq, Structural, Debug)]
pub enum LayoutError {
    ConfigurationError,
    EncodingCapacityError,
}

pub const HEADING_HEIGHT: u32 = 24;

pub const BODY_HEIGHT: u32 = 12;

/// The vertical cursor after the first `k` lines have been laid out:
/// each line advances it by the padding and then by the line's height.
pub open spec fn stack_y(padding: int, lines: Seq<TextLine>, k: int) -> int
    decreases k,
{
    if k <= 0 {
        0
    } else {
        stack_y(padding, lines, k - 1) + padding + lines[k - 1].height
    }
}

/// The cursor stays within `k * 8192` when padding and heights stay
/// within 4096 each.
proof fn lemma_stack_y_bound(padding: int, lines: Seq<TextLine>, k: int)
    requires
        0 <= k <= lines.len(),
        0 <= padding <= 4096,
        forall|i: int| 0 <= i < lines.len() ==> (#[trigger] lines[i]).height <= 4096,
    ensures
        0 <= stack_y(padding, lines, k) <= k * 8192,
    decreases k,
{
    if k > 0 {
        lemma_stack_y_bound(padding, lines, k - 1);
    }
}

/// `op` is the draw request that line `i` of the stack produces: same
/// text and font, the fixed column, and the cursor position after `i`
/// earlier lines plus one padding step.
pub open spec fn op_matches_line(
    op: TextOp,
    x: int,
    padding: int,
    lines: Seq<TextLine>,
    i: int,
) -> bool {
    &&& op.x == x
    &&& op.y == stack_y(padding, lines, i) + padding
    &&& op.font == lines[i].font
    &&& op.text@ == lines[i].text@
}

/// The whole operation list of one layout pass over `lines`.
pub open spec fn ops_match(ops: Seq<TextOp>, x: int, padding: int, lines: Seq<TextLine>) -> bool {
    &&& ops.len() == lines.len()
    &&& forall|i: int|
        0 <= i < lines.len() ==> op_matches_line(#[trigger] ops[i], x, padding, lines, i)
}

/// The stateful vertical-layout cursor: a fixed column, a fixed padding,
/// and a running vertical offset that only ever grows.
pub struct StackContext {
    pub x: i32,
    pub y: i32,
    pub padding: u32,
}

impl StackContext {
    /// A fresh cursor at the given column; the vertical offset starts at 0.
    pub fn new(x: i32, padding: u32) -> (ctx: StackContext)
        ensures
            ctx == (StackContext { x, y: 0, padding }),
    {
        StackContext { x, y: 0, padding }
    }

    /// Lays out one line: advances the cursor by the padding, records the
    /// draw request there, then advances by the line height. The cursor
    /// never rewinds.
    pub fn draw_text(&mut self, content: &str, font: FontChoice, height: u32) -> (op: TextOp)
        requires
            0 <= old(self).y,
            old(self).y + old(self).padding + height <= i32::MAX,
        ensures
            final(self).x == old(self).x,
            final(self).padding == old(self).padding,
            final(self).y == old(self).y + old(self).padding + height,
            old(self).y <= final(self).y,
            op.x == old(self).x,
            op.y == old(self).y + old(self).padding,
            op.font == font,
            op.text@ == content@,
    {
        self.y = self.y + self.padding as i32;
        let op = TextOp { text: String::from_str(content), font, x: self.x, y: self.y };
        self.y = self.y + height as i32;
        op
    }
}

/// The named configuration of one layout: the payload, the geometry the
/// layout was designed for, the code's scale and anchor, and the text
/// column, spacing and lines.
pub struct LayoutConfig {
    pub payload: String,
    pub expected_width: u32,
    pub expected_height: u32,
    pub module_size: u32,
    pub qr_anchor: Point,
    pub text_x: i32,
    pub padding: u32,
    pub lines: Vec<TextLine>,
}

impl LayoutConfig {
    /// Bounds under which every coordinate the layout computes fits its
    /// machine integer.
    pub open spec fn wf(self) -> bool {
        &&& 1 <= self.module_size <= 1024
        &&& -100000 <= self.qr_anchor.x <= 100000
        &&& -100000 <= self.qr_anchor.y <= 100000
        &&& self.padding <= 4096
        &&& self.lines@.len() <= 64
        &&& forall|i: int| 0 <= i < self.lines@.len() ==> (#[trigger] self.lines@[i]).height <= 4096
    }
}

/// The business-card instance: the fixed payload, a 296 x 128 surface,
/// 4 pixels per module anchored at (6, 6), and three lines of text at
/// column 128 with padding 6.
pub fn card_config() -> (cfg: LayoutConfig)
    ensures
        cfg.wf(),
        cfg.payload@ == "https://yumi0n1p1.dev"@,
        cfg.expected_width == 296,
        cfg.expected_height == 128,
        cfg.module_size == 4,
        cfg.qr_anchor == (Point { x: 6, y: 6 }),
        cfg.text_x == 128,
        cfg.padding == 6,
        cfg.lines@.len() == 3,
        cfg.lines@[0].text@ == "Kagurazaka"@,
        cfg.lines@[0].font == FontChoice::Heading,
        cfg.lines@[0].height == HEADING_HEIGHT,
        cfg.lines@[1].text@ == "Yumi"@,
        cfg.lines@[1].font == FontChoice::Heading,
        cfg.lines@[1].height == HEADING_HEIGHT,
        cfg.lines@[2].text@ == "Id @yumi0n1p1"@,
        cfg.lines@[2].font == FontChoice::Body,
        cfg.lines@[2].height == BODY_HEIGHT,
{
    let mut lines: Vec<TextLine> = Vec::new();
    lines.push(
        TextLine {
            text: String::from_str("Kagurazaka"),
            font: FontChoice::Heading,
            height: HEADING_HEIGHT,
        },
    );
    lines.push(
        TextLine {
            text: String::from_str("Yumi"),
            font: FontChoice::Heading,
            height: HEADING_HEIGHT,
        },
    );
    lines.push(
        TextLine {
            text: String::from_str("Id @yumi0n1p1"),
            font: FontChoice::Body,
            height: BODY_HEIGHT,
        },
    );
    LayoutConfig {
        payload: String::from_str("https://yumi0n1p1.dev"),
        expected_width: 296,
        expected_height: 128,
        module_size: 4,
        qr_anchor: Point { x: 6, y: 6 },
        text_x: 128,
        padding: 6,
        lines,
    }
}

/// Lays out every configured line with one cursor pass and returns the
/// draw requests, each at the position the cursor arithmetic gives it.
pub fn text_component(cfg: &LayoutConfig) -> (ops: Vec<TextOp>)
    requires
        cfg.wf(),
    ensures
        ops_match(ops@, cfg.text_x as int, cfg.padding as int, cfg.lines@),
{
    let mut ctx = StackContext::new(cfg.text_x, cfg.padding);
    let mut ops: Vec<TextOp> = Vec::new();
    let mut i: usize = 0;
    while i < cfg.lines.len()
        invariant
            cfg.wf(),
            i <= cfg.lines@.len(),
            ctx.x == cfg.text_x,
            ctx.padding == cfg.padding,
            ctx.y == stack_y(cfg.padding as int, cfg.lines@, i as int),
            0 <= ctx.y,
            ops@.len() == i,
            forall|j: int|
                0 <= j < i ==> op_matches_line(
                    #[trigger] ops@[j],
                    cfg.text_x as int,
                    cfg.padding as int,
                    cfg.lines@,
                    j,
                ),
        decreases cfg.lines@.len() - i,
    {
        proof {
            lemma_stack_y_bound(cfg.padding as int, cfg.lines@, i as int);
        }
        let line = &cfg.lines[i];
        let op = ctx.draw_text(line.text.as_str(), line.font, line.height);
        ops.push(op);
        i = i + 1;
    }
    ops
}

/// The color a surface pixel has once a module grid `g` has been
/// rasterized over `fb0` at `msize` pixels per module, anchored at
/// (ax, ay): inside the scaled block, the color of the covering module;
/// outside it, the pixel `fb0` already had.
pub open spec fn qr_block_pixel(
    fb0: Framebuffer,
    g: Seq<Seq<bool>>,
    msize: int,
    ax: int,
    ay: int,
    x: int,
    y: int,
) -> Color {
    if ax <= x < ax + g.len() * msize && ay <= y < ay + g.len() * msize {
        to_color_spec(g[(x - ax) / msize][(y - ay) / msize])
    } else {
        fb0.color_at(x, y)
    }
}

/// A point inside cell `q` of a row of `msize`-wide cells starting at
/// `base` divides back to `q`.
proof fn lemma_cell_div(base: int, msize: int, q: int, v: int)
    requires
        msize >= 1,
        base + q * msize <= v < base + q * msize + msize,
    ensures
        (v - base) / msize == q,
{
    lemma_fundamental_div_mod_converse(v - base, msize, q, v - base - q * msize);
}

/// Module fidelity law: every pixel of the `msize` x `msize` block that
/// module (mx, my) maps to carries exactly that module's color.
pub proof fn lemma_module_fidelity(
    fb0: Framebuffer,
    g: Seq<Seq<bool>>,
    msize: int,
    ax: int,
    ay: int,
    mx: int,
    my: int,
    dx: int,
    dy: int,
)
    requires
        msize >= 1,
        0 <= mx < g.len(),
        0 <= my < g.len(),
        0 <= dx < msize,
        0 <= dy < msize,
    ensures
        qr_block_pixel(fb0, g, msize, ax, ay, ax + mx * msize + dx, ay + my * msize + dy)
            == to_color_spec(g[mx][my]),
{
    assert(0 <= mx * msize && mx * msize + dx < g.len() * msize) by (nonlinear_arith)
        requires
            msize >= 1,
            0 <= mx < g.len(),
            0 <= dx < msize,
    ;
    assert(0 <= my * msize && my * msize + dy < g.len() * msize) by (nonlinear_arith)
        requires
            msize >= 1,
            0 <= my < g.len(),
            0 <= dy < msize,
    ;
    lemma_cell_div(ax, msize, mx, ax + mx * msize + dx);
    lemma_cell_div(ay, msize, my, ay + my * msize + dy);
}

/// Rasterizes the module grid: for every module (x, y), fills a
/// `size` x `size` rectangle at `top_left + (x * size, y * size)` with the
/// mark color if the module is dark, else the background color. Pixels
/// outside the scaled block keep their color.
pub fn draw_qr(canvas: &mut Framebuffer, qr: &QrCode, size: u32, top_left: Point)
    requires
        old(canvas).wf(),
        1 <= size <= 1024,
        -100000 <= top_left.x <= 100000,
        -100000 <= top_left.y <= 100000,
    ensures
        final(canvas).wf(),
        final(canvas).spec_width() == old(canvas).spec_width(),
        final(canvas).spec_height() == old(canvas).spec_height(),
        forall|px: int, py: int|
            0 <= px < old(canvas).spec_width() && 0 <= py < old(canvas).spec_height()
                ==> final(canvas).color_at(px, py) == qr_block_pixel(
                    *old(canvas),
                    qr_grid(*qr),
                    size as int,
                    top_left.x as int,
                    top_left.y as int,
                    px,
                    py,
                ),
{
    let side: i32 = qr_side(qr);
    let ghost g = qr_grid(*qr);
    let ghost fb0 = *canvas;
    let ghost m = size as int;
    let ghost ax = top_left.x as int;
    let ghost ay = top_left.y as int;
    let mut x: i32 = 0;
    while x < side
        invariant
            canvas.wf(),
            canvas.spec_width() == fb0.spec_width(),
            canvas.spec_height() == fb0.spec_height(),
            0 <= x <= side,
            side == g.len(),
            21 <= side <= 177,
            g == qr_grid(*qr),
            1 <= size <= 1024,
            m == size as int,
            ax == top_left.x as int,
            ay == top_left.y as int,
            -100000 <= top_left.x <= 100000,
            -100000 <= top_left.y <= 100000,
            forall|px: int, py: int|
                0 <= px < fb0.spec_width() && 0 <= py < fb0.spec_height()
                    ==> canvas.color_at(px, py) == (if ax <= px < ax + x * m
                            && ay <= py < ay + side * m {
                        to_color_spec(g[(px - ax) / m][(py - ay) / m])
                    } else {
                        fb0.color_at(px, py)
                    }),
        decreases side - x,
    {
        let mut y: i32 = 0;
        while y < side
            invariant
                canvas.wf(),
                canvas.spec_width() == fb0.spec_width(),
                canvas.spec_height() == fb0.spec_height(),
                0 <= x < side,
                0 <= y <= side,
                side == g.len(),
                21 <= side <= 177,
                g == qr_grid(*qr),
                1 <= size <= 1024,
                m == size as int,
                ax == top_left.x as int,
                ay == top_left.y as int,
                -100000 <= top_left.x <= 100000,
                -100000 <= top_left.y <= 100000,
                forall|px: int, py: int|
                    0 <= px < fb0.spec_width() && 0 <= py < fb0.spec_height()
                        ==> canvas.color_at(px, py) == (if (ax <= px < ax + x * m
                                && ay <= py < ay + side * m)
                                || (ax + x * m <= px < ax + x * m + m
                                    && ay <= py < ay + y * m) {
                            to_color_spec(g[(px - ax) / m][(py - ay) / m])
                        } else {
                            fb0.color_at(px, py)
                        }),
            decreases side - y,
        {
            proof {
                assert(0 <= x * m <= 176 * 1024 && 0 <= y * m <= 176 * 1024)
                    by (nonlinear_arith)
                    requires
                        0 <= x <= 176,
                        0 <= y <= 176,
                        1 <= m <= 1024,
                ;
            }
            let dark = qr_get_module(qr, x, y);
            let cell_x: i32 = top_left.x + x * (size as i32);
            let cell_y: i32 = top_left.y + y * (size as i32);
            let rect = Rectangle::new(
                Point::new(cell_x, cell_y),
                Size::new(size, size),
            );
            let ghost prev = *canvas;
            canvas.fill_rect(rect, to_color(dark));
            proof {
                assert((y + 1) * m == y * m + m && (x + 1) * m == x * m + m)
                    by (nonlinear_arith)
                ;
                assert forall|px: int, py: int|
                    0 <= px < fb0.spec_width() && 0 <= py < fb0.spec_height()
                        implies canvas.color_at(px, py) == (if (ax <= px < ax + x * m
                                && ay <= py < ay + side * m)
                                || (ax + x * m <= px < ax + x * m + m
                                    && ay <= py < ay + (y + 1) * m) {
                            to_color_spec(g[(px - ax) / m][(py - ay) / m])
                        } else {
                            fb0.color_at(px, py)
                        }) by {
                    if rect.spec_contains(px, py) {
                        lemma_cell_div(ax, m, x as int, px);
                        lemma_cell_div(ay, m, y as int, py);
                    }
                }
            }
            y = y + 1;
        }
        proof {
            assert((x + 1) * m == x * m + m) by (nonlinear_arith);
        }
        x = x + 1;
    }
}

/// A zero-filled scratch buffer of the given length.
fn zeroed_buffer(n: usize) -> (v: Vec<u8>)
    ensures
        v@.len() == n,
{
    let mut v: Vec<u8> = Vec::new();
    let mut i: usize = 0;
    while i < n
        invariant
            i <= n,
            v@.len() == i,
        decreases n - i,
    {
        v.push(0u8);
        i = i + 1;
    }
    v
}

/// Encodes the configured payload and rasterizes the resulting grid at
/// the configured scale and anchor; on capacity failure the surface is
/// left untouched.
pub fn qr_component(canvas: &mut Framebuffer, cfg: &LayoutConfig) -> (r: Result<(), LayoutError>)
    requires
        old(canvas).wf(),
        cfg.wf(),
    ensures
        final(canvas).wf(),
        final(canvas).spec_width() == old(canvas).spec_width(),
        final(canvas).spec_height() == old(canvas).spec_height(),
        match qr_encoding(cfg.payload@) {
            Some(g) => {
                &&& r is Ok
                &&& forall|px: int, py: int|
                    0 <= px < old(canvas).spec_width() && 0 <= py < old(canvas).spec_height()
                        ==> final(canvas).color_at(px, py) == qr_block_pixel(
                            *old(canvas),
                            g,
                            cfg.module_size as int,
                            cfg.qr_anchor.x as int,
                            cfg.qr_anchor.y as int,
                            px,
                            py,
                        )
            },
            None => {
                &&& r == Err::<(), LayoutError>(LayoutError::EncodingCapacityError)
                &&& *final(canvas) == *old(canvas)
            },
        },
{
    let mut tempbuffer: Vec<u8> = zeroed_buffer(QR_BUFFER_LEN);
    let mut outbuffer: Vec<u8> = zeroed_buffer(QR_BUFFER_LEN);
    match qr_encode_text(cfg.payload.as_str(), &mut tempbuffer, &mut outbuffer) {
        Ok(qr) => {
            draw_qr(canvas, &qr, cfg.module_size, cfg.qr_anchor);
            Ok(())
        },
        Err(_) => Err(LayoutError::EncodingCapacityError),
    }
}

/// Encodes a text payload and hands the module grid out as plain
/// booleans: entry [x][y] of the result is true exactly when the module
/// at column x, row y is dark. Fails with the capacity error exactly when
/// the payload fits no supported version.
pub fn encode_payload(text: &str) -> (r: Result<Vec<Vec<bool>>, LayoutError>)
    ensures
        match qr_encoding(text@) {
            Some(g) => {
                &&& r is Ok
                &&& grid_wf(g)
                &&& (r matches Ok(rows) ==> {
                    &&& rows@.len() == g.len()
                    &&& forall|i: int| 0 <= i < g.len() ==> (#[trigger] rows@[i])@.len() == g.len()
                    &&& forall|i: int, j: int|
                        0 <= i < g.len() && 0 <= j < g.len() ==> rows@[i]@[j] == g[i][j]
                })
            },
            None => {
                &&& r is Err
                &&& (r matches Err(e) ==> e == LayoutError::EncodingCapacityError)
            },
        },
{
    let mut tempbuffer: Vec<u8> = zeroed_buffer(QR_BUFFER_LEN);
    let mut outbuffer: Vec<u8> = zeroed_buffer(QR_BUFFER_LEN);
    match qr_encode_text(text, &mut tempbuffer, &mut outbuffer) {
        Ok(qr) => {
            let ghost g = qr_grid(qr);
            let side: i32 = qr_side(&qr);
            let mut rows: Vec<Vec<bool>> = Vec::new();
            let mut x: i32 = 0;
            while x < side
                invariant
                    0 <= x <= side,
                    side == g.len(),
                    g == qr_grid(qr),
                    rows@.len() == x,
                    forall|i: int| 0 <= i < x ==> (#[trigger] rows@[i])@.len() == g.len(),
                    forall|i: int, j: int|
                        0 <= i < x && 0 <= j < g.len() ==> rows@[i]@[j] == g[i][j],
                decreases side - x,
            {
                let mut col: Vec<bool> = Vec::new();
                let mut y: i32 = 0;
                while y < side
                    invariant
                        0 <= x < side,
                        0 <= y <= side,
                        side == g.len(),
                        g == qr_grid(qr),
                        col@.len() == y,
                        forall|j: int| 0 <= j < y ==> col@[j] == g[x as int][j],
                    decreases side - y,
                {
                    col.push(qr_get_module(&qr, x, y));
                    y = y + 1;
                }
                rows.push(col);
                x = x + 1;
            }
            Ok(rows)
        },
        Err(_) => Err(LayoutError::EncodingCapacityError),
    }
}

/// Composes one full layout pass under `cfg`: refuses to draw on a
/// surface whose bounding box is not the configured geometry, encodes the
/// payload, rasterizes the grid, and lays out the text lines. On either
/// failure the surface is left untouched; on success the surface holds
/// the rasterized block and the returned operations are the text stack.
pub fn render_layout(canvas: &mut Framebuffer, cfg: &LayoutConfig) -> (r: Result<
    Vec<TextOp>,
    LayoutError,
>)
    requires
        old(canvas).wf(),
        cfg.wf(),
    ensures
        final(canvas).wf(),
        final(canvas).spec_width() == old(canvas).spec_width(),
        final(canvas).spec_height() == old(canvas).spec_height(),
        !(old(canvas).spec_width() == cfg.expected_width
            && old(canvas).spec_height() == cfg.expected_height) ==> {
            &&& r is Err
            &&& (r matches Err(e) ==> e == LayoutError::ConfigurationError)
            &&& *final(canvas) == *old(canvas)
        },
        (old(canvas).spec_width() == cfg.expected_width
            && old(canvas).spec_height() == cfg.expected_height) ==> match qr_encoding(
            cfg.payload@,
        ) {
            Some(g) => {
                &&& r is Ok
                &&& (r matches Ok(ops) ==> ops_match(
                    ops@,
                    cfg.text_x as int,
                    cfg.padding as int,
                    cfg.lines@,
                ))
                &&& forall|px: int, py: int|
                    0 <= px < old(canvas).spec_width() && 0 <= py < old(canvas).spec_height()
                        ==> final(canvas).color_at(px, py) == qr_block_pixel(
                            *old(canvas),
                            g,
                            cfg.module_size as int,
                            cfg.qr_anchor.x as int,
                            cfg.qr_anchor.y as int,
                            px,
                            py,
                        )
            },
            None => {
                &&& r is Err
                &&& (r matches Err(e) ==> e == LayoutError::EncodingCapacityError)
                &&& *final(canvas) == *old(canvas)
            },
        },
{
    let bb = canvas.bounding_box();
    let expected = Rectangle::new(
        Point::new(0, 0),
        Size::new(cfg.expected_width, cfg.expected_height),
    );
    if bb != expected {
        return Err(LayoutError::ConfigurationError);
    }
    match qr_component(canvas, cfg) {
        Ok(()) => Ok(text_component(cfg)),
        Err(e) => Err(e),
    }
}

/// One layout pass of the card instance on a 296 x 128 surface: the code
/// block at 4 pixels per module anchored at (6, 6), then the three fixed
/// lines at column 128 with padding 6, whose cursor positions come out as
/// 6, 36 and 66.
pub fn draw(canvas: &mut Framebuffer) -> (r: Result<Vec<TextOp>, LayoutError>)
    requires
        old(canvas).wf(),
    ensures
        final(canvas).wf(),
        final(canvas).spec_width() == old(canvas).spec_width(),
        final(canvas).spec_height() == old(canvas).spec_height(),
        !(old(canvas).spec_width() == 296 && old(canvas).spec_height() == 128) ==> {
            &&& r is Err
            &&& (r matches Err(e) ==> e == LayoutError::ConfigurationError)
            &&& *final(canvas) == *old(canvas)
        },
        (old(canvas).spec_width() == 296 && old(canvas).spec_height() == 128) ==> match qr_encoding(
            "https://yumi0n1p1.dev"@,
        ) {
            Some(g) => {
                &&& r is Ok
                &&& (r matches Ok(ops) ==> {
                    &&& ops@.len() == 3
                    &&& ops@[0].x == 128 && ops@[0].y == 6 && ops@[0].font == FontChoice::Heading
                        && ops@[0].text@ == "Kagurazaka"@
                    &&& ops@[1].x == 128 && ops@[1].y == 36 && ops@[1].font == FontChoice::Heading
                        && ops@[1].text@ == "Yumi"@
                    &&& ops@[2].x == 128 && ops@[2].y == 66 && ops@[2].font == FontChoice::Body
                        && ops@[2].text@ == "Id @yumi0n1p1"@
                })
                &&& forall|px: int, py: int|
                    0 <= px < old(canvas).spec_width() && 0 <= py < old(canvas).spec_height()
                        ==> final(canvas).color_at(px, py) == qr_block_pixel(
                            *old(canvas),
                            g,
                            4,
                            6,
                            6,
                            px,
                            py,
                        )
            },
            None => {
                &&& r is Err
                &&& (r matches Err(e) ==> e == LayoutError::EncodingCapacityError)
                &&& *final(canvas) == *old(canvas)
            },
        },
{
    let cfg = card_config();
    let r = render_layout(canvas, &cfg);
    proof {
        assert(stack_y(6, cfg.lines@, 0) == 0);
        assert(stack_y(6, cfg.lines@, 1) == 30);
        assert(stack_y(6, cfg.lines@, 2) == 60);
    }
    r
}

/// Determinism law, pixel side: the color `render_layout`'s contract
/// assigns each pixel is a function of the initial pixels and the
/// configuration alone, so two passes over identically initialized
/// surfaces of the same geometry agree pixel for pixel.
pub proof fn lemma_render_deterministic(
    fb1: Framebuffer,
    fb2: Framebuffer,
    g: Seq<Seq<bool>>,
    msize: int,
    ax: int,
    ay: int,
)
    requires
        fb1.spec_width() == fb2.spec_width(),
        fb1.spec_height() == fb2.spec_height(),
        forall|x: int, y: int|
            0 <= x < fb1.spec_width() && 0 <= y < fb1.spec_height() ==> fb1.color_at(x, y)
                == fb2.color_at(x, y),
    ensures
        forall|x: int, y: int|
            0 <= x < fb1.spec_width() && 0 <= y < fb1.spec_height() ==> qr_block_pixel(
                fb1,
                g,
                msize,
                ax,
                ay,
                x,
                y,
            ) == qr_block_pixel(fb2, g, msize, ax, ay, x, y),
{
}

/// Idempotence law: rasterizing the same grid at the same scale and
/// anchor over a surface that already carries it changes nothing — the
/// block is overwritten with itself and every other pixel keeps the
/// color it kept the first time.
pub proof fn lemma_render_idempotent(
    fb1: Framebuffer,
    fb2: Framebuffer,
    g: Seq<Seq<bool>>,
    msize: int,
    ax: int,
    ay: int,
)
    requires
        fb1.spec_width() == fb2.spec_width(),
        fb1.spec_height() == fb2.spec_height(),
        forall|x: int, y: int|
            0 <= x < fb1.spec_width() && 0 <= y < fb1.spec_height() ==> fb2.color_at(x, y)
                == qr_block_pixel(fb1, g, msize, ax, ay, x, y),
    ensures
        forall|x: int, y: int|
            0 <= x < fb1.spec_width() && 0 <= y < fb1.spec_height() ==> qr_block_pixel(
                fb2,
                g,
                msize,
                ax,
                ay,
                x,
                y,
            ) == qr_block_pixel(fb1, g, msize, ax, ay, x, y),
{
}

/// Determinism law, text side: any two operation lists that satisfy one
/// layout's `ops_match` agree in every field of every operation.
pub proof fn lemma_ops_deterministic(
    ops1: Seq<TextOp>,
    ops2: Seq<TextOp>,
    x: int,
    padding: int,
    lines: Seq<TextLine>,
)
    requires
        ops_match(ops1, x, padding, lines),
        ops_match(ops2, x, padding, lines),
    ensures
        ops1.len() == ops2.len(),
        forall|i: int|
            0 <= i < ops1.len() ==> {
                &&& (#[trigger] ops1[i]).x == ops2[i].x
                &&& ops1[i].y == ops2[i].y
                &&& ops1[i].font == ops2[i].font
                &&& ops1[i].text@ == ops2[i].text@
            },
{
}

} // verus!
