use badge_layout::draw::{
    card_config, draw, encode_payload, to_color, FontChoice, LayoutConfig, LayoutError,
    StackContext, TextLine, BODY_HEIGHT, HEADING_HEIGHT,
};
use badge_layout::geometry::{Point, Rectangle, Size};
use badge_layout::surface::{Color, Framebuffer};

const PAYLOAD: &str = "https://yumi0n1p1.dev";

fn assert_all_on(fb: &Framebuffer) {
    for y in 0..fb.height() {
        for x in 0..fb.width() {
            assert_eq!(fb.pixel(x, y), Color::On);
        }
    }
}

#[test]
fn to_color_polarity_is_fixed() {
    assert_eq!(to_color(true), Color::Off);
    assert_eq!(to_color(false), Color::On);
}

#[test]
fn fresh_surface_is_all_on() {
    let fb = Framebuffer::new(8, 5);
    assert_all_on(&fb);
    let bb = fb.bounding_box();
    assert_eq!(bb.top_left, Point { x: 0, y: 0 });
    assert_eq!(bb.size, Size { width: 8, height: 5 });
}

#[test]
fn fill_rect_fills_exactly_the_rectangle() {
    let mut fb = Framebuffer::new(10, 10);
    fb.fill_rect(
        Rectangle { top_left: Point { x: 2, y: 3 }, size: Size { width: 4, height: 2 } },
        Color::Off,
    );
    for y in 0..10u32 {
        for x in 0..10u32 {
            let inside = (2..6).contains(&x) && (3..5).contains(&y);
            let want = if inside { Color::Off } else { Color::On };
            assert_eq!(fb.pixel(x, y), want);
        }
    }
}

#[test]
fn fill_rect_clips_to_the_surface() {
    let mut fb = Framebuffer::new(6, 6);
    fb.fill_rect(
        Rectangle { top_left: Point { x: -3, y: 4 }, size: Size { width: 100, height: 100 } },
        Color::Off,
    );
    for y in 0..6u32 {
        for x in 0..6u32 {
            let want = if y >= 4 { Color::Off } else { Color::On };
            assert_eq!(fb.pixel(x, y), want);
        }
    }
}

#[test]
fn geometry_gate_rejects_wrong_surface() {
    let mut fb = Framebuffer::new(200, 100);
    let r = draw(&mut fb);
    assert_eq!(r.unwrap_err(), LayoutError::ConfigurationError);
    assert_all_on(&fb);

    let mut fb2 = Framebuffer::new(296, 127);
    assert_eq!(draw(&mut fb2).unwrap_err(), LayoutError::ConfigurationError);
    assert_all_on(&fb2);
}

#[test]
fn cursor_arithmetic_matches_the_fixed_stack() {
    let mut ctx = StackContext::new(128, 6);
    let op1 = ctx.draw_text("Kagurazaka", FontChoice::Heading, 24);
    assert_eq!((op1.x, op1.y), (128, 6));
    let op2 = ctx.draw_text("Yumi", FontChoice::Heading, 24);
    assert_eq!((op2.x, op2.y), (128, 36));
    let op3 = ctx.draw_text("Id @yumi0n1p1", FontChoice::Body, 12);
    assert_eq!((op3.x, op3.y), (128, 66));
    assert_eq!(ctx.y, 78);
}

#[test]
fn draw_emits_the_fixed_text_stack() {
    let mut fb = Framebuffer::new(296, 128);
    let ops = draw(&mut fb).unwrap();
    assert_eq!(ops.len(), 3);
    assert_eq!(ops[0].text, "Kagurazaka");
    assert_eq!(ops[0].font, FontChoice::Heading);
    assert_eq!((ops[0].x, ops[0].y), (128, 6));
    assert_eq!(ops[1].text, "Yumi");
    assert_eq!(ops[1].font, FontChoice::Heading);
    assert_eq!((ops[1].x, ops[1].y), (128, 36));
    assert_eq!(ops[2].text, "Id @yumi0n1p1");
    assert_eq!(ops[2].font, FontChoice::Body);
    assert_eq!((ops[2].x, ops[2].y), (128, 66));
}

#[test]
fn render_is_deterministic() {
    let mut fb1 = Framebuffer::new(296, 128);
    let mut fb2 = Framebuffer::new(296, 128);
    let ops1 = draw(&mut fb1).unwrap();
    let ops2 = draw(&mut fb2).unwrap();
    for y in 0..128u32 {
        for x in 0..296u32 {
            assert_eq!(fb1.pixel(x, y), fb2.pixel(x, y));
        }
    }
    assert_eq!(ops1.len(), ops2.len());
    for (a, b) in ops1.iter().zip(ops2.iter()) {
        assert_eq!(a.text, b.text);
        assert_eq!(a.font, b.font);
        assert_eq!((a.x, a.y), (b.x, b.y));
    }
}

#[test]
fn render_is_idempotent() {
    let mut once = Framebuffer::new(296, 128);
    draw(&mut once).unwrap();
    let mut twice = Framebuffer::new(296, 128);
    draw(&mut twice).unwrap();
    draw(&mut twice).unwrap();
    for y in 0..128u32 {
        for x in 0..296u32 {
            assert_eq!(once.pixel(x, y), twice.pixel(x, y));
        }
    }
}

#[test]
fn rasterized_blocks_match_the_module_grid() {
    let grid = encode_payload(PAYLOAD).unwrap();
    let side = grid.len();
    let mut fb = Framebuffer::new(296, 128);
    draw(&mut fb).unwrap();
    for x in 0..side {
        for y in 0..side {
            let want = if grid[x][y] { Color::Off } else { Color::On };
            for dx in 0..4u32 {
                for dy in 0..4u32 {
                    let px = 6 + 4 * (x as u32) + dx;
                    let py = 6 + 4 * (y as u32) + dy;
                    assert_eq!(fb.pixel(px, py), want, "module ({x},{y}) pixel ({px},{py})");
                }
            }
        }
    }
}

#[test]
fn pixels_outside_the_block_and_gate_area_stay_untouched() {
    let grid = encode_payload(PAYLOAD).unwrap();
    let side = grid.len() as u32;
    let mut fb = Framebuffer::new(296, 128);
    draw(&mut fb).unwrap();
    let block_end = 6 + 4 * side;
    for y in 0..128u32 {
        for x in 0..296u32 {
            let in_block = (6..block_end).contains(&x) && (6..block_end).contains(&y);
            if !in_block {
                assert_eq!(fb.pixel(x, y), Color::On);
            }
        }
    }
}

#[test]
fn encoding_the_payload_gives_a_version_three_grid() {
    // 21 bytes at the highest strength need version 3: a 29-module side.
    let grid = encode_payload(PAYLOAD).unwrap();
    assert_eq!(grid.len(), 29);
    for row in &grid {
        assert_eq!(row.len(), 29);
    }
}

#[test]
fn encoded_grid_carries_the_finder_patterns() {
    let grid = encode_payload(PAYLOAD).unwrap();
    let side = grid.len();
    // Outer dark ring, inner light ring, dark center of each finder square.
    assert!(grid[0][0]);
    assert!(!grid[1][1]);
    assert!(grid[2][2]);
    assert!(grid[3][3]);
    assert!(grid[4][4]);
    assert!(!grid[5][5]);
    assert!(grid[6][6]);
    assert!(grid[side - 1][0]);
    assert!(!grid[side - 2][1]);
    assert!(grid[0][side - 1]);
    assert!(!grid[1][side - 2]);
}

#[test]
fn encoding_is_deterministic() {
    let a = encode_payload(PAYLOAD).unwrap();
    let b = encode_payload(PAYLOAD).unwrap();
    assert_eq!(a, b);
}

#[test]
fn oversized_payload_gives_the_capacity_error() {
    // Version 40 at the highest strength holds 1273 bytes; 3000 cannot fit.
    let long = "a".repeat(3000);
    assert_eq!(encode_payload(&long).unwrap_err(), LayoutError::EncodingCapacityError);
}

#[test]
fn capacity_failure_leaves_the_surface_untouched() {
    let mut cfg = card_config();
    cfg.payload = "b".repeat(3000);
    let mut fb = Framebuffer::new(296, 128);
    let r = badge_layout::draw::render_layout(&mut fb, &cfg);
    assert_eq!(r.unwrap_err(), LayoutError::EncodingCapacityError);
    assert_all_on(&fb);
}

#[test]
fn card_config_holds_the_fixed_parameters() {
    let cfg = card_config();
    assert_eq!(cfg.payload, PAYLOAD);
    assert_eq!((cfg.expected_width, cfg.expected_height), (296, 128));
    assert_eq!(cfg.module_size, 4);
    assert_eq!(cfg.qr_anchor, Point { x: 6, y: 6 });
    assert_eq!(cfg.text_x, 128);
    assert_eq!(cfg.padding, 6);
    assert_eq!(cfg.lines.len(), 3);
    assert_eq!(cfg.lines[0].height, HEADING_HEIGHT);
    assert_eq!(cfg.lines[2].height, BODY_HEIGHT);
}

#[test]
fn render_layout_honors_a_custom_configuration() {
    let cfg = LayoutConfig {
        payload: String::from("hi"),
        expected_width: 64,
        expected_height: 64,
        module_size: 1,
        qr_anchor: Point { x: 0, y: 0 },
        text_x: 10,
        padding: 2,
        lines: vec![TextLine { text: String::from("x"), font: FontChoice::Body, height: 8 }],
    };
    let mut fb = Framebuffer::new(64, 64);
    let ops = badge_layout::draw::render_layout(&mut fb, &cfg).unwrap();
    assert_eq!(ops.len(), 1);
    assert_eq!((ops[0].x, ops[0].y), (10, 2));
    let grid = encode_payload("hi").unwrap();
    assert_eq!(grid.len(), 21);
    for x in 0..21u32 {
        for y in 0..21u32 {
            let want = if grid[x as usize][y as usize] { Color::Off } else { Color::On };
            assert_eq!(fb.pixel(x, y), want);
        }
    }
}
