use embedded_graphics_core::geometry::{AnchorPoint, AnchorX as EgAnchorX, Point as EgPoint, Size as EgSize};
use embedded_graphics_core::primitives::Rectangle as EgRectangle;
use mipidsi::geometry::{AnchorX, Point, Rectangle, Size};
use mipidsi::test_image::{TestColor, TestDraw, TestImage};

fn rect(x: i32, y: i32, w: u32, h: u32) -> Rectangle {
    Rectangle::new(Point { x, y }, Size { width: w, height: h })
}

fn eg(r: &Rectangle) -> EgRectangle {
    EgRectangle::new(
        EgPoint::new(r.top_left.x, r.top_left.y),
        EgSize::new(r.size.width, r.size.height),
    )
}

fn from_eg(r: EgRectangle) -> Rectangle {
    rect(r.top_left.x, r.top_left.y, r.size.width, r.size.height)
}

fn samples() -> Vec<Rectangle> {
    let mut out = Vec::new();
    for x in [-7, 0, 3] {
        for y in [-2, 0, 5] {
            for w in [0u32, 1, 2, 5, 10] {
                for h in [0u32, 1, 4, 11] {
                    out.push(rect(x, y, w, h));
                }
            }
        }
    }
    out
}

#[test]
fn rectangle_helpers_agree_with_embedded_graphics() {
    for r in samples() {
        let e = eg(&r);
        let c = r.center();
        assert_eq!((c.x, c.y), (e.center().x, e.center().y), "{r:?}");
        for delta in [-6, -1, 0, 1, 3] {
            assert_eq!(r.offset(delta), from_eg(e.offset(delta)), "{r:?} {delta}");
        }
        for width in [0u32, 1, 3, 7] {
            assert_eq!(
                r.resized_width(width, AnchorX::Left),
                from_eg(e.resized_width(width, EgAnchorX::Left))
            );
            assert_eq!(
                r.resized_width(width, AnchorX::Right),
                from_eg(e.resized_width(width, EgAnchorX::Right))
            );
        }
        for size in [Size { width: 9, height: 11 }, Size { width: 0, height: 2 }] {
            assert_eq!(
                Rectangle::with_center(c, size),
                from_eg(EgRectangle::with_center(
                    EgPoint::new(c.x, c.y),
                    EgSize::new(size.width, size.height)
                ))
            );
        }
        for px in -8..12 {
            for py in -3..17 {
                assert_eq!(
                    r.contains(Point { x: px, y: py }),
                    e.contains(EgPoint::new(px, py))
                );
            }
        }
        let resized = e.resized(EgSize::new(4, 1), AnchorPoint::TopLeft);
        assert_eq!(resized.top_left, e.top_left);
    }
}

#[test]
fn test_image_layout() {
    let image: TestImage<()> = TestImage::new();
    let draws = image.draw_requests(rect(0, 0, 40, 30));
    assert_eq!(draws.len(), 1 + 6 + 20);
    match &draws[0] {
        TestDraw::FillContiguous { area, colors } => {
            assert_eq!(*area, rect(0, 0, 40, 30));
            assert_eq!(colors.len(), 1200);
            // the outermost ring is white, the rest black
            let white = colors.iter().filter(|c| **c == TestColor::White).count();
            assert_eq!(white, 40 * 2 + 28 * 2);
            assert_eq!(colors[0], TestColor::White);
            assert_eq!(colors[41], TestColor::Black);
        }
        other => panic!("unexpected {other:?}"),
    }
    let bars = rect(5, 5, 30, 20);
    assert_eq!(
        draws[1],
        TestDraw::FillSolid { area: bars, color: TestColor::Green }
    );
    assert_eq!(
        draws[3],
        TestDraw::FillSolid { area: rect(5, 5, 10, 20), color: TestColor::Red }
    );
    assert_eq!(
        draws[5],
        TestDraw::FillSolid { area: rect(25, 5, 10, 20), color: TestColor::Blue }
    );
    match &draws[2] {
        TestDraw::FillContiguous { area, colors } => {
            // the letter G centered on the color bars' center (19, 14)
            assert_eq!(*area, rect(15, 9, 9, 11));
            assert_eq!(colors.len(), 99);
            assert_eq!(colors[9 * 2 + 3], TestColor::White);
            assert_eq!(colors[0], TestColor::Black);
        }
        other => panic!("unexpected {other:?}"),
    }
    assert_eq!(
        draws[7],
        TestDraw::FillSolid { area: rect(5, 5, 20, 1), color: TestColor::White }
    );
    assert_eq!(
        draws[26],
        TestDraw::FillSolid { area: rect(5, 24, 1, 1), color: TestColor::White }
    );
}
