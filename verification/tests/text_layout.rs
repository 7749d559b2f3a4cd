use pdf_reader::document::PageChar;
use pdf_reader::geometry::PdfRect;
use pdf_reader::text::selection::{layout_page_text, LINE_EPSILON, SPACING_TOLERANCE};

fn glyph(c: char, left: i32, bottom: i32, right: i32, top: i32) -> PageChar {
    PageChar { unicode: Some(c), bounds: Some(PdfRect { left, top, right, bottom }) }
}

#[test]
fn adjacent_characters_make_one_fragment() {
    // "H" and "i" side by side on a line 12 points high, 700 points up a
    // page of 792 points.
    let chars = vec![
        glyph('H', 72_000, 700_000, 80_000, 712_000),
        glyph('i', 80_000, 700_000, 83_000, 712_000),
    ];
    let page = layout_page_text(&chars, 612_000, 792_000);
    assert_eq!(page.width, 612_000);
    assert_eq!(page.height, 792_000);
    assert_eq!(page.items.len(), 1);
    let item = &page.items[0];
    assert_eq!(item.text, "Hi");
    assert_eq!(item.x, 72_000);
    assert_eq!(item.y, 80_000);
    assert_eq!(item.width, 11_000);
    assert_eq!(item.height, 12_000);
}

#[test]
fn distant_characters_make_two_fragments() {
    let chars = vec![
        glyph('H', 72_000, 700_000, 80_000, 712_000),
        glyph('i', 90_000, 700_000, 93_000, 712_000),
    ];
    let page = layout_page_text(&chars, 612_000, 792_000);
    assert_eq!(page.items.len(), 2);
    assert_eq!(page.items[0].text, "H");
    assert_eq!(page.items[0].x, 72_000);
    assert_eq!(page.items[0].width, 8_000);
    assert_eq!(page.items[1].text, "i");
    assert_eq!(page.items[1].x, 90_000);
    assert_eq!(page.items[1].y, 80_000);
    assert_eq!(page.items[1].width, 3_000);
}

#[test]
fn gap_at_the_tolerance_still_joins() {
    let gap = SPACING_TOLERANCE as i32;
    let chars = vec![
        glyph('a', 0, 0, 5_000, 10_000),
        glyph('b', 5_000 + gap, 0, 9_000 + gap, 10_000),
    ];
    let page = layout_page_text(&chars, 100_000, 100_000);
    assert_eq!(page.items.len(), 1);
    assert_eq!(page.items[0].text, "ab");
    assert_eq!(page.items[0].width, 9_000 + gap as i64);
}

#[test]
fn gap_past_the_tolerance_splits() {
    let gap = SPACING_TOLERANCE as i32 + 1;
    let chars = vec![
        glyph('a', 0, 0, 5_000, 10_000),
        glyph('b', 5_000 + gap, 0, 9_000 + gap, 10_000),
    ];
    let page = layout_page_text(&chars, 100_000, 100_000);
    assert_eq!(page.items.len(), 2);
}

#[test]
fn overlap_within_the_tolerance_joins() {
    let chars = vec![
        glyph('a', 0, 0, 5_000, 10_000),
        glyph('b', 3_000, 0, 8_000, 10_000),
        glyph('c', 5_999, 0, 9_000, 10_000),
    ];
    let page = layout_page_text(&chars, 100_000, 100_000);
    assert_eq!(page.items.len(), 2);
    assert_eq!(page.items[0].text, "ab");
    assert_eq!(page.items[0].width, 8_000);
    assert_eq!(page.items[1].text, "c");
}

#[test]
fn line_change_splits() {
    let step = LINE_EPSILON as i32;
    let chars = vec![
        glyph('a', 0, 50_000, 5_000, 60_000),
        glyph('b', 5_000, 50_000 - step + 1, 9_000, 60_000 - step + 1),
        glyph('c', 9_000, 50_000 - step, 12_000, 60_000 - step),
    ];
    let page = layout_page_text(&chars, 100_000, 100_000);
    assert_eq!(page.items.len(), 2);
    assert_eq!(page.items[0].text, "ab");
    assert_eq!(page.items[0].y, 40_000);
    assert_eq!(page.items[1].text, "c");
    assert_eq!(page.items[1].y, 40_000 + step as i64);
}

#[test]
fn unresolved_characters_are_passed_over() {
    let chars = vec![
        glyph('a', 0, 0, 5_000, 10_000),
        PageChar { unicode: None, bounds: Some(PdfRect { left: 50_000, top: 90_000, right: 60_000, bottom: 80_000 }) },
        glyph('b', 5_000, 0, 9_000, 10_000),
    ];
    let page = layout_page_text(&chars, 100_000, 100_000);
    assert_eq!(page.items.len(), 1);
    assert_eq!(page.items[0].text, "ab");
}

#[test]
fn missing_bounds_fall_back_to_the_zero_box() {
    let chars = vec![PageChar { unicode: Some('x'), bounds: None }];
    let page = layout_page_text(&chars, 100_000, 100_000);
    assert_eq!(page.items.len(), 1);
    assert_eq!(page.items[0].text, "x");
    assert_eq!(page.items[0].x, 0);
    assert_eq!(page.items[0].y, 100_000);
    assert_eq!(page.items[0].width, 0);
    assert_eq!(page.items[0].height, 0);
}

#[test]
fn empty_page_has_no_fragments() {
    let page = layout_page_text(&Vec::new(), 100_000, 100_000);
    assert!(page.items.is_empty());
}

#[test]
fn extreme_coordinates_do_not_overflow() {
    let chars = vec![
        glyph('a', i32::MIN, i32::MIN, i32::MAX, i32::MAX),
        glyph('b', i32::MAX, i32::MIN, i32::MIN, i32::MAX),
    ];
    let page = layout_page_text(&chars, i32::MAX, i32::MIN);
    assert_eq!(page.items.len(), 1);
    assert_eq!(page.items[0].x, i32::MIN as i64);
    assert_eq!(page.items[0].y, i32::MIN as i64 - i32::MAX as i64);
    // The second box ends left of the first: the fragment keeps its edge.
    assert_eq!(page.items[0].width, 4294967295);
}

#[test]
fn joined_fragment_covers_both_boxes() {
    // A fragment from 10 to 16 points, joined by a character from 15 to
    // 15.5 points: the union still ends at 16.
    let chars = vec![
        glyph('W', 10_000, 0, 16_000, 10_000),
        glyph('.', 15_000, 0, 15_500, 10_000),
        glyph('x', 16_100, 0, 19_000, 10_000),
    ];
    let page = layout_page_text(&chars, 100_000, 100_000);
    assert_eq!(page.items.len(), 1);
    assert_eq!(page.items[0].text, "W.x");
    assert_eq!(page.items[0].x, 10_000);
    assert_eq!(page.items[0].width, 9_000);

    let chars = vec![
        glyph('W', 10_000, 0, 16_000, 10_000),
        glyph('.', 15_000, 0, 15_500, 10_000),
    ];
    let page = layout_page_text(&chars, 100_000, 100_000);
    assert_eq!(page.items.len(), 1);
    assert_eq!(page.items[0].width, 6_000);
}
