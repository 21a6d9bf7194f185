use bevy_mod_ui_independent_text::alignment::{HorizontalAlign, TextAlignment, VerticalAlign};
use bevy_mod_ui_independent_text::extract::{glyph_colors, ExtractError};
use bevy_mod_ui_independent_text::scheduler::{LayoutError, LayoutOutcome, LayoutScheduler};
use bevy_mod_ui_independent_text::text::{TextSection, UiText};

fn align(vertical: VerticalAlign, horizontal: HorizontalAlign) -> TextAlignment {
    TextAlignment { vertical, horizontal }
}

#[test]
fn center_center_offset_is_half_size() {
    let (x, y) = align(VerticalAlign::Center, HorizontalAlign::Center).doubled_offset(100, 40);
    assert_eq!((x, y), (-100, -40));
    assert_eq!((x / 2, y / 2), (-50, -20));
}

#[test]
fn top_left_offset_is_minus_height() {
    let (x, y) = align(VerticalAlign::Top, HorizontalAlign::Left).doubled_offset(100, 40);
    assert_eq!((x / 2, y / 2), (0, -40));
}

#[test]
fn bottom_right_offset_is_minus_width() {
    let (x, y) = align(VerticalAlign::Bottom, HorizontalAlign::Right).doubled_offset(100, 40);
    assert_eq!((x / 2, y / 2), (-100, 0));
}

#[test]
fn offset_halves_of_each_anchor() {
    assert_eq!(align(VerticalAlign::Top, HorizontalAlign::Left).offset_halves(), (0, -2));
    assert_eq!(align(VerticalAlign::Center, HorizontalAlign::Center).offset_halves(), (-1, -1));
    assert_eq!(align(VerticalAlign::Bottom, HorizontalAlign::Right).offset_halves(), (-2, 0));
    let (x, y) = align(VerticalAlign::Center, HorizontalAlign::Center).offset_halves();
    assert_eq!((x as f32 * 100.0 * 0.5, y as f32 * 40.0 * 0.5), (-50.0, -20.0));
}

#[test]
fn default_alignment_is_centered() {
    assert_eq!(TextAlignment::default(), align(VerticalAlign::Center, HorizontalAlign::Center));
}

#[test]
fn largest_size_does_not_overflow() {
    let (x, y) = align(VerticalAlign::Top, HorizontalAlign::Right).doubled_offset(i32::MAX, i32::MIN);
    assert_eq!(x, -2 * i32::MAX as i64);
    assert_eq!(y, -2 * i32::MIN as i64);
}

#[test]
fn unchanged_entity_is_not_laid_out_twice() {
    let mut sched = LayoutScheduler::new();
    let mut size = (0.0f32, 0.0f32);
    assert!(sched.needs_layout(7, true, false));
    let r = sched.record_outcome(7, &mut size, LayoutOutcome::Laid(Some((12.0, 8.0))));
    assert_eq!(r, Ok(()));
    assert_eq!(size, (12.0, 8.0));
    assert!(!sched.needs_layout(7, false, false));
    assert!(!sched.needs_layout(7, false, false));
}

#[test]
fn scale_factor_change_triggers_every_entity() {
    let sched = LayoutScheduler::new();
    assert!(sched.needs_layout(1, false, true));
    assert!(sched.needs_layout(2, false, true));
    assert!(!sched.needs_layout(3, false, false));
}

#[test]
fn missing_font_is_retried_until_it_loads() {
    let mut sched = LayoutScheduler::new();
    let mut size = (3.0f32, 4.0f32);
    assert!(sched.needs_layout(5, true, false));
    for _frame in 0..3 {
        let r = sched.record_outcome(5, &mut size, LayoutOutcome::FontNotFound);
        assert_eq!(r, Ok(()));
        assert!(sched.is_pending(5));
        assert_eq!(size, (3.0, 4.0));
        assert!(sched.needs_layout(5, false, false));
    }
    let r = sched.record_outcome(5, &mut size, LayoutOutcome::Laid(Some((20.0, 10.0))));
    assert_eq!(r, Ok(()));
    assert!(!sched.is_pending(5));
    assert_eq!(size, (20.0, 10.0));
    assert!(!sched.needs_layout(5, false, false));
}

#[test]
fn unresolvable_font_keeps_size_and_emits_nothing() {
    let mut sched = LayoutScheduler::new();
    let mut size = (0.0f32, 0.0f32);
    for frame in 0..5 {
        assert!(sched.needs_layout(9, frame == 0, false));
        let r = sched.record_outcome(9, &mut size, LayoutOutcome::FontNotFound);
        assert_eq!(r, Ok(()));
        assert_eq!(size, (0.0, 0.0));
        let colors: Vec<u32> = vec![0xffffff];
        assert_eq!(glyph_colors(true, &colors, None), Ok(vec![]));
    }
}

#[test]
fn retry_set_holds_an_entity_once() {
    let mut sched = LayoutScheduler::new();
    let mut size = 0u32;
    let _ = sched.record_outcome(4, &mut size, LayoutOutcome::FontNotFound);
    let _ = sched.record_outcome(4, &mut size, LayoutOutcome::FontNotFound);
    let r = sched.record_outcome(4, &mut size, LayoutOutcome::Laid(Some(6)));
    assert_eq!(r, Ok(()));
    assert!(!sched.is_pending(4));
}

#[test]
fn atlas_failure_is_fatal() {
    let mut sched = LayoutScheduler::new();
    let mut size = 1u32;
    let r = sched.record_outcome(2, &mut size, LayoutOutcome::FailedToAddGlyph);
    assert_eq!(r, Err(LayoutError::FailedToAddGlyph));
    assert_eq!(size, 1);
    assert!(!sched.is_pending(2));
}

#[test]
fn missing_layout_after_success_is_reported() {
    let mut sched = LayoutScheduler::new();
    let mut size = 1u32;
    let _ = sched.record_outcome(2, &mut size, LayoutOutcome::FontNotFound);
    let r = sched.record_outcome(2, &mut size, LayoutOutcome::Laid(None));
    assert_eq!(r, Err(LayoutError::MissingLayout));
    assert_eq!(size, 1);
    assert!(sched.is_pending(2));
}

#[test]
fn invisible_entity_emits_nothing() {
    let colors = vec![1u32, 2];
    let glyphs = vec![0usize, 1, 1];
    assert_eq!(glyph_colors(false, &colors, Some(&glyphs)), Ok(vec![]));
}

#[test]
fn two_glyphs_give_two_quads() {
    let mut sched = LayoutScheduler::new();
    let mut size = (0.0f32, 0.0f32);
    assert!(sched.needs_layout(1, true, false));
    assert_eq!(sched.record_outcome(1, &mut size, LayoutOutcome::Laid(Some((17.0, 24.0)))), Ok(()));
    assert!(size.0 > 0.0 && size.1 > 0.0);
    let colors = vec![[1.0f32, 1.0, 1.0, 1.0]];
    let glyphs = vec![0usize, 0];
    let out = glyph_colors(true, &colors, Some(&glyphs)).unwrap();
    assert_eq!(out.len(), 2);
}

#[test]
fn each_glyph_gets_its_section_color() {
    let colors = vec![10u32, 20, 30];
    let glyphs = vec![0usize, 0, 2, 2, 1, 0];
    assert_eq!(glyph_colors(true, &colors, Some(&glyphs)), Ok(vec![10, 10, 30, 30, 20, 10]));
}

#[test]
fn empty_layout_emits_nothing() {
    let colors: Vec<u32> = vec![];
    let glyphs: Vec<usize> = vec![];
    assert_eq!(glyph_colors(true, &colors, Some(&glyphs)), Ok(vec![]));
}

#[test]
fn glyph_with_unknown_section_is_an_error() {
    let colors = vec![10u32, 20];
    let glyphs = vec![0usize, 1, 2, 5];
    assert_eq!(
        glyph_colors(true, &colors, Some(&glyphs)),
        Err(ExtractError::SectionOutOfRange { glyph: 2 })
    );
}

#[test]
fn text_from_one_section() {
    let t = UiText::from_section(String::from("Hi"), 3u8);
    assert_eq!(t.sections.len(), 1);
    assert_eq!(t.sections[0].value, "Hi");
    assert_eq!(t.sections[0].style, 3);
    assert_eq!(t.alignment, TextAlignment::default());
}

#[test]
fn text_from_sections_keeps_order() {
    let t = UiText::from_sections(vec![
        TextSection { value: String::from("a"), style: 1u8 },
        TextSection { value: String::from("b"), style: 2u8 },
    ]);
    assert_eq!(t.sections.len(), 2);
    assert_eq!(t.sections[0].value, "a");
    assert_eq!(t.sections[1].style, 2);
}

#[test]
fn push_section_appends() {
    let mut t = UiText::from_section(String::from("a"), 1u8);
    t.alignment = align(VerticalAlign::Top, HorizontalAlign::Left);
    t.push_section(String::from("bc"), 2u8);
    assert_eq!(t.sections.len(), 2);
    assert_eq!(t.sections[0].value, "a");
    assert_eq!(t.sections[1].value, "bc");
    assert_eq!(t.sections[1].style, 2);
    assert_eq!(t.alignment, align(VerticalAlign::Top, HorizontalAlign::Left));
}
