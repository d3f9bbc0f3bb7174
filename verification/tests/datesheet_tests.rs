use datesheet::date::{days_in_month, is_leap_year, month_days, weekday_index, CalendarDate, Weekday};
use datesheet::layout::{layout_datesheet, page_geometry, PageSize, Primitive};
use datesheet::render::{error_body, render_month, RenderError};
use datesheet::text::{month_path, pdf_file_name, row_label, two_digit_string, weekday_abbrev};

fn a4_landscape() -> PageSize {
    PageSize { width_um: 297000, height_um: 210000 }
}

#[test]
fn leap_years() {
    assert!(is_leap_year(2024));
    assert!(!is_leap_year(2023));
    assert!(is_leap_year(2000));
    assert!(!is_leap_year(1900));
}

#[test]
fn february_day_counts() {
    assert_eq!(days_in_month(2024, 2), 29);
    assert_eq!(days_in_month(2023, 2), 28);
}

#[test]
fn month_lengths() {
    assert_eq!(days_in_month(2023, 1), 31);
    assert_eq!(days_in_month(2023, 4), 30);
    assert_eq!(days_in_month(2023, 6), 30);
    assert_eq!(days_in_month(2023, 7), 31);
    assert_eq!(days_in_month(2023, 8), 31);
    assert_eq!(days_in_month(2023, 9), 30);
    assert_eq!(days_in_month(2023, 11), 30);
    assert_eq!(days_in_month(2023, 12), 31);
}

#[test]
fn month_days_start_at_one_and_increase() {
    let days = month_days(2023, 1);
    assert_eq!(days.len(), 31);
    assert_eq!(days[0].day, 1);
    for (i, d) in days.iter().enumerate() {
        assert_eq!(d.year, 2023);
        assert_eq!(d.month, 1);
        assert_eq!(d.day as usize, i + 1);
    }
    for w in days.windows(2) {
        assert!(w[0].day < w[1].day);
    }
    let feb = month_days(2024, 2);
    assert_eq!(feb.len(), 29);
    assert_eq!(feb[28].day, 29);
}

#[test]
fn weekday_of_known_dates() {
    let new_year_2023 = CalendarDate { year: 2023, month: 1, day: 1 };
    assert_eq!(new_year_2023.weekday(), Weekday::Sunday);
    assert_eq!(weekday_abbrev(new_year_2023.weekday()), "Sun");
    let leap_day_2024 = CalendarDate { year: 2024, month: 2, day: 29 };
    assert_eq!(leap_day_2024.weekday(), Weekday::Thursday);
    // 0 is Monday, 6 is Sunday.
    assert_eq!(weekday_index(2023, 1, 2), 0);
    assert_eq!(weekday_index(2023, 1, 1), 6);
}

#[test]
fn row_label_text() {
    let d = CalendarDate { year: 2023, month: 1, day: 1 };
    assert_eq!(row_label(&d), "2023-01-01 Sun");
    let d = CalendarDate { year: 987, month: 12, day: 3 };
    assert_eq!(row_label(&d).len(), 14);
    assert!(row_label(&d).starts_with("0987-12-03 "));
}

#[test]
fn two_digit_zero_padding() {
    assert_eq!(two_digit_string(0), "00");
    assert_eq!(two_digit_string(7), "07");
    assert_eq!(two_digit_string(23), "23");
}

#[test]
fn month_path_zero_pads_month() {
    assert_eq!(month_path(2023, 5), "/2023/05");
    assert_eq!(month_path(987, 12), "/0987/12");
}

#[test]
fn pdf_file_name_format() {
    assert_eq!(pdf_file_name(2023, 1), "datesheet-2023-01.pdf");
    assert_eq!(pdf_file_name(42, 11), "datesheet-0042-11.pdf");
}

#[test]
fn geometry_of_a4_january() {
    let g = page_geometry(&a4_landscape(), 31);
    assert_eq!(g.table_h, 193000);
    assert_eq!(g.table_w, 237000);
    assert_eq!(g.cell_h, 193000 / 31);
    assert_eq!(g.cell_w, 237000 / 24);
    assert_eq!(g.body_left, 55000);
    assert_eq!(g.body_bottom, 5000);
    assert_eq!(g.body_top, 198000);
    assert_eq!(g.body_right, 292000);
    assert_eq!(g.full_top, 205000);
    assert_eq!(g.row_font, 193000 / 31 * 3 / 4);
    assert_eq!(g.header_offset_y, 1000);
}

#[test]
fn grid_counts_match_day_count() {
    for &(year, month, expected_rows) in
        &[(2023i32, 1u8, 31usize), (2023, 2, 28), (2024, 2, 29), (2023, 4, 30)]
    {
        let days = month_days(year, month);
        assert_eq!(days.len(), expected_rows);
        let prims = layout_datesheet(&days, &a4_landscape());
        let shaded = (expected_rows + 1) / 2;
        assert_eq!(prims.len(), 3 + shaded + 25 + (expected_rows + 1) + 24 + expected_rows);

        let mut stroke_rects = 0usize;
        let mut fill_rects = 0usize;
        let mut lines = 0usize;
        let mut labels = 0usize;
        for p in prims.iter() {
            match p {
                Primitive::StrokeRect { .. } => stroke_rects += 1,
                Primitive::StrokeLine { .. } => lines += 1,
                Primitive::FillRect { .. } => fill_rects += 1,
                Primitive::Label { .. } => labels += 1,
            }
        }
        assert_eq!(stroke_rects, 1);
        assert_eq!(fill_rects, shaded);
        // two extension lines, 25 column dividers, rows + 1 row dividers
        assert_eq!(lines, 2 + 25 + expected_rows + 1);
        // 24 hour labels and one label per day
        assert_eq!(labels, 24 + expected_rows);
    }
}

#[test]
fn quarter_boundaries_are_thick() {
    let days = month_days(2023, 1);
    let prims = layout_datesheet(&days, &a4_landscape());
    // The column dividers sit directly after the frame and the shading.
    let first = 3 + (days.len() + 1) / 2;
    for i in 0..25usize {
        match &prims[first + i] {
            Primitive::StrokeLine { stroke_um, .. } => {
                let expect_thick = i < 24 && i % 6 == 0;
                assert_eq!(*stroke_um == 1000, expect_thick, "boundary {}", i);
                assert_eq!(*stroke_um == 500, !expect_thick, "boundary {}", i);
            }
            _ => panic!("column divider {} is not a line", i),
        }
    }
}

#[test]
fn hour_labels_are_zero_padded() {
    let days = month_days(2023, 2);
    let prims = layout_datesheet(&days, &a4_landscape());
    let first = 3 + (days.len() + 1) / 2 + 25 + (days.len() + 1);
    for i in 0..24usize {
        match &prims[first + i] {
            Primitive::Label { text, font_size_um, .. } => {
                assert_eq!(text.as_str(), format!("{:02}", i));
                assert_eq!(*font_size_um, 5000);
            }
            _ => panic!("hour label {} is not a label", i),
        }
    }
}

#[test]
fn day_labels_top_down() {
    let days = month_days(2023, 1);
    let prims = layout_datesheet(&days, &a4_landscape());
    let first = 3 + (days.len() + 1) / 2 + 25 + (days.len() + 1) + 24;
    // Day 1 comes first and sits in the topmost row band.
    let (y_first, y_last) = match (&prims[first], &prims[first + 30]) {
        (
            Primitive::Label { text: t1, y: y1, .. },
            Primitive::Label { text: t2, y: y2, .. },
        ) => {
            assert_eq!(t1.as_str(), "2023-01-01 Sun");
            assert_eq!(t2.as_str(), "2023-01-31 Tue");
            (*y1, *y2)
        }
        _ => panic!("day labels are not labels"),
    };
    assert!(y_first > y_last);
}

#[test]
fn render_month_rejects_month_13() {
    let r = render_month(2023, 13, &a4_landscape());
    assert_eq!(r.err(), Some(RenderError::MonthOutOfRange));
    assert_eq!(
        error_body(&RenderError::MonthOutOfRange),
        "error: month must be between 1 and 12"
    );
}

#[test]
fn render_month_rejects_month_0_and_bad_years() {
    assert_eq!(render_month(2023, 0, &a4_landscape()).err(), Some(RenderError::MonthOutOfRange));
    assert_eq!(render_month(0, 5, &a4_landscape()).err(), Some(RenderError::YearOutOfRange));
    assert_eq!(render_month(10000, 5, &a4_landscape()).err(), Some(RenderError::YearOutOfRange));
    assert_eq!(
        error_body(&RenderError::YearOutOfRange),
        "error: year must be between 1 and 9999"
    );
}

#[test]
fn renders_of_different_months_differ() {
    let a = render_month(2023, 1, &a4_landscape()).ok().unwrap();
    let b = render_month(2023, 2, &a4_landscape()).ok().unwrap();
    assert_ne!(a.len(), b.len());

    // Same day count, different month: the labels tell them apart.
    let c = render_month(2023, 3, &a4_landscape()).ok().unwrap();
    let d = render_month(2023, 5, &a4_landscape()).ok().unwrap();
    assert_eq!(c.len(), d.len());
    let first = 3 + 16 + 25 + 32 + 24;
    match (&c[first], &d[first]) {
        (Primitive::Label { text: t1, .. }, Primitive::Label { text: t2, .. }) => {
            assert_eq!(t1.as_str(), "2023-03-01 Wed");
            assert_eq!(t2.as_str(), "2023-05-01 Mon");
        }
        _ => panic!("day labels are not labels"),
    }
}

#[test]
fn render_month_success_is_exact() {
    let r = render_month(2024, 2, &a4_landscape());
    let prims = r.ok().unwrap();
    assert_eq!(prims.len(), 3 + 15 + 25 + 30 + 24 + 29);
}

#[test]
fn shading_covers_even_rows_from_top() {
    let days = month_days(2023, 1);
    let prims = layout_datesheet(&days, &a4_landscape());
    let g = page_geometry(&a4_landscape(), 31);
    // The 16 shading bands follow the three frame primitives and cover the
    // rows with even index counted from the top, topmost band first.
    for k in 0..16u64 {
        let r = 2 * k;
        match &prims[3 + k as usize] {
            Primitive::FillRect { left, bottom, right, top, shade_millis } => {
                assert_eq!(*left, 5000);
                assert_eq!(*right, g.body_right);
                assert_eq!(*top, g.body_bottom + (31 - r) * g.cell_h);
                assert_eq!(*bottom, g.body_bottom + (31 - 1 - r) * g.cell_h);
                assert_eq!(*shade_millis, 900);
            }
            _ => panic!("shading band {} is not a filled rectangle", k),
        }
    }
    // The topmost band starts at the table body's top edge.
    match &prims[3] {
        Primitive::FillRect { top, .. } => assert_eq!(*top, g.body_bottom + 31 * g.cell_h),
        _ => panic!("first shading band is not a filled rectangle"),
    }
}
