use status_screen::layout::{centered_offset, inner, split_loading, Rect};

#[test]
fn inner_shrinks_by_border() {
    let r = Rect { x: 2, y: 3, width: 10, height: 8 };
    let i = inner(r);
    assert_eq!(i, Rect { x: 3, y: 4, width: 8, height: 6 });
}

#[test]
fn inner_of_thin_area_is_empty() {
    let r = Rect { x: 5, y: 5, width: 1, height: 40 };
    let i = inner(r);
    assert_eq!(i.width, 0);
    assert_eq!(i.height, 0);
}

#[test]
fn split_reserves_one_middle_line() {
    let r = Rect { x: 0, y: 0, width: 20, height: 10 };
    let (top, mid, bottom) = split_loading(r);
    assert_eq!(top, Rect { x: 0, y: 0, width: 20, height: 4 });
    assert_eq!(mid, Rect { x: 0, y: 4, width: 20, height: 1 });
    assert_eq!(bottom, Rect { x: 0, y: 5, width: 20, height: 5 });
}

#[test]
fn split_of_empty_area_is_empty() {
    let r = Rect { x: 7, y: 9, width: 20, height: 0 };
    let (top, mid, bottom) = split_loading(r);
    assert_eq!(top.height, 0);
    assert_eq!(mid.height, 0);
    assert_eq!(bottom.height, 0);
}

#[test]
fn split_of_single_line_is_all_middle() {
    let r = Rect { x: 0, y: 0, width: 20, height: 1 };
    let (top, mid, bottom) = split_loading(r);
    assert_eq!(top.height, 0);
    assert_eq!(mid, Rect { x: 0, y: 0, width: 20, height: 1 });
    assert_eq!(bottom.height, 0);
}

#[test]
fn centering_splits_slack_evenly() {
    assert_eq!(centered_offset(20, 10), 5);
    assert_eq!(centered_offset(21, 10), 5);
    assert_eq!(centered_offset(10, 10), 0);
    assert_eq!(centered_offset(5, 10), 0);
}

#[test]
fn banner_split_pins_bands_to_edges() {
    let r = Rect { x: 0, y: 2, width: 30, height: 12 };
    let (top, bottom) = status_screen::layout::split_banner(r);
    assert_eq!(top, Rect { x: 0, y: 2, width: 30, height: 3 });
    assert_eq!(bottom, Rect { x: 0, y: 11, width: 30, height: 3 });
}

#[test]
fn banner_split_of_short_area_gives_what_is_there() {
    let r = Rect { x: 0, y: 0, width: 30, height: 4 };
    let (top, bottom) = status_screen::layout::split_banner(r);
    assert_eq!(top.height, 3);
    assert_eq!(bottom.height, 1);
    assert_eq!(bottom.y, 3);
}
