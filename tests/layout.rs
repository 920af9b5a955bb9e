use keeb::layout::{get_layout, make_layer_str, LayoutKind, SPLIT_3X6_2_KEYS};

#[test]
fn split_layout_positions() {
    let l = get_layout(LayoutKind::LayoutSplit3x6_2);
    assert_eq!(l.matrix_pos.len(), SPLIT_3X6_2_KEYS);
    assert_eq!(l.render_pos.len(), 40);
    assert_eq!(l.matrix_pos[0], (0, 0));
    assert_eq!(l.matrix_pos[6], (4, 0));
    assert_eq!(l.matrix_pos[17], (1, 5));
    assert_eq!(l.matrix_pos[35], (6, 5));
    assert_eq!(&l.matrix_pos[36..], &[(3, 0), (3, 1), (7, 0), (7, 1)]);
    assert_eq!(l.render_pos[6], (0, 7));
    assert_eq!(&l.render_pos[36..], &[(3, 4), (3, 5), (3, 7), (3, 8)]);
    assert_eq!((l.render_rows, l.render_cols), (4, 13));
}

#[test]
fn layer_label_is_written() {
    let mut buf = [0u8; 5];
    assert_eq!(make_layer_str("TO", 2, &mut buf), Ok(()));
    assert_eq!(&buf, b"TO(2)");
    let mut buf = [b'x'; 7];
    assert_eq!(make_layer_str("MO", 0, &mut buf), Ok(()));
    assert_eq!(&buf, b"MO(0)xx");
}

#[test]
fn layer_label_errors() {
    let mut buf = [0u8; 5];
    assert_eq!(make_layer_str("T", 2, &mut buf), Err("invalid layer prefix"));
    assert_eq!(buf, [0u8; 5]);
    assert_eq!(make_layer_str("TG", 10, &mut buf), Err("invalid layer"));
    assert_eq!(&buf, b"TG(\0\0");
}
