use pipeline_monitor::svg::{scaled_size, size_from_captures, svg_size};

#[test]
fn size_read_from_svg() {
    let svg = "<?xml version=\"1.0\"?>\n<svg width=\"62pt\" height=\"116pt\" viewBox=\"0.00 0.00 62.00 116.00\">";
    assert_eq!(svg_size(svg), Some((62, 116)));
    assert_eq!(svg_size("<svg viewBox=\"0 0 1 1\">"), None);
}

#[test]
fn size_from_groups() {
    let groups = Some(vec![Some("whole".to_string()), Some("10".to_string()), Some("20".to_string())]);
    assert_eq!(size_from_captures(&groups), Some((10, 20)));
    let short = Some(vec![Some("whole".to_string()), Some("10".to_string())]);
    assert_eq!(size_from_captures(&short), None);
    let missing = Some(vec![Some("whole".to_string()), None, Some("20".to_string())]);
    assert_eq!(size_from_captures(&missing), None);
    assert_eq!(size_from_captures(&None), None);
}

#[test]
fn size_scaling() {
    assert_eq!(scaled_size((62, 116), 100), (62, 116));
    assert_eq!(scaled_size((62, 116), 50), (31, 58));
    assert_eq!(scaled_size((62, 116), 10), (6, 11));
    assert_eq!(scaled_size((62, 116), 200), (124, 232));
}
