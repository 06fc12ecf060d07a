use cava::style::Style;

#[test]
fn style_constructors() {
    let s: Style<u32, f64> = Style::new();
    assert_eq!(s.fill, None);
    assert!(s.stroke.is_none());
    let d: Style<u32, f64> = Style::default();
    assert!(d.fill.is_none() && d.stroke.is_none());
    let f: Style<u32, f64> = Style::filled(1);
    assert_eq!(f.fill, Some(1));
    assert!(f.stroke.is_none());
    let st: Style<u32, f64> = Style::stroked(2, 3.0);
    assert_eq!(st.fill, None);
    assert_eq!(st.stroke, Some((2, 3.0)));
    let fs: Style<u32, f64> = Style::filled_and_stroked(4, 5, 2.0);
    assert_eq!(fs.fill, Some(4));
    assert_eq!(fs.stroke, Some((5, 2.0)));
}

#[test]
fn set_color_recolors_only_what_is_there() {
    let mut s: Style<u32, f64> = Style::filled_and_stroked(4, 5, 2.0);
    s.set_color(9);
    assert_eq!(s.fill, Some(9));
    assert_eq!(s.stroke, Some((9, 2.0)));

    let mut f: Style<u32, f64> = Style::filled(1);
    f.set_color(7);
    assert_eq!(f.fill, Some(7));
    assert!(f.stroke.is_none());

    let mut n: Style<u32, f64> = Style::new();
    n.set_color(7);
    assert!(n.fill.is_none() && n.stroke.is_none());
}

#[test]
fn set_fill_and_stroke_color_separately() {
    let mut s: Style<u32, f64> = Style::filled_and_stroked(4, 5, 2.0);
    s.set_fill_color(8);
    assert_eq!(s.fill, Some(8));
    assert_eq!(s.stroke, Some((5, 2.0)));
    s.set_stroke_color(6);
    assert_eq!(s.fill, Some(8));
    assert_eq!(s.stroke, Some((6, 2.0)));

    let mut st: Style<u32, f64> = Style::stroked(2, 1.5);
    st.set_fill_color(3);
    assert!(st.fill.is_none());
}
