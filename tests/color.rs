use magic::Color::{Black, Blue, Green, Red, White};
use magic::{Color, ColorIdentity};

#[test]
fn test_color_enum_sanity() {

    assert_eq!(White as u8, 0);
    assert_eq!(Blue as u8, 1);
    assert_eq!(Black as u8, 2);
    assert_eq!(Red as u8, 3);
    assert_eq!(Green as u8, 4);
}

fn identity(colors: &[Color]) -> ColorIdentity {
    let mut id = ColorIdentity::new();
    for c in colors {
        id.add(*c);
    }
    id
}

#[test]
fn test_color_identity() {

    assert_eq!(identity(&[]).to_string(), "C");
    assert_eq!(identity(&[White, Green]).to_string(), "WG");
    assert_eq!(identity(&[Blue, Black, Red]).to_string(), "UBR");
    assert_eq!(identity(&[Red]).to_string(), "R");
}

#[test]
fn color_pie_order() {

    let valid_pairs = [
        (White, Blue),
        (White, Black),
        (Blue, Black),
        (Blue, Red),
        (Black, Red),
        (Black, Green),
        (Red, Green),
        (Red, White),
        (Green, White),
        (Green, Blue),
    ];

    for c1 in Color::iterator() {
        for c2 in Color::iterator() {
            if c1 == c2 {
                continue;
            }
            let pair = Color::color_pie_order(c1, c2);
            assert!(valid_pairs.iter().any(|&vp| vp == pair));
        }
    }
}

#[test]
fn color_pie_order_is_symmetric() {
    for c1 in Color::iterator() {
        for c2 in Color::iterator() {
            if c1 != c2 {
                assert_eq!(Color::color_pie_order(c1, c2), Color::color_pie_order(c2, c1));
            }
        }
    }
}

#[test]
fn color_pie_order_values() {

    assert_eq!(Color::color_pie_order(Black, White), (White, Black));
    assert_eq!(Color::color_pie_order(White, Green), (Green, White));
    assert_eq!(Color::color_pie_order(Blue, Green), (Green, Blue));
    assert_eq!(Color::color_pie_order(Red, Blue), (Blue, Red));
}

#[test]
fn color_iterator_order_and_initials() {

    assert_eq!(Color::iterator(), vec![White, Blue, Black, Red, Green]);
    let initials: String = Color::iterator().iter().map(|c| c.initial()).collect();
    assert_eq!(initials, "WUBRG");
    assert_eq!(Green.ordinal(), 4);
}

#[test]
fn color_identity_scenario() {

    let mut id = ColorIdentity::new();
    id.add(White);
    id.add(Green);
    assert_eq!(id.to_string(), "WG");
    assert_eq!(ColorIdentity::new().to_string(), "C");
    assert_eq!(ColorIdentity::default().to_string(), "C");
}

#[test]
fn color_identity_add_remove_has() {

    let mut id = ColorIdentity::new();
    assert!(id.is_colorless());
    id.add(Red);
    id.add(Red);
    assert!(id.has(Red));
    assert!(!id.has(Blue));
    assert!(!id.is_colorless());
    id.add(Blue);
    assert_eq!(id.colors(), vec![Blue, Red]);
    id.remove(Red);
    id.remove(Green);
    assert_eq!(id.colors(), vec![Blue]);
    id.remove(Blue);
    assert!(id.is_colorless());
    assert_eq!(id.colors(), vec![]);
}

#[test]
fn color_identity_from_colors() {
    let id = ColorIdentity::from_iter(vec![Green, White, Green]);
    assert_eq!(id.to_string(), "WG");
    assert_eq!(id.colors(), vec![White, Green]);
    assert!(ColorIdentity::from_iter(vec![]).is_colorless());
}
