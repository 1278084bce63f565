use molecular_visualization::elements::{atom_color, atom_radius_pm, Rgba};

fn rgba(red: u16, green: u16, blue: u16) -> Rgba {
    Rgba {
        red,
        green,
        blue,
        alpha: 1000,
    }
}

#[test]
fn common_elements_have_their_cpk_colours() {
    assert_eq!(atom_color(1), rgba(1000, 1000, 1000));
    assert_eq!(atom_color(6), rgba(565, 565, 565));
    assert_eq!(atom_color(7), rgba(188, 314, 973));
    assert_eq!(atom_color(8), rgba(1000, 51, 51));
    assert_eq!(atom_color(16), rgba(1000, 1000, 188));
    assert_eq!(atom_color(26), rgba(878, 400, 200));
    assert_eq!(atom_color(92), rgba(0, 561, 1000));
}

#[test]
fn other_elements_are_pink() {
    assert_eq!(atom_color(0), rgba(1000, 78, 576));
    assert_eq!(atom_color(21), rgba(1000, 78, 576));
    assert_eq!(atom_color(118), rgba(1000, 78, 576));
}

#[test]
fn common_elements_have_their_radii() {
    assert_eq!(atom_radius_pm(1), 120);
    assert_eq!(atom_radius_pm(6), 170);
    assert_eq!(atom_radius_pm(7), 155);
    assert_eq!(atom_radius_pm(8), 152);
    assert_eq!(atom_radius_pm(55), 343);
    assert_eq!(atom_radius_pm(87), 348);
    assert_eq!(atom_radius_pm(26), 152);
}

#[test]
fn other_elements_get_the_default_radius() {
    assert_eq!(atom_radius_pm(0), 175);
    assert_eq!(atom_radius_pm(29), 175);
    assert_eq!(atom_radius_pm(17), 175);
}
