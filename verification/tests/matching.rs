use palette::FromColor;

use color_id::color::dist_sq;
use color_id::color::Lab;
use color_id::color::Rgb;
use color_id::config::parents_from_config;
use color_id::hex::parse_color;
use color_id::nearest::perceptually_nearest;
use color_id::nearest::Parent;

/// Fixed-point scale for the perceptual coordinates: 2 to the 20th.
const LAB_SCALE: f32 = 1048576.0;

/// Converts an RGB color to fixed-point perceptual coordinates, the same way
/// the program around the library does.
fn lab_of(rgb: Rgb) -> Lab {
    let srgb: palette::Srgb<f32> =
        palette::Srgb::new(rgb.red, rgb.green, rgb.blue).into_format();
    let lab: palette::Lab = palette::Lab::from_color(srgb);
    Lab {
        l: (lab.l * LAB_SCALE) as i64,
        a: (lab.a * LAB_SCALE) as i64,
        b: (lab.b * LAB_SCALE) as i64,
    }
}

fn parents_of(config: &str) -> Vec<Parent> {
    parents_from_config(config)
        .unwrap()
        .into_iter()
        .map(|(name, color)| Parent { name, color, lab: lab_of(color) })
        .collect()
}

#[test]
fn distance_to_self_is_zero() {
    for hex in ["6495ed", "ffffff", "000000", "ff0000"] {
        let lab = lab_of(parse_color(hex).unwrap());
        assert_eq!(dist_sq(&lab, &lab), 0);
    }
}

#[test]
fn distance_is_symmetric() {
    let white = lab_of(parse_color("ffffff").unwrap());
    let blue = lab_of(parse_color("6495ed").unwrap());
    assert_eq!(dist_sq(&white, &blue), dist_sq(&blue, &white));
}

#[test]
fn cornflower_blue_matches_white_over_black() {
    let parents = parents_of("{\"white\": \"ffffff\", \"black\": \"000000\"}");
    let input = lab_of(parse_color("6495ed").unwrap());
    let (name, color) = perceptually_nearest(&input, &parents).unwrap();
    assert_eq!(name, "white");
    assert_eq!(color, Rgb { red: 255, green: 255, blue: 255 });
}

#[test]
fn exact_parent_matches_at_distance_zero() {
    let parents = parents_of("{\"white\": \"ffffff\", \"black\": \"000000\"}");
    let input = lab_of(parse_color("ffffff").unwrap());
    let (name, color) = perceptually_nearest(&input, &parents).unwrap();
    assert_eq!(name, "white");
    assert_eq!(color, Rgb { red: 255, green: 255, blue: 255 });
    let white = parents.iter().find(|p| p.name == "white").unwrap();
    assert_eq!(dist_sq(&input, &white.lab), 0);
}

#[test]
fn empty_parent_set_never_matches() {
    let parents = parents_of("{}");
    assert!(parents.is_empty());
    for hex in ["6495ed", "ffffff", "000000"] {
        let input = lab_of(parse_color(hex).unwrap());
        assert!(perceptually_nearest(&input, &parents).is_none());
    }
}

#[test]
fn equal_distance_ties_go_to_the_earlier_parent() {
    let mid = Lab { l: 50 << 20, a: 0, b: 0 };
    let low = Lab { l: 40 << 20, a: 0, b: 0 };
    let high = Lab { l: 60 << 20, a: 0, b: 0 };
    let gray = Rgb { red: 128, green: 128, blue: 128 };
    let first_low = vec![
        Parent { name: "low".to_string(), color: gray, lab: low },
        Parent { name: "high".to_string(), color: gray, lab: high },
    ];
    let (name, _) = perceptually_nearest(&mid, &first_low).unwrap();
    assert_eq!(name, "low");
    let first_high = vec![
        Parent { name: "high".to_string(), color: gray, lab: high },
        Parent { name: "low".to_string(), color: gray, lab: low },
    ];
    let (name, _) = perceptually_nearest(&mid, &first_high).unwrap();
    assert_eq!(name, "high");
}

#[test]
fn config_order_makes_ties_deterministic_by_name() {
    // Two parents with the same color are at the same distance from any
    // input; the loader hands them over sorted by name, so the earlier name
    // wins whatever order the configuration text used.
    let parents = parents_of("{\"zebra\": \"808080\", \"apple\": \"808080\"}");
    let input = lab_of(parse_color("6495ed").unwrap());
    let (name, _) = perceptually_nearest(&input, &parents).unwrap();
    assert_eq!(name, "apple");
}

#[test]
fn nearest_picks_the_closer_of_two_reds() {
    let parents = parents_of("{\"red\": \"ff0000\", \"darkred\": \"8b0000\"}");
    let input = lab_of(parse_color("fa1010").unwrap());
    let (name, _) = perceptually_nearest(&input, &parents).unwrap();
    assert_eq!(name, "red");
}
