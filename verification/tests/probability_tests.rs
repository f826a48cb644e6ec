use neural_control::probability::{curve_parameter_groups, CurveParameters};

fn bits(v: &[f32]) -> Vec<u32> {
    v.iter().map(|x| x.to_bits()).collect()
}

fn curve(m: f32, d: f32, x: f32) -> CurveParameters {
    CurveParameters { mean_raw: m.to_bits(), deviation_raw: d.to_bits(), max_raw: x.to_bits() }
}

#[test]
fn one_triple_one_curve() {
    let g = curve_parameter_groups(&bits(&[0.5, 2.0, 3.0]), 1);
    assert_eq!(g, vec![vec![curve(0.5, 2.0, 3.0)]]);
}

#[test]
fn two_curves_in_one_distribution() {
    let g = curve_parameter_groups(&bits(&[0.5, 2.0, 3.0, 0.5, 5.0, 6.0]), 2);
    assert_eq!(g, vec![vec![curve(0.5, 2.0, 3.0), curve(0.5, 5.0, 6.0)]]);
}

#[test]
fn two_distributions_of_one_curve() {
    let g = curve_parameter_groups(&bits(&[0.5, 2.0, 3.0, 0.5, 5.0, 6.0]), 1);
    assert_eq!(g, vec![vec![curve(0.5, 2.0, 3.0)], vec![curve(0.5, 5.0, 6.0)]]);
}

#[test]
fn leftover_values_are_ignored() {
    let arr: Vec<u32> = (0..20u32).collect();
    let g = curve_parameter_groups(&arr, 3);
    assert_eq!(g.len(), 2);
    assert_eq!(g[1][2], CurveParameters { mean_raw: 15, deviation_raw: 16, max_raw: 17 });
    assert!(curve_parameter_groups(&vec![1, 2], 1).is_empty());
    assert!(curve_parameter_groups(&vec![1, 2, 3, 4, 5], 2).is_empty());
}

#[test]
fn predictor_width_gives_one_distribution_per_state_value() {
    let state_len = 4usize;
    let k = 3usize;
    let arr: Vec<u32> = (0..(state_len * k * 3) as u32).collect();
    let g = curve_parameter_groups(&arr, k);
    assert_eq!(g.len(), state_len);
    assert!(g.iter().all(|d| d.len() == k));
}
