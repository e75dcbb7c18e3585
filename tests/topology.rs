use opamp_design::topology::{is_sign_negative_bits, Topology, SIGN_BIT};

#[test]
fn sign_of_ordinary_values() {
    assert!(!is_sign_negative_bits(2.0f64.to_bits()));
    assert!(is_sign_negative_bits((-2.0f64).to_bits()));
    assert!(!is_sign_negative_bits(0.0f64.to_bits()));
}

#[test]
fn negative_zero_is_negative() {
    assert_eq!((-0.0f64).to_bits(), SIGN_BIT);
    assert!(is_sign_negative_bits((-0.0f64).to_bits()));
    assert_eq!(
        Topology::select_from_bits((-0.0f64).to_bits(), (-0.0f64).to_bits()),
        Topology::TopologyD
    );
    assert_eq!(
        Topology::select_from_bits(0.0f64.to_bits(), (-0.0f64).to_bits()),
        Topology::TopologyB
    );
    assert_eq!(
        Topology::select_from_bits(0.0f64.to_bits(), 0.0f64.to_bits()),
        Topology::TopologyA
    );
}

#[test]
fn select_covers_four_cases() {
    assert_eq!(Topology::select(false, false), Topology::TopologyA);
    assert_eq!(Topology::select(false, true), Topology::TopologyB);
    assert_eq!(Topology::select(true, false), Topology::TopologyC);
    assert_eq!(Topology::select(true, true), Topology::TopologyD);
}

#[test]
fn select_is_repeatable() {
    let g = (2.0f64).to_bits();
    let o = (-1.0f64).to_bits();
    assert_eq!(Topology::select_from_bits(g, o), Topology::select_from_bits(g, o));
}

#[test]
fn gain_and_offset_from_voltages_select_topology() {
    // v_ref, vo_fs, vo_zs, vi_fs, vi_zs = 1, 5, 1, 2, 0: gain 2, offset 1
    let (vo_fs, vo_zs, vi_fs, vi_zs) = (5.0f64, 1.0f64, 2.0f64, 0.0f64);
    let gain = (vo_fs - vo_zs) / (vi_fs - vi_zs);
    let offset = vo_zs - gain * vi_zs;
    assert_eq!(gain, 2.0);
    assert_eq!(offset, 1.0);
    assert_eq!(Topology::select_from_bits(gain.to_bits(), offset.to_bits()), Topology::TopologyA);
}
