use stem_magnet::arc::{air_gap_arc_positive, air_gap_radius_positive};

#[test]
fn air_gap_arc_direction_from_radius_signs() {
    // Inner rotor, convex air gap surface (core 50 mm, air gap 60 mm)
    assert!(!air_gap_arc_positive(true, true));
    // Inner rotor, concave air gap surface
    assert!(air_gap_arc_positive(true, false));
    // Outer rotor, air gap radius -50 mm with core radius -60 mm
    assert!(!air_gap_arc_positive(false, false));
    // Outer rotor, convex air gap surface
    assert!(air_gap_arc_positive(false, true));
}

#[test]
fn air_gap_radius_sign_from_arc_direction() {
    assert!(air_gap_radius_positive(true, false));
    assert!(!air_gap_radius_positive(true, true));
    assert!(!air_gap_radius_positive(false, false));
    assert!(air_gap_radius_positive(false, true));
}

#[test]
fn air_gap_radius_sign_roundtrip() {
    for core in [true, false] {
        for air_gap in [true, false] {
            let arc = air_gap_arc_positive(core, air_gap);
            assert_eq!(air_gap_radius_positive(core, arc), air_gap);
        }
        for arc in [true, false] {
            let air_gap = air_gap_radius_positive(core, arc);
            assert_eq!(air_gap_arc_positive(core, air_gap), arc);
        }
    }
}
