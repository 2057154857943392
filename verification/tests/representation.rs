use stem_magnet::representation::{
    arc_parallel_representation, arc_segment_representation, block_representation,
    bread_loaf_representation, field_of_key, same_text, ArcParallelConstructor,
    ArcSegmentConstructor, BreadLoafConstructor, Extent, Field,
};

fn keys(names: &[&str]) -> Vec<String> {
    names.iter().map(|s| s.to_string()).collect()
}

#[test]
fn text_comparison() {
    assert!(same_text("length", "length"));
    assert!(!same_text("length", "lengths"));
    assert!(!same_text("width", "Width"));
    assert!(same_text("", ""));
    assert!(!same_text("ÄÖ", "AO"));
}

#[test]
fn keys_name_fields() {
    assert_eq!(field_of_key("length"), Field::Length);
    assert_eq!(field_of_key("width"), Field::Width);
    assert_eq!(field_of_key("thickness"), Field::Thickness);
    assert_eq!(field_of_key("fillet"), Field::Fillet);
    assert_eq!(field_of_key("side_thickness"), Field::SideThickness);
    assert_eq!(field_of_key("center_thickness"), Field::CenterThickness);
    assert_eq!(field_of_key("radius"), Field::Radius);
    assert_eq!(field_of_key("side_height"), Field::SideHeight);
    assert_eq!(field_of_key("core_radius"), Field::CoreRadius);
    assert_eq!(field_of_key("air_gap_radius"), Field::AirGapRadius);
    assert_eq!(field_of_key("angle"), Field::Angle);
    assert_eq!(field_of_key("material"), Field::Material);
    assert_eq!(field_of_key("Length"), Field::Unknown);
    assert_eq!(field_of_key("name"), Field::Unknown);
}

#[test]
fn block_magnet_layout() {
    assert!(block_representation(&keys(&["length", "width", "thickness", "fillet", "material"])));
    assert!(block_representation(&keys(&["material", "fillet", "thickness", "width", "length"])));
    // Missing fillet
    assert!(!block_representation(&keys(&["length", "width", "thickness", "material"])));
    // Unknown field
    assert!(!block_representation(&keys(&[
        "length", "width", "thickness", "fillet", "material", "colour"
    ])));
    // Field of another magnet type
    assert!(!block_representation(&keys(&[
        "length", "width", "thickness", "fillet", "material", "angle"
    ])));
    // Duplicate field
    assert!(!block_representation(&keys(&[
        "length", "width", "thickness", "fillet", "material", "width"
    ])));
    assert!(!block_representation(&keys(&[])));
}

#[test]
fn bread_loaf_magnet_layouts() {
    assert_eq!(
        bread_loaf_representation(&keys(&["length", "width", "side_thickness", "radius", "material"])),
        Some(BreadLoafConstructor::Radius)
    );
    assert_eq!(
        bread_loaf_representation(&keys(&[
            "length", "width", "side_thickness", "center_thickness", "material"
        ])),
        Some(BreadLoafConstructor::CenterThickness)
    );
    // Both radius and center thickness
    assert_eq!(
        bread_loaf_representation(&keys(&[
            "length", "width", "side_thickness", "radius", "center_thickness", "material"
        ])),
        None
    );
    assert_eq!(
        bread_loaf_representation(&keys(&["length", "width", "side_thickness", "material"])),
        None
    );
}

#[test]
fn arc_parallel_magnet_layouts() {
    assert_eq!(
        arc_parallel_representation(&keys(&[
            "length", "core_radius", "air_gap_radius", "side_height", "width", "material"
        ]), false),
        Some(ArcParallelConstructor::AirGapRadius(Extent::Width))
    );
    assert_eq!(
        arc_parallel_representation(&keys(&[
            "length", "core_radius", "air_gap_radius", "side_height", "angle", "material"
        ]), false),
        Some(ArcParallelConstructor::AirGapRadius(Extent::Angle))
    );
    assert_eq!(
        arc_parallel_representation(&keys(&[
            "length", "core_radius", "side_height", "width", "material"
        ]), false),
        Some(ArcParallelConstructor::ConstantFromSideHeight(Extent::Width))
    );
    assert_eq!(
        arc_parallel_representation(&keys(&[
            "length", "core_radius", "side_height", "angle", "material"
        ]), false),
        Some(ArcParallelConstructor::ConstantFromSideHeight(Extent::Angle))
    );
    assert_eq!(
        arc_parallel_representation(&keys(&["length", "core_radius", "thickness", "width", "material"]), false),
        Some(ArcParallelConstructor::ConstantFromThickness(Extent::Width))
    );
    assert_eq!(
        arc_parallel_representation(&keys(&["length", "core_radius", "thickness", "angle", "material"]), false),
        Some(ArcParallelConstructor::ConstantFromThickness(Extent::Angle))
    );
    assert_eq!(
        arc_parallel_representation(&keys(&[
            "length", "core_radius", "side_height", "center_thickness", "width", "material"
        ]), false),
        Some(ArcParallelConstructor::CenterThickness(Extent::Width))
    );
    assert_eq!(
        arc_parallel_representation(&keys(&[
            "length", "core_radius", "side_height", "center_thickness", "angle", "material"
        ]), false),
        Some(ArcParallelConstructor::CenterThickness(Extent::Angle))
    );
    // Width and angle together
    assert_eq!(
        arc_parallel_representation(&keys(&[
            "length", "core_radius", "side_height", "width", "angle", "material"
        ]), false),
        None
    );
    // Thickness and air gap radius together
    assert_eq!(
        arc_parallel_representation(&keys(&[
            "length", "core_radius", "thickness", "air_gap_radius", "width", "material"
        ]), false),
        None
    );
}

#[test]
fn arc_segment_magnet_layouts() {
    assert_eq!(
        arc_segment_representation(&keys(&[
            "length", "core_radius", "air_gap_radius", "side_thickness", "angle", "material"
        ]), false),
        Some(ArcSegmentConstructor::AirGapRadius)
    );
    assert_eq!(
        arc_segment_representation(&keys(&[
            "length", "core_radius", "side_thickness", "angle", "material"
        ]), false),
        Some(ArcSegmentConstructor::ConstantThickness)
    );
    assert_eq!(
        arc_segment_representation(&keys(&[
            "length", "core_radius", "side_thickness", "center_thickness", "angle", "material"
        ]), false),
        Some(ArcSegmentConstructor::CenterThickness)
    );
    // An arc segment magnet has no width
    assert_eq!(
        arc_segment_representation(&keys(&[
            "length", "core_radius", "side_thickness", "width", "material"
        ]), false),
        None
    );
}

#[test]
fn layouts_of_one_type_are_refused_by_the_others() {
    let segment = keys(&["length", "core_radius", "side_thickness", "center_thickness", "angle", "material"]);
    assert_eq!(arc_parallel_representation(&segment, false), None);
    assert_eq!(bread_loaf_representation(&segment), None);
    assert!(!block_representation(&segment));

    let block = keys(&["length", "width", "thickness", "fillet", "material"]);
    assert_eq!(arc_parallel_representation(&block, false), None);
    assert_eq!(arc_segment_representation(&block, false), None);
    assert_eq!(bread_loaf_representation(&block), None);

    let parallel = keys(&["length", "core_radius", "thickness", "width", "material"]);
    assert!(!block_representation(&parallel));
    assert_eq!(arc_segment_representation(&parallel, false), None);
    assert_eq!(bread_loaf_representation(&parallel), None);
}

#[test]
fn selected_constructor_is_given_every_named_field() {
    let full = ["length", "core_radius", "air_gap_radius", "side_height", "width", "material"];
    assert_eq!(
        arc_parallel_representation(&keys(&full), false),
        Some(ArcParallelConstructor::AirGapRadius(Extent::Width))
    );
    // Leaving out any field but the optional air gap radius refuses the magnet
    for left_out in 0..full.len() {
        let names: Vec<&str> = full
            .iter()
            .enumerate()
            .filter(|(i, _)| *i != left_out)
            .map(|(_, s)| *s)
            .collect();
        let result = arc_parallel_representation(&keys(&names), false);
        if full[left_out] == "air_gap_radius" {
            assert_eq!(
                result,
                Some(ArcParallelConstructor::ConstantFromSideHeight(Extent::Width))
            );
        } else {
            assert_eq!(result, None);
        }
    }

    let segment = ["length", "core_radius", "side_thickness", "center_thickness", "angle", "material"];
    for left_out in 0..segment.len() {
        let names: Vec<&str> = segment
            .iter()
            .enumerate()
            .filter(|(i, _)| *i != left_out)
            .map(|(_, s)| *s)
            .collect();
        let result = arc_segment_representation(&keys(&names), false);
        if segment[left_out] == "center_thickness" {
            assert_eq!(result, Some(ArcSegmentConstructor::ConstantThickness));
        } else {
            assert_eq!(result, None);
        }
    }
}

#[test]
fn serialized_fields_select_radius_constructors() {
    assert!(block_representation(&keys(&["length", "width", "thickness", "fillet", "material"])));
    assert_eq!(
        bread_loaf_representation(&keys(&["length", "width", "side_thickness", "radius", "material"])),
        Some(BreadLoafConstructor::Radius)
    );
    assert_eq!(
        arc_parallel_representation(&keys(&[
            "length", "side_height", "core_radius", "air_gap_radius", "width", "material"
        ]), false),
        Some(ArcParallelConstructor::AirGapRadius(Extent::Width))
    );
    assert_eq!(
        arc_segment_representation(&keys(&[
            "length", "side_thickness", "core_radius", "air_gap_radius", "angle", "material"
        ]), false),
        Some(ArcSegmentConstructor::AirGapRadius)
    );
}

#[test]
fn air_gap_radius_without_value_selects_constant_thickness() {
    let parallel = keys(&["length", "core_radius", "air_gap_radius", "side_height", "angle", "material"]);
    assert_eq!(
        arc_parallel_representation(&parallel, true),
        Some(ArcParallelConstructor::ConstantFromSideHeight(Extent::Angle))
    );
    assert_eq!(
        arc_parallel_representation(&parallel, false),
        Some(ArcParallelConstructor::AirGapRadius(Extent::Angle))
    );
    let segment = keys(&["length", "core_radius", "air_gap_radius", "side_thickness", "angle", "material"]);
    assert_eq!(
        arc_segment_representation(&segment, true),
        Some(ArcSegmentConstructor::ConstantThickness)
    );
    // A null air gap radius is still a named field: it is refused where the
    // layout has no place for it.
    let thickness = keys(&["length", "core_radius", "air_gap_radius", "thickness", "width", "material"]);
    assert_eq!(arc_parallel_representation(&thickness, true), None);
}
