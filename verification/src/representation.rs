//! The serialized representations of the magnet types.
//!
//! A magnet is written as a map from field names to values. Each magnet type
//! accepts a few layouts of field names, and each layout selects one of its
//! constructors. A layout accepts a map when every field of the map belongs to
//! the layout, no field occurs twice and every required field of the layout is
//! present. Unknown field names are never accepted.

use vstd::prelude::*;
use vstd::string::*;

verus! {

/// The field names that occur in the serialized magnets.
#[derive(PartialEq, Eq, Structural, Clone, Copy, Debug)]
pub enum Field {
    Length,
    Width,
    Thickness,
    Fillet,
    SideThickness,
    CenterThickness,
    Radius,
    SideHeight,
    CoreRadius,
    AirGapRadius,
    Angle,
    Material,
    /// Any name that is none of the above.
    Unknown,
}

/// The field that a key names.
pub open spec fn field_of(key: Seq<char>) -> Field {
    if key == "length"@ {
        Field::Length
    } else if key == "width"@ {
        Field::Width
    } else if key == "thickness"@ {
        Field::Thickness
    } else if key == "fillet"@ {
        Field::Fillet
    } else if key == "side_thickness"@ {
        Field::SideThickness
    } else if key == "center_thickness"@ {
        Field::CenterThickness
    } else if key == "radius"@ {
        Field::Radius
    } else if key == "side_height"@ {
        Field::SideHeight
    } else if key == "core_radius"@ {
        Field::CoreRadius
    } else if key == "air_gap_radius"@ {
        Field::AirGapRadius
    } else if key == "angle"@ {
        Field::Angle
    } else if key == "material"@ {
        Field::Material
    } else {
        Field::Unknown
    }
}

/// Returns whether two strings hold the same characters.
pub fn same_text(a: &str, b: &str) -> (r: bool)
    ensures
        r == (a@ == b@),
{
    let n = a.unicode_len();
    if n != b.unicode_len() {
        return false;
    }
    let mut i: usize = 0;
    while i < n
        invariant
            n == a@.len(),
            n == b@.len(),
            i <= n,
            forall|j: int| 0 <= j < i ==> a@[j] == b@[j],
        decreases n - i,
    {
        if a.get_char(i) != b.get_char(i) {
            return false;
        }
        i = i + 1;
    }
    assert(a@ =~= b@);
    true
}

/// Returns the field that `key` names.
pub fn field_of_key(key: &str) -> (f: Field)
    ensures
        f == field_of(key@),
{
    if same_text(key, "length") {
        Field::Length
    } else if same_text(key, "width") {
        Field::Width
    } else if same_text(key, "thickness") {
        Field::Thickness
    } else if same_text(key, "fillet") {
        Field::Fillet
    } else if same_text(key, "side_thickness") {
        Field::SideThickness
    } else if same_text(key, "center_thickness") {
        Field::CenterThickness
    } else if same_text(key, "radius") {
        Field::Radius
    } else if same_text(key, "side_height") {
        Field::SideHeight
    } else if same_text(key, "core_radius") {
        Field::CoreRadius
    } else if same_text(key, "air_gap_radius") {
        Field::AirGapRadius
    } else if same_text(key, "angle") {
        Field::Angle
    } else if same_text(key, "material") {
        Field::Material
    } else {
        Field::Unknown
    }
}

/// The position of a field in a presence table.
pub open spec fn field_index(f: Field) -> int {
    match f {
        Field::Length => 0,
        Field::Width => 1,
        Field::Thickness => 2,
        Field::Fillet => 3,
        Field::SideThickness => 4,
        Field::CenterThickness => 5,
        Field::Radius => 6,
        Field::SideHeight => 7,
        Field::CoreRadius => 8,
        Field::AirGapRadius => 9,
        Field::Angle => 10,
        Field::Material => 11,
        Field::Unknown => 12,
    }
}

/// The number of distinct fields.
const FIELD_COUNT: usize = 13;

fn index_of_field(f: Field) -> (i: usize)
    ensures
        i == field_index(f),
        i < FIELD_COUNT,
{
    match f {
        Field::Length => 0,
        Field::Width => 1,
        Field::Thickness => 2,
        Field::Fillet => 3,
        Field::SideThickness => 4,
        Field::CenterThickness => 5,
        Field::Radius => 6,
        Field::SideHeight => 7,
        Field::CoreRadius => 8,
        Field::AirGapRadius => 9,
        Field::Angle => 10,
        Field::Material => 11,
        Field::Unknown => 12,
    }
}

fn field_at(i: usize) -> (f: Field)
    requires
        i < FIELD_COUNT,
    ensures
        field_index(f) == i,
{
    match i {
        0 => Field::Length,
        1 => Field::Width,
        2 => Field::Thickness,
        3 => Field::Fillet,
        4 => Field::SideThickness,
        5 => Field::CenterThickness,
        6 => Field::Radius,
        7 => Field::SideHeight,
        8 => Field::CoreRadius,
        9 => Field::AirGapRadius,
        10 => Field::Angle,
        11 => Field::Material,
        _ => Field::Unknown,
    }
}

/// The fields named by a sequence of keys, in order.
pub open spec fn key_fields(keys: Seq<String>) -> Seq<Field> {
    Seq::new(keys.len(), |i: int| field_of(keys[i]@))
}

/// Looks up the fields named by `keys`. Returns `None` if a field is named
/// twice, and otherwise a table that says for each field (by its index)
/// whether it is named.
fn scan_fields(keys: &Vec<String>) -> (r: Option<Vec<bool>>)
    ensures
        match r {
            None => !key_fields(keys@).no_duplicates(),
            Some(present) => {
                &&& key_fields(keys@).no_duplicates()
                &&& present@.len() == FIELD_COUNT
                &&& forall|f: Field| #[trigger] present@[field_index(f)] == key_fields(keys@).contains(f)
            },
        },
{
    let ghost fields = key_fields(keys@);
    let mut present: Vec<bool> = Vec::new();
    let mut j: usize = 0;
    while j < FIELD_COUNT
        invariant
            j <= FIELD_COUNT,
            present@.len() == j,
            forall|k: int| 0 <= k < j ==> !present@[k],
        decreases FIELD_COUNT - j,
    {
        present.push(false);
        j = j + 1;
    }
    let mut i: usize = 0;
    while i < keys.len()
        invariant
            fields == key_fields(keys@),
            i <= keys.len(),
            present@.len() == FIELD_COUNT,
            fields.take(i as int).no_duplicates(),
            forall|f: Field| #[trigger] present@[field_index(f)] == fields.take(i as int).contains(f),
        decreases keys.len() - i,
    {
        let f = field_of_key(keys[i].as_str());
        assert(f == fields[i as int]);
        let k = index_of_field(f);
        assert(fields.take(i as int + 1) =~= fields.take(i as int).push(f));
        if present[k] {
            let ghost w = choose|w: int| 0 <= w < i && #[trigger] fields.take(i as int)[w] == f;
            assert(fields[w] == fields[i as int]);
            return None;
        }
        present.set(k, true);
        assert forall|g: Field| #[trigger] present@[field_index(g)] == fields.take(i as int + 1).contains(g) by {
            if g != f {
                assert(field_index(g) != field_index(f));
                if fields.take(i as int + 1).contains(g) {
                    let w = choose|w: int| 0 <= w < i + 1 && #[trigger] fields.take(i as int + 1)[w] == g;
                    assert(fields.take(i as int)[w] == g);
                }
            } else {
                assert(fields.take(i as int + 1)[i as int] == f);
            }
        }
        i = i + 1;
    }
    assert(fields.take(keys.len() as int) =~= fields);
    Some(present)
}

/// The accepted layouts of field names, one for each serialized
/// representation of a magnet.
#[derive(PartialEq, Eq, Structural, Clone, Copy, Debug)]
pub enum Layout {
    /// Block magnet: `length`, `width`, `thickness`, `fillet`, `material`.
    Block,
    /// Bread loaf magnet: `length`, `width`, `side_thickness`, `radius`,
    /// `material`.
    BreadLoafRadius,
    /// Bread loaf magnet: `length`, `width`, `side_thickness`,
    /// `center_thickness`, `material`.
    BreadLoafCenterThickness,
    /// Arc parallel magnet: `length`, `side_height`, `core_radius`, `width`,
    /// `material` and optionally `air_gap_radius`.
    ArcParallelSideHeightWidth,
    /// Arc parallel magnet: `length`, `side_height`, `core_radius`, `angle`,
    /// `material` and optionally `air_gap_radius`.
    ArcParallelSideHeightAngle,
    /// Arc parallel magnet: `length`, `thickness`, `core_radius`, `width`,
    /// `material`.
    ArcParallelThicknessWidth,
    /// Arc parallel magnet: `length`, `thickness`, `core_radius`, `angle`,
    /// `material`.
    ArcParallelThicknessAngle,
    /// Arc parallel magnet: `length`, `side_height`, `center_thickness`,
    /// `core_radius`, `angle`, `material`.
    ArcParallelCenterThicknessAngle,
    /// Arc parallel magnet: `length`, `side_height`, `center_thickness`,
    /// `core_radius`, `width`, `material`.
    ArcParallelCenterThicknessWidth,
    /// Arc segment magnet: `length`, `side_thickness`, `core_radius`, `angle`,
    /// `material` and optionally `air_gap_radius`.
    ArcSegmentSideThickness,
    /// Arc segment magnet: `length`, `core_radius`, `center_thickness`,
    /// `side_thickness`, `angle`, `material`.
    ArcSegmentCenterThickness,
}

/// What a layout demands of a field.
#[derive(PartialEq, Eq, Structural, Clone, Copy, Debug)]
pub enum Role {
    Required,
    Optional,
    Excluded,
}

/// The role of field `f` in `layout`.
pub open spec fn role(layout: Layout, f: Field) -> Role {
    let required = match layout {
        Layout::Block => f == Field::Length || f == Field::Width || f == Field::Thickness
            || f == Field::Fillet || f == Field::Material,
        Layout::BreadLoafRadius => f == Field::Length || f == Field::Width || f == Field::SideThickness
            || f == Field::Radius || f == Field::Material,
        Layout::BreadLoafCenterThickness => f == Field::Length || f == Field::Width
            || f == Field::SideThickness || f == Field::CenterThickness || f == Field::Material,
        Layout::ArcParallelSideHeightWidth => f == Field::Length || f == Field::SideHeight
            || f == Field::CoreRadius || f == Field::Width || f == Field::Material,
        Layout::ArcParallelSideHeightAngle => f == Field::Length || f == Field::SideHeight
            || f == Field::CoreRadius || f == Field::Angle || f == Field::Material,
        Layout::ArcParallelThicknessWidth => f == Field::Length || f == Field::Thickness
            || f == Field::CoreRadius || f == Field::Width || f == Field::Material,
        Layout::ArcParallelThicknessAngle => f == Field::Length || f == Field::Thickness
            || f == Field::CoreRadius || f == Field::Angle || f == Field::Material,
        Layout::ArcParallelCenterThicknessAngle => f == Field::Length || f == Field::SideHeight
            || f == Field::CenterThickness || f == Field::CoreRadius || f == Field::Angle
            || f == Field::Material,
        Layout::ArcParallelCenterThicknessWidth => f == Field::Length || f == Field::SideHeight
            || f == Field::CenterThickness || f == Field::CoreRadius || f == Field::Width
            || f == Field::Material,
        Layout::ArcSegmentSideThickness => f == Field::Length || f == Field::SideThickness
            || f == Field::CoreRadius || f == Field::Angle || f == Field::Material,
        Layout::ArcSegmentCenterThickness => f == Field::Length || f == Field::CoreRadius
            || f == Field::CenterThickness || f == Field::SideThickness || f == Field::Angle
            || f == Field::Material,
    };
    let optional = match layout {
        Layout::ArcParallelSideHeightWidth
        | Layout::ArcParallelSideHeightAngle
        | Layout::ArcSegmentSideThickness => f == Field::AirGapRadius,
        _ => false,
    };
    if required {
        Role::Required
    } else if optional {
        Role::Optional
    } else {
        Role::Excluded
    }
}

/// Returns the role of field `f` in `layout`.
fn role_of(layout: Layout, f: Field) -> (r: Role)
    ensures
        r == role(layout, f),
{
    let required = match layout {
        Layout::Block => f == Field::Length || f == Field::Width || f == Field::Thickness
            || f == Field::Fillet || f == Field::Material,
        Layout::BreadLoafRadius => f == Field::Length || f == Field::Width || f == Field::SideThickness
            || f == Field::Radius || f == Field::Material,
        Layout::BreadLoafCenterThickness => f == Field::Length || f == Field::Width
            || f == Field::SideThickness || f == Field::CenterThickness || f == Field::Material,
        Layout::ArcParallelSideHeightWidth => f == Field::Length || f == Field::SideHeight
            || f == Field::CoreRadius || f == Field::Width || f == Field::Material,
        Layout::ArcParallelSideHeightAngle => f == Field::Length || f == Field::SideHeight
            || f == Field::CoreRadius || f == Field::Angle || f == Field::Material,
        Layout::ArcParallelThicknessWidth => f == Field::Length || f == Field::Thickness
            || f == Field::CoreRadius || f == Field::Width || f == Field::Material,
        Layout::ArcParallelThicknessAngle => f == Field::Length || f == Field::Thickness
            || f == Field::CoreRadius || f == Field::Angle || f == Field::Material,
        Layout::ArcParallelCenterThicknessAngle => f == Field::Length || f == Field::SideHeight
            || f == Field::CenterThickness || f == Field::CoreRadius || f == Field::Angle
            || f == Field::Material,
        Layout::ArcParallelCenterThicknessWidth => f == Field::Length || f == Field::SideHeight
            || f == Field::CenterThickness || f == Field::CoreRadius || f == Field::Width
            || f == Field::Material,
        Layout::ArcSegmentSideThickness => f == Field::Length || f == Field::SideThickness
            || f == Field::CoreRadius || f == Field::Angle || f == Field::Material,
        Layout::ArcSegmentCenterThickness => f == Field::Length || f == Field::CoreRadius
            || f == Field::CenterThickness || f == Field::SideThickness || f == Field::Angle
            || f == Field::Material,
    };
    let optional = match layout {
        Layout::ArcParallelSideHeightWidth
        | Layout::ArcParallelSideHeightAngle
        | Layout::ArcSegmentSideThickness => f == Field::AirGapRadius,
        _ => false,
    };
    if required {
        Role::Required
    } else if optional {
        Role::Optional
    } else {
        Role::Excluded
    }
}

/// Whether the named fields fit `layout`: no field is named twice, every named
/// field belongs to the layout and every required field is named.
pub open spec fn fits_layout(fields: Seq<Field>, layout: Layout) -> bool {
    &&& fields.no_duplicates()
    &&& forall|f: Field| #[trigger] fields.contains(f) ==> role(layout, f) != Role::Excluded
    &&& forall|f: Field| role(layout, f) == Role::Required ==> #[trigger] fields.contains(f)
}

/// Checks a presence table (as returned by `scan_fields`) against `layout`.
fn table_fits(present: &Vec<bool>, layout: Layout, Ghost(fields): Ghost<Seq<Field>>) -> (r: bool)
    requires
        fields.no_duplicates(),
        present@.len() == FIELD_COUNT,
        forall|f: Field| #[trigger] present@[field_index(f)] == fields.contains(f),
    ensures
        r == fits_layout(fields, layout),
{
    let mut j: usize = 0;
    while j < FIELD_COUNT
        invariant
            j <= FIELD_COUNT,
            fields.no_duplicates(),
            present@.len() == FIELD_COUNT,
            forall|f: Field| #[trigger] present@[field_index(f)] == fields.contains(f),
            forall|f: Field| field_index(f) < j ==> {
                &&& (fields.contains(f) ==> role(layout, f) != Role::Excluded)
                &&& (role(layout, f) == Role::Required ==> fields.contains(f))
            },
        decreases FIELD_COUNT - j,
    {
        let f = field_at(j);
        let r = role_of(layout, f);
        let named = present[j];
        if named && r == Role::Excluded {
            return false;
        }
        if !named && r == Role::Required {
            return false;
        }
        j = j + 1;
    }
    true
}

/// Which of the two extents of an arc parallel magnet is given: its `width` or
/// its `angle`.
#[derive(PartialEq, Eq, Structural, Clone, Copy, Debug)]
pub enum Extent {
    Width,
    Angle,
}

/// The constructor that a serialized bread loaf magnet is built with.
#[derive(PartialEq, Eq, Structural, Clone, Copy, Debug)]
pub enum BreadLoafConstructor {
    /// `BreadLoafMagnet::new`, from the radius.
    Radius,
    /// `BreadLoafMagnet::with_center_thickness`.
    CenterThickness,
}

/// The constructor that a serialized arc parallel magnet is built with, and
/// which extent it is given.
#[derive(PartialEq, Eq, Structural, Clone, Copy, Debug)]
pub enum ArcParallelConstructor {
    /// `ArcParallelMagnet::new`, from the air gap radius and the side height.
    AirGapRadius(Extent),
    /// `ArcParallelMagnet::with_const_thickness` from the side height.
    ConstantFromSideHeight(Extent),
    /// `ArcParallelMagnet::with_const_thickness` from the thickness.
    ConstantFromThickness(Extent),
    /// `ArcParallelMagnet::with_center_thickness`.
    CenterThickness(Extent),
}

/// The constructor that a serialized arc segment magnet is built with.
#[derive(PartialEq, Eq, Structural, Clone, Copy, Debug)]
pub enum ArcSegmentConstructor {
    /// `ArcSegmentMagnet::new`, from the air gap radius.
    AirGapRadius,
    /// `ArcSegmentMagnet::with_const_thickness`.
    ConstantThickness,
    /// `ArcSegmentMagnet::with_center_thickness`.
    CenterThickness,
}

/// Whether a serialized block magnet with these fields is accepted.
pub open spec fn block_accepts(fields: Seq<Field>) -> bool {
    fits_layout(fields, Layout::Block)
}

/// The constructor of a serialized bread loaf magnet with these fields, with
/// its layouts tried in order.
pub open spec fn bread_loaf_constructor(fields: Seq<Field>) -> Option<BreadLoafConstructor> {
    if fits_layout(fields, Layout::BreadLoafRadius) {
        Some(BreadLoafConstructor::Radius)
    } else if fits_layout(fields, Layout::BreadLoafCenterThickness) {
        Some(BreadLoafConstructor::CenterThickness)
    } else {
        None
    }
}

/// The constructor of a serialized arc parallel magnet with these fields, with
/// its layouts tried in order. With the side height, an `air_gap_radius` that
/// is named and holds a value selects `new`; an absent `air_gap_radius`, or one
/// that holds no value (`air_gap_radius_null`), selects the magnet of constant
/// thickness.
pub open spec fn arc_parallel_constructor(fields: Seq<Field>, air_gap_radius_null: bool) -> Option<ArcParallelConstructor> {
    if fits_layout(fields, Layout::ArcParallelSideHeightWidth) {
        if fields.contains(Field::AirGapRadius) && !air_gap_radius_null {
            Some(ArcParallelConstructor::AirGapRadius(Extent::Width))
        } else {
            Some(ArcParallelConstructor::ConstantFromSideHeight(Extent::Width))
        }
    } else if fits_layout(fields, Layout::ArcParallelSideHeightAngle) {
        if fields.contains(Field::AirGapRadius) && !air_gap_radius_null {
            Some(ArcParallelConstructor::AirGapRadius(Extent::Angle))
        } else {
            Some(ArcParallelConstructor::ConstantFromSideHeight(Extent::Angle))
        }
    } else if fits_layout(fields, Layout::ArcParallelThicknessWidth) {
        Some(ArcParallelConstructor::ConstantFromThickness(Extent::Width))
    } else if fits_layout(fields, Layout::ArcParallelThicknessAngle) {
        Some(ArcParallelConstructor::ConstantFromThickness(Extent::Angle))
    } else if fits_layout(fields, Layout::ArcParallelCenterThicknessAngle) {
        Some(ArcParallelConstructor::CenterThickness(Extent::Angle))
    } else if fits_layout(fields, Layout::ArcParallelCenterThicknessWidth) {
        Some(ArcParallelConstructor::CenterThickness(Extent::Width))
    } else {
        None
    }
}

/// The constructor of a serialized arc segment magnet with these fields, with
/// its layouts tried in order. An `air_gap_radius` that is named and holds a
/// value selects `new`; an absent `air_gap_radius`, or one that holds no value
/// (`air_gap_radius_null`), selects the magnet of constant thickness.
pub open spec fn arc_segment_constructor(fields: Seq<Field>, air_gap_radius_null: bool) -> Option<ArcSegmentConstructor> {
    if fits_layout(fields, Layout::ArcSegmentSideThickness) {
        if fields.contains(Field::AirGapRadius) && !air_gap_radius_null {
            Some(ArcSegmentConstructor::AirGapRadius)
        } else {
            Some(ArcSegmentConstructor::ConstantThickness)
        }
    } else if fits_layout(fields, Layout::ArcSegmentCenterThickness) {
        Some(ArcSegmentConstructor::CenterThickness)
    } else {
        None
    }
}

/// Returns whether a serialized block magnet with the field names `keys` is
/// accepted.
pub fn block_representation(keys: &Vec<String>) -> (r: bool)
    ensures
        r == block_accepts(key_fields(keys@)),
{
    match scan_fields(keys) {
        None => false,
        Some(present) => table_fits(&present, Layout::Block, Ghost(key_fields(keys@))),
    }
}

/// Returns the constructor of a serialized bread loaf magnet with the field
/// names `keys`, or `None` if no layout accepts them.
pub fn bread_loaf_representation(keys: &Vec<String>) -> (r: Option<BreadLoafConstructor>)
    ensures
        r == bread_loaf_constructor(key_fields(keys@)),
{
    let ghost fields = key_fields(keys@);
    match scan_fields(keys) {
        None => None,
        Some(present) => {
            if table_fits(&present, Layout::BreadLoafRadius, Ghost(fields)) {
                Some(BreadLoafConstructor::Radius)
            } else if table_fits(&present, Layout::BreadLoafCenterThickness, Ghost(fields)) {
                Some(BreadLoafConstructor::CenterThickness)
            } else {
                None
            }
        },
    }
}

/// Returns the constructor of a serialized arc parallel magnet with the field
/// names `keys`, or `None` if no layout accepts them. `air_gap_radius_null`
/// says whether the `air_gap_radius` key holds no value.
pub fn arc_parallel_representation(keys: &Vec<String>, air_gap_radius_null: bool) -> (r: Option<ArcParallelConstructor>)
    ensures
        r == arc_parallel_constructor(key_fields(keys@), air_gap_radius_null),
{
    let ghost fields = key_fields(keys@);
    match scan_fields(keys) {
        None => None,
        Some(present) => {
            let with_air_gap_radius = present[index_of_field(Field::AirGapRadius)] && !air_gap_radius_null;
            if table_fits(&present, Layout::ArcParallelSideHeightWidth, Ghost(fields)) {
                if with_air_gap_radius {
                    Some(ArcParallelConstructor::AirGapRadius(Extent::Width))
                } else {
                    Some(ArcParallelConstructor::ConstantFromSideHeight(Extent::Width))
                }
            } else if table_fits(&present, Layout::ArcParallelSideHeightAngle, Ghost(fields)) {
                if with_air_gap_radius {
                    Some(ArcParallelConstructor::AirGapRadius(Extent::Angle))
                } else {
                    Some(ArcParallelConstructor::ConstantFromSideHeight(Extent::Angle))
                }
            } else if table_fits(&present, Layout::ArcParallelThicknessWidth, Ghost(fields)) {
                Some(ArcParallelConstructor::ConstantFromThickness(Extent::Width))
            } else if table_fits(&present, Layout::ArcParallelThicknessAngle, Ghost(fields)) {
                Some(ArcParallelConstructor::ConstantFromThickness(Extent::Angle))
            } else if table_fits(&present, Layout::ArcParallelCenterThicknessAngle, Ghost(fields)) {
                Some(ArcParallelConstructor::CenterThickness(Extent::Angle))
            } else if table_fits(&present, Layout::ArcParallelCenterThicknessWidth, Ghost(fields)) {
                Some(ArcParallelConstructor::CenterThickness(Extent::Width))
            } else {
                None
            }
        },
    }
}

/// Returns the constructor of a serialized arc segment magnet with the field
/// names `keys`, or `None` if no layout accepts them. `air_gap_radius_null`
/// says whether the `air_gap_radius` key holds no value.
pub fn arc_segment_representation(keys: &Vec<String>, air_gap_radius_null: bool) -> (r: Option<ArcSegmentConstructor>)
    ensures
        r == arc_segment_constructor(key_fields(keys@), air_gap_radius_null),
{
    let ghost fields = key_fields(keys@);
    match scan_fields(keys) {
        None => None,
        Some(present) => {
            let with_air_gap_radius = present[index_of_field(Field::AirGapRadius)] && !air_gap_radius_null;
            if table_fits(&present, Layout::ArcSegmentSideThickness, Ghost(fields)) {
                if with_air_gap_radius {
                    Some(ArcSegmentConstructor::AirGapRadius)
                } else {
                    Some(ArcSegmentConstructor::ConstantThickness)
                }
            } else if table_fits(&present, Layout::ArcSegmentCenterThickness, Ghost(fields)) {
                Some(ArcSegmentConstructor::CenterThickness)
            } else {
                None
            }
        },
    }
}

/// No set of field names fits two different layouts. So the order in which
/// the layouts of a magnet type are tried does not change which constructor a
/// serialized magnet is built with, and a serialized magnet of one type is
/// never accepted as one of another type.
pub proof fn lemma_layouts_are_disjoint(fields: Seq<Field>, a: Layout, b: Layout)
    requires
        fits_layout(fields, a),
        fits_layout(fields, b),
    ensures
        a == b,
{
    let _ = fields.contains(Field::Length);
    let _ = fields.contains(Field::Width);
    let _ = fields.contains(Field::Thickness);
    let _ = fields.contains(Field::Fillet);
    let _ = fields.contains(Field::SideThickness);
    let _ = fields.contains(Field::CenterThickness);
    let _ = fields.contains(Field::Radius);
    let _ = fields.contains(Field::SideHeight);
    let _ = fields.contains(Field::CoreRadius);
    let _ = fields.contains(Field::AirGapRadius);
    let _ = fields.contains(Field::Angle);
    let _ = fields.contains(Field::Material);
}

/// The fields that the bread loaf constructor `c` is given.
pub open spec fn bread_loaf_reads(c: BreadLoafConstructor, f: Field) -> bool {
    ||| f == Field::Length
    ||| f == Field::Width
    ||| f == Field::SideThickness
    ||| f == Field::Material
    ||| (c == BreadLoafConstructor::Radius && f == Field::Radius)
    ||| (c == BreadLoafConstructor::CenterThickness && f == Field::CenterThickness)
}

/// The field that holds the extent `e`.
pub open spec fn extent_field(e: Extent) -> Field {
    match e {
        Extent::Width => Field::Width,
        Extent::Angle => Field::Angle,
    }
}

/// The fields that the arc parallel constructor `c` is given.
pub open spec fn arc_parallel_reads(c: ArcParallelConstructor, f: Field) -> bool {
    ||| f == Field::Length
    ||| f == Field::CoreRadius
    ||| f == Field::Material
    ||| match c {
        ArcParallelConstructor::AirGapRadius(e) => f == Field::AirGapRadius || f == Field::SideHeight
            || f == extent_field(e),
        ArcParallelConstructor::ConstantFromSideHeight(e) => f == Field::SideHeight || f == extent_field(e),
        ArcParallelConstructor::ConstantFromThickness(e) => f == Field::Thickness || f == extent_field(e),
        ArcParallelConstructor::CenterThickness(e) => f == Field::SideHeight || f == Field::CenterThickness
            || f == extent_field(e),
    }
}

/// The fields that the arc segment constructor `c` is given.
pub open spec fn arc_segment_reads(c: ArcSegmentConstructor, f: Field) -> bool {
    ||| f == Field::Length
    ||| f == Field::CoreRadius
    ||| f == Field::SideThickness
    ||| f == Field::Angle
    ||| f == Field::Material
    ||| (c == ArcSegmentConstructor::AirGapRadius && f == Field::AirGapRadius)
    ||| (c == ArcSegmentConstructor::CenterThickness && f == Field::CenterThickness)
}

/// A serialized block magnet that is accepted names every field its
/// constructor is given, and no other.
pub proof fn lemma_block_fields_present(fields: Seq<Field>, f: Field)
    requires
        block_accepts(fields),
    ensures
        fields.contains(f) <==> (f == Field::Length || f == Field::Width || f == Field::Thickness
            || f == Field::Fillet || f == Field::Material),
{
}

/// The constructor selected for a serialized bread loaf magnet is given
/// exactly the fields that were named.
pub proof fn lemma_bread_loaf_fields_present(fields: Seq<Field>, c: BreadLoafConstructor, f: Field)
    requires
        bread_loaf_constructor(fields) == Some(c),
    ensures
        fields.contains(f) <==> bread_loaf_reads(c, f),
{
}

/// The constructor selected for a serialized arc parallel magnet is given
/// exactly the fields that were named, leaving out only an `air_gap_radius`
/// that holds no value.
pub proof fn lemma_arc_parallel_fields_present(
    fields: Seq<Field>,
    air_gap_radius_null: bool,
    c: ArcParallelConstructor,
    f: Field,
)
    requires
        arc_parallel_constructor(fields, air_gap_radius_null) == Some(c),
    ensures
        arc_parallel_reads(c, f) ==> fields.contains(f),
        fields.contains(f) ==> arc_parallel_reads(c, f) || (f == Field::AirGapRadius
            && air_gap_radius_null),
{
}

/// The constructor selected for a serialized arc segment magnet is given
/// exactly the fields that were named, leaving out only an `air_gap_radius`
/// that holds no value.
pub proof fn lemma_arc_segment_fields_present(
    fields: Seq<Field>,
    air_gap_radius_null: bool,
    c: ArcSegmentConstructor,
    f: Field,
)
    requires
        arc_segment_constructor(fields, air_gap_radius_null) == Some(c),
    ensures
        arc_segment_reads(c, f) ==> fields.contains(f),
        fields.contains(f) ==> arc_segment_reads(c, f) || (f == Field::AirGapRadius
            && air_gap_radius_null),
{
}

/// The fields a block magnet is serialized with, in order.
pub open spec fn block_serialized_fields() -> Seq<Field> {
    seq![Field::Length, Field::Width, Field::Thickness, Field::Fillet, Field::Material]
}

/// The fields a bread loaf magnet is serialized with, in order: its radius is
/// written, not its center thickness.
pub open spec fn bread_loaf_serialized_fields() -> Seq<Field> {
    seq![Field::Length, Field::Width, Field::SideThickness, Field::Radius, Field::Material]
}

/// The fields an arc parallel magnet is serialized with, in order: both radii,
/// the side height and the width.
pub open spec fn arc_parallel_serialized_fields() -> Seq<Field> {
    seq![
        Field::Length,
        Field::SideHeight,
        Field::CoreRadius,
        Field::AirGapRadius,
        Field::Width,
        Field::Material,
    ]
}

/// The fields an arc segment magnet is serialized with, in order: both radii,
/// the side thickness and the angle.
pub open spec fn arc_segment_serialized_fields() -> Seq<Field> {
    seq![
        Field::Length,
        Field::SideThickness,
        Field::CoreRadius,
        Field::AirGapRadius,
        Field::Angle,
        Field::Material,
    ]
}

proof fn lemma_contains_each<A>(s: Seq<A>)
    ensures
        forall|i: int| 0 <= i < s.len() ==> s.contains(#[trigger] s[i]),
{
}

/// A serialized magnet is read back with its constructor from both radii (or,
/// for the block magnet, its only constructor): the fields each magnet type
/// is written with select that constructor.
pub proof fn lemma_serialized_fields_select_radius_constructors()
    ensures
        block_accepts(block_serialized_fields()),
        bread_loaf_constructor(bread_loaf_serialized_fields()) == Some(BreadLoafConstructor::Radius),
        arc_parallel_constructor(arc_parallel_serialized_fields(), false) == Some(
            ArcParallelConstructor::AirGapRadius(Extent::Width),
        ),
        arc_segment_constructor(arc_segment_serialized_fields(), false) == Some(
            ArcSegmentConstructor::AirGapRadius,
        ),
{
    let b = block_serialized_fields();
    let l = bread_loaf_serialized_fields();
    let p = arc_parallel_serialized_fields();
    let s = arc_segment_serialized_fields();
    lemma_contains_each(b);
    lemma_contains_each(l);
    lemma_contains_each(p);
    lemma_contains_each(s);
    assert(b[0] == Field::Length && b[1] == Field::Width && b[2] == Field::Thickness
        && b[3] == Field::Fillet && b[4] == Field::Material);
    assert(l[0] == Field::Length && l[1] == Field::Width && l[2] == Field::SideThickness
        && l[3] == Field::Radius && l[4] == Field::Material);
    assert(p[0] == Field::Length && p[1] == Field::SideHeight && p[2] == Field::CoreRadius
        && p[3] == Field::AirGapRadius && p[4] == Field::Width && p[5] == Field::Material);
    assert(s[0] == Field::Length && s[1] == Field::SideThickness && s[2] == Field::CoreRadius
        && s[3] == Field::AirGapRadius && s[4] == Field::Angle && s[5] == Field::Material);
    assert(fits_layout(b, Layout::Block));
    assert(fits_layout(l, Layout::BreadLoafRadius));
    assert(fits_layout(p, Layout::ArcParallelSideHeightWidth));
    assert(fits_layout(s, Layout::ArcSegmentSideThickness));
}

/// The named fields are exactly the members of `names`, each named once.
pub open spec fn names_exactly(fields: Seq<Field>, names: Set<Field>) -> bool {
    &&& fields.no_duplicates()
    &&& forall|f: Field| #[trigger] fields.contains(f) <==> names.contains(f)
}

proof fn lemma_name_each(fields: Seq<Field>)
    ensures
        fields.contains(Field::Length) || !fields.contains(Field::Length),
        fields.contains(Field::Width) || !fields.contains(Field::Width),
        fields.contains(Field::Thickness) || !fields.contains(Field::Thickness),
        fields.contains(Field::Fillet) || !fields.contains(Field::Fillet),
        fields.contains(Field::SideThickness) || !fields.contains(Field::SideThickness),
        fields.contains(Field::CenterThickness) || !fields.contains(Field::CenterThickness),
        fields.contains(Field::Radius) || !fields.contains(Field::Radius),
        fields.contains(Field::SideHeight) || !fields.contains(Field::SideHeight),
        fields.contains(Field::CoreRadius) || !fields.contains(Field::CoreRadius),
        fields.contains(Field::AirGapRadius) || !fields.contains(Field::AirGapRadius),
        fields.contains(Field::Angle) || !fields.contains(Field::Angle),
        fields.contains(Field::Material) || !fields.contains(Field::Material),
        fields.contains(Field::Unknown) || !fields.contains(Field::Unknown),
{
}

/// A serialized block magnet is accepted exactly when its fields are
/// `length`, `width`, `thickness`, `fillet` and `material`, each named once,
/// in any order.
pub proof fn lemma_block_accepts_exactly_its_fields(fields: Seq<Field>)
    ensures
        block_accepts(fields) <==> names_exactly(
            fields,
            set![Field::Length, Field::Width, Field::Thickness, Field::Fillet, Field::Material],
        ),
{
    lemma_name_each(fields);
}

/// A serialized bread loaf magnet is built from its radius exactly when its
/// fields are `length`, `width`, `side_thickness`, `radius` and `material`,
/// and from its center thickness exactly when they are `length`, `width`,
/// `side_thickness`, `center_thickness` and `material`, each named once, in
/// any order; otherwise it is refused.
pub proof fn lemma_bread_loaf_constructor_by_field_set(fields: Seq<Field>)
    ensures
        bread_loaf_constructor(fields) == Some(BreadLoafConstructor::Radius) <==> names_exactly(
            fields,
            set![Field::Length, Field::Width, Field::SideThickness, Field::Radius, Field::Material],
        ),
        bread_loaf_constructor(fields) == Some(BreadLoafConstructor::CenterThickness)
            <==> names_exactly(
            fields,
            set![
                Field::Length,
                Field::Width,
                Field::SideThickness,
                Field::CenterThickness,
                Field::Material,
            ],
        ),
{
    lemma_name_each(fields);
    let radius = set![Field::Length, Field::Width, Field::SideThickness, Field::Radius, Field::Material];
    let center = set![
        Field::Length,
        Field::Width,
        Field::SideThickness,
        Field::CenterThickness,
        Field::Material,
    ];
    assert(fits_layout(fields, Layout::BreadLoafRadius) <==> names_exactly(fields, radius));
    assert(fits_layout(fields, Layout::BreadLoafCenterThickness) <==> names_exactly(fields, center));
    if names_exactly(fields, center) {
        assert(!radius.contains(Field::CenterThickness));
        assert(fields.contains(Field::CenterThickness));
    }
}

/// The fields of an arc parallel magnet given by its side height and its
/// extent `e`, without the air gap radius.
pub open spec fn arc_parallel_side_height_names(e: Extent) -> Set<Field> {
    set![Field::Length, Field::SideHeight, Field::CoreRadius, extent_field(e), Field::Material]
}

/// The fields of an arc parallel magnet of constant thickness given by its
/// thickness and its extent `e`.
pub open spec fn arc_parallel_thickness_names(e: Extent) -> Set<Field> {
    set![Field::Length, Field::Thickness, Field::CoreRadius, extent_field(e), Field::Material]
}

/// The fields of an arc parallel magnet given by its side height, its center
/// thickness and its extent `e`.
pub open spec fn arc_parallel_center_thickness_names(e: Extent) -> Set<Field> {
    set![
        Field::Length,
        Field::SideHeight,
        Field::CenterThickness,
        Field::CoreRadius,
        extent_field(e),
        Field::Material,
    ]
}

proof fn lemma_arc_parallel_layouts_by_names(fields: Seq<Field>)
    ensures
        fits_layout(fields, Layout::ArcParallelSideHeightWidth) <==> (names_exactly(
            fields,
            arc_parallel_side_height_names(Extent::Width),
        ) || names_exactly(
            fields,
            arc_parallel_side_height_names(Extent::Width).insert(Field::AirGapRadius),
        )),
        fits_layout(fields, Layout::ArcParallelSideHeightAngle) <==> (names_exactly(
            fields,
            arc_parallel_side_height_names(Extent::Angle),
        ) || names_exactly(
            fields,
            arc_parallel_side_height_names(Extent::Angle).insert(Field::AirGapRadius),
        )),
        fits_layout(fields, Layout::ArcParallelThicknessWidth) <==> names_exactly(
            fields,
            arc_parallel_thickness_names(Extent::Width),
        ),
        fits_layout(fields, Layout::ArcParallelThicknessAngle) <==> names_exactly(
            fields,
            arc_parallel_thickness_names(Extent::Angle),
        ),
        fits_layout(fields, Layout::ArcParallelCenterThicknessWidth) <==> names_exactly(
            fields,
            arc_parallel_center_thickness_names(Extent::Width),
        ),
        fits_layout(fields, Layout::ArcParallelCenterThicknessAngle) <==> names_exactly(
            fields,
            arc_parallel_center_thickness_names(Extent::Angle),
        ),
{
    lemma_name_each(fields);
    if fits_layout(fields, Layout::ArcParallelSideHeightWidth) {
        if fields.contains(Field::AirGapRadius) {
            assert(names_exactly(
                fields,
                arc_parallel_side_height_names(Extent::Width).insert(Field::AirGapRadius),
            ));
        } else {
            assert(names_exactly(fields, arc_parallel_side_height_names(Extent::Width)));
        }
    }
    if fits_layout(fields, Layout::ArcParallelSideHeightAngle) {
        if fields.contains(Field::AirGapRadius) {
            assert(names_exactly(
                fields,
                arc_parallel_side_height_names(Extent::Angle).insert(Field::AirGapRadius),
            ));
        } else {
            assert(names_exactly(fields, arc_parallel_side_height_names(Extent::Angle)));
        }
    }
}

/// The constructor of a serialized arc parallel magnet depends only on which
/// fields are named (each once, in any order) and on whether a named air gap
/// radius holds a value, for each extent `e` (`width` or `angle`):
/// - `new` exactly for the side height fields with an air gap radius that holds
///   a value;
/// - the constant thickness from the side height exactly for the side height
///   fields without an air gap radius, or with one that holds no value;
/// - the constant thickness from the thickness exactly for the thickness
///   fields;
/// - the center thickness exactly for the center thickness fields.
/// So an air gap radius without a value never selects `new`.
pub proof fn lemma_arc_parallel_constructor_by_field_set(
    fields: Seq<Field>,
    air_gap_radius_null: bool,
    e: Extent,
)
    ensures
        arc_parallel_constructor(fields, air_gap_radius_null) == Some(
            ArcParallelConstructor::AirGapRadius(e),
        ) <==> (!air_gap_radius_null && names_exactly(
            fields,
            arc_parallel_side_height_names(e).insert(Field::AirGapRadius),
        )),
        arc_parallel_constructor(fields, air_gap_radius_null) == Some(
            ArcParallelConstructor::ConstantFromSideHeight(e),
        ) <==> (names_exactly(fields, arc_parallel_side_height_names(e)) || (air_gap_radius_null
            && names_exactly(fields, arc_parallel_side_height_names(e).insert(Field::AirGapRadius)))),
        arc_parallel_constructor(fields, air_gap_radius_null) == Some(
            ArcParallelConstructor::ConstantFromThickness(e),
        ) <==> names_exactly(fields, arc_parallel_thickness_names(e)),
        arc_parallel_constructor(fields, air_gap_radius_null) == Some(
            ArcParallelConstructor::CenterThickness(e),
        ) <==> names_exactly(fields, arc_parallel_center_thickness_names(e)),
        air_gap_radius_null ==> arc_parallel_constructor(fields, air_gap_radius_null) != Some(
            ArcParallelConstructor::AirGapRadius(e),
        ),
{
    lemma_name_each(fields);
    lemma_arc_parallel_layouts_by_names(fields);
    let layouts = seq![
        Layout::ArcParallelSideHeightWidth,
        Layout::ArcParallelSideHeightAngle,
        Layout::ArcParallelThicknessWidth,
        Layout::ArcParallelThicknessAngle,
        Layout::ArcParallelCenterThicknessAngle,
        Layout::ArcParallelCenterThicknessWidth,
    ];
    assert forall|i: int, j: int|
        0 <= i < 6 && 0 <= j < 6 && i != j && fits_layout(fields, #[trigger] layouts[i]) implies !fits_layout(
        fields,
        #[trigger] layouts[j],
    ) by {
        if fits_layout(fields, layouts[j]) {
            lemma_layouts_are_disjoint(fields, layouts[i], layouts[j]);
        }
    }
    assert(layouts[0] == Layout::ArcParallelSideHeightWidth);
    assert(layouts[1] == Layout::ArcParallelSideHeightAngle);
    assert(layouts[2] == Layout::ArcParallelThicknessWidth);
    assert(layouts[3] == Layout::ArcParallelThicknessAngle);
    assert(layouts[4] == Layout::ArcParallelCenterThicknessAngle);
    assert(layouts[5] == Layout::ArcParallelCenterThicknessWidth);
}

/// The fields of an arc segment magnet given by its side thickness, without
/// the air gap radius.
pub open spec fn arc_segment_side_thickness_names() -> Set<Field> {
    set![Field::Length, Field::SideThickness, Field::CoreRadius, Field::Angle, Field::Material]
}

/// The fields of an arc segment magnet given by its center thickness.
pub open spec fn arc_segment_center_thickness_names() -> Set<Field> {
    set![
        Field::Length,
        Field::CoreRadius,
        Field::CenterThickness,
        Field::SideThickness,
        Field::Angle,
        Field::Material,
    ]
}

/// The constructor of a serialized arc segment magnet depends only on which
/// fields are named (each once, in any order) and on whether a named air gap
/// radius holds a value:
/// - `new` exactly for the side thickness fields with an air gap radius that
///   holds a value;
/// - the constant thickness exactly for the side thickness fields without an
///   air gap radius, or with one that holds no value;
/// - the center thickness exactly for the center thickness fields.
/// So an air gap radius without a value never selects `new`.
pub proof fn lemma_arc_segment_constructor_by_field_set(fields: Seq<Field>, air_gap_radius_null: bool)
    ensures
        arc_segment_constructor(fields, air_gap_radius_null) == Some(
            ArcSegmentConstructor::AirGapRadius,
        ) <==> (!air_gap_radius_null && names_exactly(
            fields,
            arc_segment_side_thickness_names().insert(Field::AirGapRadius),
        )),
        arc_segment_constructor(fields, air_gap_radius_null) == Some(
            ArcSegmentConstructor::ConstantThickness,
        ) <==> (names_exactly(fields, arc_segment_side_thickness_names()) || (air_gap_radius_null
            && names_exactly(fields, arc_segment_side_thickness_names().insert(Field::AirGapRadius)))),
        arc_segment_constructor(fields, air_gap_radius_null) == Some(
            ArcSegmentConstructor::CenterThickness,
        ) <==> names_exactly(fields, arc_segment_center_thickness_names()),
        air_gap_radius_null ==> arc_segment_constructor(fields, air_gap_radius_null) != Some(
            ArcSegmentConstructor::AirGapRadius,
        ),
{
    lemma_name_each(fields);
    let side = arc_segment_side_thickness_names();
    let center = arc_segment_center_thickness_names();
    if fits_layout(fields, Layout::ArcSegmentSideThickness) {
        if fields.contains(Field::AirGapRadius) {
            assert(names_exactly(fields, side.insert(Field::AirGapRadius)));
        } else {
            assert(names_exactly(fields, side));
        }
    }
    assert(names_exactly(fields, side) ==> fits_layout(fields, Layout::ArcSegmentSideThickness));
    assert(names_exactly(fields, side.insert(Field::AirGapRadius)) ==> fits_layout(
        fields,
        Layout::ArcSegmentSideThickness,
    ));
    assert(fits_layout(fields, Layout::ArcSegmentCenterThickness) <==> names_exactly(fields, center));
    if names_exactly(fields, center) {
        assert(!side.contains(Field::CenterThickness));
        assert(!side.insert(Field::AirGapRadius).contains(Field::CenterThickness));
        assert(fields.contains(Field::CenterThickness));
    }
}

/// The same fields named, in another order: two lists of field names that hold
/// the same names, each as often, are read alike. A serialized block magnet is
/// accepted for both or for neither, and each other magnet type selects the
/// same constructor (or refuses both).
pub proof fn lemma_field_order_is_irrelevant(a: Seq<Field>, b: Seq<Field>, air_gap_radius_null: bool)
    requires
        a.to_multiset() == b.to_multiset(),
    ensures
        block_accepts(a) == block_accepts(b),
        bread_loaf_constructor(a) == bread_loaf_constructor(b),
        arc_parallel_constructor(a, air_gap_radius_null) == arc_parallel_constructor(b, air_gap_radius_null),
        arc_segment_constructor(a, air_gap_radius_null) == arc_segment_constructor(b, air_gap_radius_null),
{
    assert forall|f: Field| a.contains(f) <==> b.contains(f) by {
        a.to_multiset_ensures();
        b.to_multiset_ensures();
        assert(a.contains(f) <==> a.to_multiset().count(f) > 0);
        assert(b.contains(f) <==> b.to_multiset().count(f) > 0);
    }
    if a.no_duplicates() {
        a.lemma_multiset_has_no_duplicates();
        b.lemma_multiset_has_no_duplicates_conv();
    }
    if b.no_duplicates() {
        b.lemma_multiset_has_no_duplicates();
        a.lemma_multiset_has_no_duplicates_conv();
    }
    assert(a.no_duplicates() == b.no_duplicates());
    assert forall|l: Layout| fits_layout(a, l) == fits_layout(b, l) by {
        if fits_layout(a, l) {
            assert forall|f: Field| #[trigger] b.contains(f) implies role(l, f) != Role::Excluded by {
                assert(a.contains(f));
            }
            assert forall|f: Field| role(l, f) == Role::Required implies #[trigger] b.contains(f) by {
                assert(a.contains(f));
            }
        }
        if fits_layout(b, l) {
            assert forall|f: Field| #[trigger] a.contains(f) implies role(l, f) != Role::Excluded by {
                assert(b.contains(f));
            }
            assert forall|f: Field| role(l, f) == Role::Required implies #[trigger] a.contains(f) by {
                assert(b.contains(f));
            }
        }
    }
    assert(a.contains(Field::AirGapRadius) == b.contains(Field::AirGapRadius));
}

} // verus!
