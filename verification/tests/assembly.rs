use stem_magnet::assembly::MagnetAssembly;

#[test]
fn assembly_number_magnets_is_product() {
    let assembly = MagnetAssembly::new("block", 2, 3);
    assert_eq!(assembly.number_axial(), 2);
    assert_eq!(assembly.number_tangential(), 3);
    assert_eq!(assembly.number_magnets(), 6);
    assert_eq!(*assembly.magnet(), "block");
}

#[test]
fn assembly_single_magnet() {
    let assembly = MagnetAssembly::new(7u32, 1, 1);
    assert_eq!(assembly.number_magnets(), 1);
    assert_eq!(*assembly.magnet(), 7u32);
}

#[test]
fn assembly_number_magnets_bounds() {
    let assembly = MagnetAssembly::new((), 5, 1);
    assert!(assembly.number_magnets() >= assembly.number_axial());
    assert!(assembly.number_magnets() >= assembly.number_tangential());
    assert_eq!(assembly.number_magnets(), 5);
}

#[test]
fn assembly_try_new_refuses_zero_counts() {
    assert!(MagnetAssembly::try_new("block", 0, 3).is_none());
    assert!(MagnetAssembly::try_new("block", 2, 0).is_none());
    assert!(MagnetAssembly::try_new("block", 0, 0).is_none());
    let assembly = MagnetAssembly::try_new("block", 2, 3).expect("nonzero counts");
    assert_eq!(assembly.number_axial(), 2);
    assert_eq!(assembly.number_tangential(), 3);
    assert_eq!(assembly.number_magnets(), 6);
}

#[test]
fn assembly_clone_keeps_counts() {
    let assembly = MagnetAssembly::new(String::from("arc segment"), 4, 3);
    let copy = assembly.clone();
    assert_eq!(copy.number_axial(), 4);
    assert_eq!(copy.number_tangential(), 3);
    assert_eq!(copy.number_magnets(), 12);
    assert_eq!(copy.magnet(), assembly.magnet());
}
