use fancurve::driver::choose_card;
use fancurve::driver::library_name_for_version;
use fancurve::driver::parse_driver_version;

#[test]
fn first_responsive_card_is_chosen() {
    assert_eq!(choose_card(&Vec::new()), None);
    assert_eq!(choose_card(&vec![0]), Some(0));
    assert_eq!(choose_card(&vec![2, 0, 1]), Some(2));
}

#[test]
fn version_triple_is_extracted_from_the_driver_text() {
    let text = b"NVRM version: NVIDIA UNIX x86_64 Kernel Module  555.42.02  Tue May 21\n\
                 GCC version:  gcc version 13.2.0\n"
        .to_vec();
    assert_eq!(parse_driver_version(&text), Some(b"555.42.02".to_vec()));
}

#[test]
fn single_space_and_long_components_are_accepted() {
    let text = b"Kernel Module 12345.6.789012".to_vec();
    assert_eq!(parse_driver_version(&text), Some(b"12345.6.789012".to_vec()));
}

#[test]
fn text_without_the_marker_yields_nothing() {
    let text = b"no driver information here".to_vec();
    assert_eq!(parse_driver_version(&text), None);
}

#[test]
fn marker_without_a_well_formed_triple_yields_nothing() {
    assert_eq!(parse_driver_version(&b"Kernel Module  beta".to_vec()), None);
    assert_eq!(parse_driver_version(&b"Kernel Module  555.42".to_vec()), None);
    assert_eq!(parse_driver_version(&b"Kernel Module  555..42".to_vec()), None);
    // At least one space must separate the marker from the triple.
    assert_eq!(parse_driver_version(&b"Kernel Module555.42.02".to_vec()), None);
}

#[test]
fn the_first_capturable_marker_wins() {
    let text = b"Kernel Module  none here\nKernel Module  535.183.01 built\n".to_vec();
    assert_eq!(parse_driver_version(&text), Some(b"535.183.01".to_vec()));
}

#[test]
fn library_name_carries_the_version_suffix() {
    assert_eq!(
        library_name_for_version(&b"555.42.02".to_vec()),
        b"libnvidia-ml.so.555.42.02".to_vec()
    );
}

#[test]
fn the_triple_stops_at_the_first_non_digit() {
    let text = b"Kernel Module  555.42.02.99".to_vec();
    assert_eq!(parse_driver_version(&text), Some(b"555.42.02".to_vec()));
}
