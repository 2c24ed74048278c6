use model_gateway::version::parse_version;

#[test]
fn well_formed_versions_parse() {
    assert_eq!(parse_version("3.11.2"), Some((3, 11, 2)));
    assert_eq!(parse_version("0.0.0"), Some((0, 0, 0)));
    assert_eq!(parse_version("255.255.255"), Some((255, 255, 255)));
}

#[test]
fn a_fourth_component_is_ignored() {
    assert_eq!(parse_version("3.11.2.9"), Some((3, 11, 2)));
}

#[test]
fn too_few_components_are_rejected() {
    assert_eq!(parse_version("3.11"), None);
    assert_eq!(parse_version("3"), None);
    assert_eq!(parse_version(""), None);
}

#[test]
fn empty_components_are_rejected() {
    assert_eq!(parse_version("3..2"), None);
    assert_eq!(parse_version(".11.2"), None);
    assert_eq!(parse_version("3.11."), None);
}

#[test]
fn non_digit_components_are_rejected() {
    assert_eq!(parse_version("3.11.2rc1"), None);
    assert_eq!(parse_version("a.b.c"), None);
    assert_eq!(parse_version("3.-1.2"), None);
}

#[test]
fn components_wider_than_a_byte_are_rejected() {
    assert_eq!(parse_version("256.0.0"), None);
    assert_eq!(parse_version("3.1000.2"), None);
}
