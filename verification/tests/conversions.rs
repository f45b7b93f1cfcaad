use battery_jni::convert::{cycle_count_field, enum_member_name};

#[test]
fn technology_names_become_enum_constants() {
    assert_eq!(enum_member_name("lithium-ion"), "LITHIUM_ION");
    assert_eq!(enum_member_name("lead-acid"), "LEAD_ACID");
    assert_eq!(enum_member_name("nickel-metal-hydride"), "NICKEL_METAL_HYDRIDE");
    assert_eq!(
        enum_member_name("rechargeable-alkaline-manganese"),
        "RECHARGEABLE_ALKALINE_MANGANESE"
    );
}

#[test]
fn state_names_become_enum_constants() {
    assert_eq!(enum_member_name("unknown"), "UNKNOWN");
    assert_eq!(enum_member_name("charging"), "CHARGING");
    assert_eq!(enum_member_name("discharging"), "DISCHARGING");
    assert_eq!(enum_member_name("empty"), "EMPTY");
    assert_eq!(enum_member_name("full"), "FULL");
}

#[test]
fn empty_name_stays_empty() {
    assert_eq!(enum_member_name(""), "");
}

#[test]
fn characters_outside_the_rule_pass_through() {
    assert_eq!(enum_member_name("ABC_9x"), "ABC_9X");
    assert_eq!(enum_member_name("a-Z0!"), "A_Z0!");
    assert_eq!(enum_member_name("µvolt"), "µVOLT");
}

#[test]
fn cycle_count_crosses_as_a_long() {
    assert_eq!(cycle_count_field(&Some(0)), 0);
    assert_eq!(cycle_count_field(&Some(617)), 617);
    assert_eq!(cycle_count_field(&Some(u32::MAX)), 4294967295);
}

#[test]
fn absent_cycle_count_is_the_smallest_long() {
    assert_eq!(cycle_count_field(&None), i64::MIN);
}
