use agnetd::init::{agent_name, preset_choice, presets};

#[test]
fn preset_count() {
    assert_eq!(presets().len(), 4);
}

#[test]
fn preset_names_unique() {
    let p = presets();
    let names: std::collections::HashSet<&str> = p.iter().map(|p| p.name.as_str()).collect();
    assert_eq!(names.len(), p.len());
}

#[test]
fn coding_preset_has_capabilities() {
    assert!(!presets()[0].capabilities.is_empty());
}

#[test]
fn custom_preset_has_no_capabilities() {
    assert!(presets()[3].capabilities.is_empty());
}

#[test]
fn preset_table_contents() {
    let p = presets();
    assert_eq!(p[2].name, "inference-provider");
    assert_eq!(p[2].capabilities, vec!["inference", "training"]);
    assert_eq!(p[1].description, "Data analysis and summarization");
}

#[test]
fn choice_reads_a_number_in_range() {
    assert_eq!(preset_choice(" 2\n", 4), Some(1));
    assert_eq!(preset_choice("4", 4), Some(3));
    assert_eq!(preset_choice("0", 4), None);
    assert_eq!(preset_choice("5", 4), None);
    assert_eq!(preset_choice("two", 4), None);
    assert_eq!(preset_choice("", 4), None);
}

#[test]
fn name_defaults_when_blank() {
    assert_eq!(agent_name("  \n", "coding"), "coding");
    assert_eq!(agent_name(" alice \n", "coding"), "alice");
}
