use svd2rust_regress::text::{has_suffix, replace};
use svd2rust_regress::{Group, RunWhen, Target, TestCase};

fn case(group: Group, chip: &str) -> TestCase {
    TestCase::new(Target::CortexM, group, chip.to_string())
}

#[test]
fn new_case_has_the_defaults() {
    let case = TestCase::new(Target::RISCV, Group::SiFive, "E310x".to_string());
    assert_eq!(case.arch, Target::RISCV);
    assert_eq!(case.group, Group::SiFive);
    assert_eq!(case.chip, "E310x");
    assert_eq!(case.suffix, None);
    assert_eq!(case.opts, None);
    assert_eq!(case.svd_url, None);
    assert!(case.should_pass);
    assert!(!case.skip_check);
    assert_eq!(case.run_when, RunWhen::Always);
    assert_eq!(RunWhen::default(), RunWhen::Always);
}

#[test]
fn clone_keeps_every_field() {
    let mut first = case(Group::Espressif, "esp32");
    first.arch = Target::XtensaLX;
    first.suffix = Some("atomics".to_string());
    first.opts = Some(vec!["--atomics".to_string(), "--strict".to_string()]);
    first.skip_check = true;
    first.run_when = RunWhen::NotShort;
    let copy = first.clone();
    assert_eq!(copy.arch, Target::XtensaLX);
    assert_eq!(copy, first);
}

#[test]
fn name_joins_group_and_chip() {
    assert_eq!(case(Group::Nordic, "nrf52").name(), "Nordic-nrf52");
    assert_eq!(
        case(Group::STMicroF1, "STM32F103xx").name(),
        "STMicroF1-STM32F103xx"
    );
    assert_eq!(case(Group::Unknown, "x").name(), "Unknown-x");
    assert_eq!(case(Group::Atmel, "").name(), "Atmel-");
}

#[test]
fn name_has_no_dot_of_the_chip() {
    assert_eq!(case(Group::Freescale, "MK02F12810.v2").name(), "Freescale-MK02F12810_v2");
    assert_eq!(case(Group::Atmel, "a.b.c").name(), "Atmel-a_b_c");
    assert_eq!(case(Group::Atmel, "..").name(), "Atmel-__");
    assert_eq!(case(Group::Atmel, ".svd.").name(), "Atmel-_svd_");
    assert_eq!(case(Group::NXP, "a_b-c").name(), "NXP-a_b-c");
    assert!(!case(Group::Holtek, "ht32.f1.25x").name().contains('.'));
}

#[test]
fn name_ends_with_the_suffix() {
    let mut with_suffix = case(Group::Espressif, "esp32c3");
    with_suffix.suffix = Some("atomics".to_string());
    assert_eq!(with_suffix.name(), "Espressif-esp32c3-atomics");
    with_suffix.suffix = Some(String::new());
    assert_eq!(with_suffix.name(), "Espressif-esp32c3-");
    with_suffix.suffix = Some("v1.2".to_string());
    with_suffix.chip = "esp.32".to_string();
    assert_eq!(with_suffix.name(), "Espressif-esp_32-v1.2");
}

#[test]
fn name_keeps_other_characters() {
    assert_eq!(case(Group::Toshiba, "M36\u{e9}.\u{4e2d}").name(), "Toshiba-M36\u{e9}_\u{4e2d}");
}

#[test]
fn svd_url_is_derived_from_vendor_and_chip() {
    assert_eq!(
        case(Group::Nordic, "nrf52").svd_url(),
        "https://raw.githubusercontent.com/cmsis-svd/cmsis-svd-data/main/data/Nordic/nrf52.svd"
    );
    assert_eq!(
        case(Group::STMicroF4, "STM32F401").svd_url(),
        "https://raw.githubusercontent.com/cmsis-svd/cmsis-svd-data/main/data/STMicro/STM32F401.svd"
    );
    assert_eq!(
        case(Group::FujitsuMB9AF1, "MB9AF10xN").svd_url(),
        "https://raw.githubusercontent.com/cmsis-svd/cmsis-svd-data/main/data/Fujitsu/MB9AF10xN.svd"
    );
}

#[test]
fn svd_url_keeps_the_dots_of_the_chip() {
    assert_eq!(
        case(Group::Nordic, "nrf52.svd").svd_url(),
        "https://raw.githubusercontent.com/cmsis-svd/cmsis-svd-data/main/data/Nordic/nrf52.svd.svd"
    );
}

#[test]
fn svd_url_override_is_returned_unchanged() {
    let mut overridden = case(Group::Nordic, "nrf52");
    overridden.svd_url = Some("https://example.com/x.svd".to_string());
    assert_eq!(overridden.svd_url(), "https://example.com/x.svd");
    overridden.group = Group::Unknown;
    overridden.chip = "other".to_string();
    assert!(overridden.has_source());
    assert_eq!(overridden.svd_url(), "https://example.com/x.svd");
}

#[test]
fn has_source_tells_when_a_url_exists() {
    assert!(case(Group::Nordic, "nrf52").has_source());
    assert!(case(Group::SiFive, "E310x").has_source());
    assert!(!case(Group::Unknown, "nrf52").has_source());
    let mut named = case(Group::Unknown, "nrf52");
    named.svd_url = Some(String::new());
    assert!(named.has_source());
    assert_eq!(named.svd_url(), "");
}

#[test]
fn should_run_follows_run_when() {
    let mut subject = case(Group::Nordic, "nrf52");
    subject.run_when = RunWhen::Always;
    assert!(subject.should_run(true));
    assert!(subject.should_run(false));
    subject.run_when = RunWhen::NotShort;
    assert!(!subject.should_run(true));
    assert!(subject.should_run(false));
}

#[test]
fn never_does_not_hold_a_case_back() {
    let mut subject = case(Group::Nordic, "nrf52");
    subject.run_when = RunWhen::Never;
    assert!(subject.should_run(true));
    assert!(subject.should_run(false));
}

#[test]
fn replace_changes_only_the_given_character() {
    assert_eq!(replace("a.b", '.', '_'), "a_b");
    assert_eq!(replace("", '.', '_'), "");
    assert_eq!(replace("...", '.', '_'), "___");
    assert_eq!(replace("abc", '.', '_'), "abc");
    assert_eq!(replace("a_b.c", '.', '_'), "a_b_c");
    assert_eq!(replace("a.b", '.', '.'), "a.b");
    assert_eq!(replace("\u{e9}.\u{e9}", '\u{e9}', 'e'), "e.e");
}

#[test]
fn has_suffix_compares_the_end() {
    assert!(has_suffix("cases.json", ".json"));
    assert!(has_suffix(".json", ".json"));
    assert!(has_suffix("anything", ""));
    assert!(has_suffix("", ""));
    assert!(!has_suffix("json", ".json"));
    assert!(!has_suffix("cases.json5", ".json"));
    assert!(!has_suffix("cases.jso", ".json"));
    assert!(!has_suffix("", ".yml"));
    assert!(has_suffix("\u{4e2d}\u{6587}.yml", ".yml"));
    assert!(has_suffix("x\u{e9}", "\u{e9}"));
    assert!(!has_suffix("x\u{e9}", "e"));
}
