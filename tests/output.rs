use dumper_output::model::{
    modules_have_unique_names, schema_modules_have_unique_names, Entry, Module, Results, SchemaModule, Timestamp,
};
use dumper_output::names::{format_module_name, sanitize_name, NameError};
use dumper_output::render::{render_with_stamp, Format, Item};
use dumper_output::snapshot::{build_number_address, DumpError};

const BANNER_HEAD: &str = "// Generated using https://github.com/a2x/cs2-dumper\n";

fn entry(name: &str, value: u64) -> Entry {
    Entry { name: name.to_string(), value }
}

fn module(name: &str, entries: Vec<Entry>) -> Module {
    Module { name: name.to_string(), entries }
}

fn stamp() -> Timestamp {
    Timestamp { secs: 1_700_000_000, nanos: 0 }
}

fn scenario() -> Results {
    Results::with_timestamp(
        stamp(),
        vec![entry("attack", 0x1A)],
        vec![module("client.dll", vec![entry("Source2Client002", 0x40)])],
        vec![module("client.dll", vec![entry("dwBuildNumber", 0x10)])],
        vec![],
    )
}

fn banner() -> String {
    format!("{}// 2023-11-14 22:13:20 UTC\n\n", BANNER_HEAD)
}

#[test]
fn sanitize_replaces_symbols() {
    assert_eq!(sanitize_name("Foo Bar!"), "Foo_Bar_");
    assert_eq!(sanitize_name("m_iHealth"), "m_iHealth");
    assert_eq!(sanitize_name("a::b<c>"), "a__b_c_");
}

#[test]
fn sanitize_is_idempotent() {
    for s in ["Foo Bar!", "", "x.y-z", "CBaseEntity", "caf\u{e9} \u{2603}"] {
        let once = sanitize_name(s);
        assert_eq!(sanitize_name(&once), once);
    }
}

#[test]
fn sanitize_keeps_alphanumerics() {
    assert_eq!(sanitize_name("Abc123"), "Abc123");
    assert_eq!(sanitize_name("caf\u{e9}"), "caf\u{e9}");
    assert_eq!(sanitize_name("\u{2603}"), "_");
}

#[test]
fn module_name_strips_host_suffix() {
    assert_eq!(format_module_name(&"client.so".to_string(), "linux"), Ok("client".to_string()));
    assert_eq!(format_module_name(&"client.dll".to_string(), "windows"), Ok("client".to_string()));
    assert_eq!(format_module_name(&".dll".to_string(), "windows"), Ok(String::new()));
}

#[test]
fn module_name_without_suffix_fails() {
    assert_eq!(format_module_name(&"client.dll".to_string(), "linux"), Err(NameError::MissingSuffix));
    assert_eq!(format_module_name(&"so".to_string(), "linux"), Err(NameError::MissingSuffix));
}

#[test]
fn module_name_on_other_host_fails() {
    assert_eq!(format_module_name(&"client.so".to_string(), "macos"), Err(NameError::UnsupportedOs));
}

#[test]
fn render_is_deterministic() {
    let r = scenario();
    for item in [Item::Buttons, Item::Interfaces, Item::Offsets, Item::Schemas] {
        for f in [Format::Cs, Format::Hpp, Format::Json, Format::Rs] {
            assert_eq!(r.generate(item, 4, f), r.generate(item, 4, f));
        }
    }
}

#[test]
fn source_files_open_with_banner() {
    let r = scenario();
    let expected = chrono::DateTime::from_timestamp(1_700_000_000, 0).unwrap().to_string();
    for f in [Format::Cs, Format::Hpp, Format::Rs] {
        let text = r.generate(Item::Offsets, 4, f).unwrap();
        let mut lines = text.lines();
        assert_eq!(lines.next(), Some("// Generated using https://github.com/a2x/cs2-dumper"));
        assert_eq!(lines.next().unwrap(), format!("// {}", expected));
        assert_eq!(lines.next(), Some(""));
    }
}

#[test]
fn json_has_no_banner() {
    let r = scenario();
    for item in [Item::Buttons, Item::Interfaces, Item::Offsets, Item::Schemas] {
        let text = r.generate(item, 4, Format::Json).unwrap();
        assert!(text.starts_with('{'));
        assert!(!text.contains("Generated using"));
    }
}

#[test]
fn offsets_in_cs() {
    let text = scenario().generate(Item::Offsets, 4, Format::Cs).unwrap();
    let body = "namespace Dumper {\n    public static class client_dll {\n        public const nint dwBuildNumber = 0x10;\n    }\n}\n";
    assert_eq!(text, format!("{}{}", banner(), body));
}

#[test]
fn offsets_in_hpp() {
    let text = scenario().generate(Item::Offsets, 2, Format::Hpp).unwrap();
    let body = "#pragma once\n\n#include <cstddef>\n\nnamespace dumper {\n  namespace client_dll {\n    constexpr std::ptrdiff_t dwBuildNumber = 0x10;\n  }\n}\n";
    assert_eq!(text, format!("{}{}", banner(), body));
}

#[test]
fn offsets_in_rs() {
    let text = scenario().generate(Item::Offsets, 4, Format::Rs).unwrap();
    let body = "#![allow(non_upper_case_globals, unused)]\n\npub mod dumper {\n    pub mod client_dll {\n        pub const dwBuildNumber: usize = 0x10;\n    }\n}\n";
    assert_eq!(text, format!("{}{}", banner(), body));
}

#[test]
fn offsets_in_json() {
    let text = scenario().generate(Item::Offsets, 4, Format::Json).unwrap();
    assert_eq!(text, "{\n    \"client.dll\": {\n        \"dwBuildNumber\": 16\n    }\n}\n");
}

#[test]
fn buttons_in_json_and_cs() {
    let r = Results::with_timestamp(stamp(), vec![entry("attack", 255), entry("jump", 0)], vec![], vec![], vec![]);
    let json = r.generate(Item::Buttons, 2, Format::Json).unwrap();
    assert_eq!(json, "{\n  \"buttons\": {\n    \"attack\": 255,\n    \"jump\": 0\n  }\n}\n");
    let cs = r.generate(Item::Buttons, 2, Format::Cs).unwrap();
    let body = "namespace Dumper {\n  public static class buttons {\n    public const nint attack = 0xFF;\n    public const nint jump = 0x0;\n  }\n}\n";
    assert_eq!(cs, format!("{}{}", banner(), body));
}

#[test]
fn empty_collections_in_json() {
    let r = scenario();
    assert_eq!(r.generate(Item::Schemas, 4, Format::Json).unwrap(), "{}\n");
    let e = Results::with_timestamp(stamp(), vec![], vec![], vec![module("a", vec![])], vec![]);
    assert_eq!(e.generate(Item::Offsets, 4, Format::Json).unwrap(), "{\n    \"a\": {}\n}\n");
    assert_eq!(e.generate(Item::Buttons, 4, Format::Json).unwrap(), "{\n    \"buttons\": {}\n}\n");
}

#[test]
fn json_keys_are_escaped() {
    let r = Results::with_timestamp(stamp(), vec![entry("say \"hi\"\\", 1)], vec![], vec![], vec![]);
    let json = r.generate(Item::Buttons, 1, Format::Json).unwrap();
    assert_eq!(json, "{\n \"buttons\": {\n  \"say \\\"hi\\\"\\\\\": 1\n }\n}\n");
}

#[test]
fn schemas_are_flattened_in_order() {
    let schemas = vec![
        SchemaModule {
            name: "client.dll".to_string(),
            classes: vec![module("C_Base", vec![entry("m_iHealth", 0x344)]), module("C_Empty", vec![])],
        },
        SchemaModule { name: "server.dll".to_string(), classes: vec![module("CPlayer", vec![entry("m_pPawn", 8)])] },
    ];
    let r = Results::with_timestamp(stamp(), vec![], vec![], vec![], schemas);
    let json = r.generate(Item::Schemas, 2, Format::Json).unwrap();
    assert_eq!(
        json,
        "{\n  \"C_Base\": {\n    \"m_iHealth\": 836\n  },\n  \"C_Empty\": {},\n  \"CPlayer\": {\n    \"m_pPawn\": 8\n  }\n}\n"
    );
    let rs = r.generate(Item::Schemas, 2, Format::Rs).unwrap();
    assert!(rs.ends_with("pub mod dumper {\n  pub mod C_Base {\n    pub const m_iHealth: usize = 0x344;\n  }\n  pub mod C_Empty {\n  }\n  pub mod CPlayer {\n    pub const m_pPawn: usize = 0x8;\n  }\n}\n"));
}

#[test]
fn sanitized_identifiers_in_source() {
    let r = Results::with_timestamp(stamp(), vec![], vec![module("engine2.dll", vec![entry("Source2Engine001", 0x5A0)])], vec![], vec![]);
    let hpp = r.generate(Item::Interfaces, 4, Format::Hpp).unwrap();
    assert!(hpp.contains("    namespace engine2_dll {\n        constexpr std::ptrdiff_t Source2Engine001 = 0x5A0;\n    }\n"));
}

#[test]
fn timestamp_out_of_range() {
    let r = Results::with_timestamp(Timestamp { secs: i64::MAX, nanos: 0 }, vec![], vec![], vec![], vec![]);
    assert_eq!(r.generate(Item::Buttons, 4, Format::Cs), Err(DumpError::Timestamp));
    assert!(r.generate(Item::Buttons, 4, Format::Json).is_ok());
    assert_eq!(r.info_json(1), Err(DumpError::Timestamp));
    assert!(r.dump_plan(4, None).is_err());
    assert!(r.render_all(4).is_err());
}

#[test]
fn render_with_stamp_uses_given_text() {
    let text = render_with_stamp(Item::Interfaces, Format::Cs, &scenario(), 1, "then");
    assert_eq!(
        text,
        format!("{}// then\n\nnamespace Dumper {{\n public static class client_dll {{\n  public const nint Source2Client002 = 0x40;\n }}\n}}\n", BANNER_HEAD)
    );
}

#[test]
fn dump_writes_seventeen_named_files() {
    let files = scenario().dump_plan(4, Some(7)).unwrap();
    let names: Vec<&str> = files.iter().map(|f| f.name.as_str()).collect();
    assert_eq!(
        names,
        vec![
            "buttons.cs", "buttons.hpp", "buttons.json", "buttons.rs", "interfaces.cs", "interfaces.hpp",
            "interfaces.json", "interfaces.rs", "offsets.cs", "offsets.hpp", "offsets.json", "offsets.rs",
            "schemas.cs", "schemas.hpp", "schemas.json", "schemas.rs", "info.json",
        ]
    );
}

#[test]
fn dump_scenario() {
    let r = scenario();
    let files = r.dump_plan(4, Some(0x1234)).unwrap();
    assert_eq!(files.len(), 17);
    assert_eq!(files[16].contents, "{\n  \"build_number\": 4660,\n  \"timestamp\": \"2023-11-14T22:13:20+00:00\"\n}");
    assert_eq!(files[10].name, "offsets.json");
    assert_eq!(files[10].contents, "{\n    \"client.dll\": {\n        \"dwBuildNumber\": 16\n    }\n}\n");
    assert_eq!(files[0].contents, r.generate(Item::Buttons, 4, Format::Cs).unwrap());
    let unresolved = r.dump_plan(4, None).unwrap();
    assert!(unresolved[16].contents.contains("\"build_number\": 0,"));
}

#[test]
fn build_number_defaults_to_zero() {
    let r = Results::with_timestamp(stamp(), vec![], vec![], vec![module("client.dll", vec![entry("dwEntityList", 8)])], vec![]);
    assert_eq!(r.find_build_number(), None);
    let files = r.dump_plan(4, Some(99)).unwrap();
    assert!(files[16].contents.contains("\"build_number\": 0,"));
}

#[test]
fn build_number_first_match_wins() {
    let r = Results::with_timestamp(
        stamp(),
        vec![],
        vec![],
        vec![
            module("a.dll", vec![entry("x", 1)]),
            module("b.dll", vec![entry("y", 2), entry("dwBuildNumber", 3), entry("dwBuildNumber", 4)]),
            module("c.dll", vec![entry("dwBuildNumber", 5)]),
        ],
        vec![],
    );
    assert_eq!(r.find_build_number(), Some((1, 1)));
}

#[test]
fn build_number_address_sums() {
    assert_eq!(build_number_address(0x7ff0_0000, 0x10), Some(0x7ff0_0010));
    assert_eq!(build_number_address(u64::MAX, 1), None);
}

#[test]
fn info_json_exact() {
    let r = Results::with_timestamp(Timestamp { secs: 0, nanos: 500_000_000 }, vec![], vec![], vec![], vec![]);
    assert_eq!(r.info_json(14_000).unwrap(), "{\n  \"build_number\": 14000,\n  \"timestamp\": \"1970-01-01T00:00:00.500+00:00\"\n}");
}

#[test]
fn new_stamps_current_time() {
    let r = Results::new(vec![], vec![], vec![], vec![]);
    assert!(r.timestamp.secs > 1_600_000_000);
    assert!(r.timestamp.nanos < 1_000_000_000);
}

#[test]
fn unique_module_names() {
    assert!(modules_have_unique_names(&vec![module("a", vec![]), module("b", vec![])]));
    assert!(!modules_have_unique_names(&vec![module("a", vec![]), module("b", vec![]), module("a", vec![])]));
    let s = SchemaModule { name: "m".to_string(), classes: vec![] };
    assert!(!schema_modules_have_unique_names(&vec![s.clone(), s]));
}
