use icon_pipeline::aggregate::Aggregator;
use icon_pipeline::emit::{render_icon_table, render_module_registration, CargoToml};
use icon_pipeline::extract::{extract_icon, parse_svg, ExtractionError};
use icon_pipeline::ident::{icon_feature_name, to_component_name, to_feature_flag_name};
use icon_pipeline::model::{Feature, Icon, IconMeta};
use icon_pipeline::package::{lib_name, Package, PackageType};
use icon_pipeline::pipeline::{assert_paths, finalize, process_extracted, process_units,
    record_outcome, ProcessError, RawUnit};
use icon_pipeline::sort::{sort_features, sort_strings};

fn icon(ty: PackageType, name: &str) -> Icon {
    Icon {
        ty,
        component_name: name.to_string(),
        feature: Feature {
            name: name.to_string(),
            package_short_name: ty.short_name().to_string(),
        },
        categories: Vec::new(),
        svg_attributes: String::new(),
        svg_body: String::new(),
    }
}

fn good_unit(name: &str) -> RawUnit {
    RawUnit {
        name: name.to_string(),
        categories: Vec::new(),
        svg: "<svg a=\"b\"><p/></svg>".to_string(),
    }
}

#[test]
fn feature_flag_name_upper_camels_the_short_name() {
    assert_eq!(to_feature_flag_name("ai"), "Ai");
    assert_eq!(to_component_name("pushpin-twotone"), "PushpinTwotone");
    assert_eq!(icon_feature_name("ai", "pushpin-twotone"), "AiPushpinTwotone");
}

#[test]
fn lib_name_prefixes_short_name() {
    assert_eq!(lib_name("ai"), "leptos-icons-ai");
    assert_eq!(Package::new(PackageType::Bs).lib_name(), "leptos-icons-bs");
}

#[test]
fn parse_svg_splits_attributes_and_body() {
    let (attrs, body) = parse_svg("<svg a=\"b\"><p/></svg>").unwrap();
    assert_eq!(attrs, " a=\"b\"");
    assert_eq!(body, "<p/>");
}

#[test]
fn parse_svg_accepts_minimal_element() {
    let (attrs, body) = parse_svg("<svg></svg>").unwrap();
    assert_eq!(attrs, "");
    assert_eq!(body, "");
}

#[test]
fn parse_svg_rejects_malformed_markup() {
    assert_eq!(parse_svg("<div></div>").unwrap_err(), ExtractionError::MalformedSvg);
    assert_eq!(parse_svg("<svg").unwrap_err(), ExtractionError::MalformedSvg);
    assert_eq!(parse_svg("<svg<</svg>").unwrap_err(), ExtractionError::MalformedSvg);
}

#[test]
fn extract_icon_rejects_missing_name() {
    let r = extract_icon(PackageType::Ai, "", Vec::new(), "<svg></svg>");
    assert_eq!(r.unwrap_err(), ExtractionError::MissingName);
}

#[test]
fn extract_icon_builds_normalized_icon() {
    let cats = vec!["arrows".to_string(), "ui".to_string()];
    let icon = extract_icon(
        PackageType::Ai,
        "pushpin-twotone",
        cats,
        "<svg a=\"b\"><p/></svg>",
    )
    .unwrap();
    assert_eq!(icon.component_name, "AiPushpinTwotone");
    assert_eq!(icon.feature.name, "AiPushpinTwotone");
    assert_eq!(icon.feature.package_short_name, "ai");
    assert_eq!(icon.categories, vec!["arrows".to_string(), "ui".to_string()]);
    assert_eq!(icon.svg_attributes, " a=\"b\"");
    assert_eq!(icon.svg_body, "<p/>");
}

#[test]
fn per_package_icons_are_sorted_by_name() {
    let icons = vec![
        icon(PackageType::Ai, "B"),
        icon(PackageType::Ai, "A"),
        icon(PackageType::Ai, "C"),
    ];
    let out = process_extracted(&Package::new(PackageType::Ai), icons);
    let names: Vec<&str> = out.features.iter().map(|f| f.name.as_str()).collect();
    assert_eq!(names, vec!["A", "B", "C"]);
    let meta_names: Vec<&str> = out.metas.iter().map(|m| m.name.as_str()).collect();
    assert_eq!(meta_names, vec!["A", "B", "C"]);
    let a = out.module_text.find("pub fn A").unwrap();
    let b = out.module_text.find("pub fn B").unwrap();
    let c = out.module_text.find("pub fn C").unwrap();
    assert!(a < b && b < c);
}

#[test]
fn aggregate_modules_sort_in_either_completion_order() {
    let one = vec!["zeta".to_string(), "alpha".to_string()];
    let other = vec!["alpha".to_string(), "zeta".to_string()];
    let r1 = render_module_registration(&sort_strings(&one));
    let r2 = render_module_registration(&sort_strings(&other));
    assert_eq!(r1, "pub mod alpha;\npub mod zeta;\n");
    assert_eq!(r1, r2);
}

#[test]
fn string_sort_places_prefix_first() {
    let v = vec!["ab".to_string(), "b".to_string(), "a".to_string()];
    let sorted = sort_strings(&v);
    assert_eq!(sorted, vec!["a".to_string(), "ab".to_string(), "b".to_string()]);
}

#[test]
fn feature_sort_orders_by_name() {
    let fs = vec![
        Feature { name: "B".to_string(), package_short_name: "bi".to_string() },
        Feature { name: "A".to_string(), package_short_name: "ai".to_string() },
    ];
    let sorted = sort_features(&fs);
    assert_eq!(sorted[0].name, "A");
    assert_eq!(sorted[1].name, "B");
}

#[test]
fn metadata_table_is_seeded_with_every_package_type() {
    let agg = Aggregator::new();
    let tys: Vec<PackageType> = agg.package_icon_metadata.iter().map(|e| e.0).collect();
    assert_eq!(tys, PackageType::all());
    assert!(agg.package_icon_metadata.iter().all(|e| e.1.is_empty()));
}

#[test]
fn failed_package_contributes_nothing() {
    let mut agg = Aggregator::new();
    let units = vec![good_unit("pushpin-twotone")];
    let ok = process_units(&Package::new(PackageType::Ai), &units);
    record_outcome(&mut agg, ok);
    record_outcome(&mut agg, Err(ProcessError::Acquisition));
    assert_eq!(agg.modules, vec!["ai".to_string()]);
    assert_eq!(agg.features.len(), 1);
    assert_eq!(agg.features[0].name, "AiPushpinTwotone");
    // Every type still has exactly one entry; only Ai's is populated.
    assert_eq!(agg.package_icon_metadata.len(), PackageType::all().len());
    for (ty, metas) in agg.package_icon_metadata.iter() {
        if *ty == PackageType::Ai {
            assert_eq!(metas.len(), 1);
        } else {
            assert!(metas.is_empty());
        }
    }
}

#[test]
fn extraction_failure_is_isolated_to_its_package() {
    let mut agg = Aggregator::new();
    let bad = vec![RawUnit {
        name: "broken".to_string(),
        categories: Vec::new(),
        svg: "<div></div>".to_string(),
    }];
    let r = process_units(&Package::new(PackageType::Bi), &bad);
    assert!(matches!(
        r,
        Err(ProcessError::Extraction(ExtractionError::MalformedSvg))
    ));
    record_outcome(&mut agg, r);
    let good = vec![good_unit("x")];
    record_outcome(&mut agg, process_units(&Package::new(PackageType::Ai), &good));
    assert_eq!(agg.modules, vec!["ai".to_string()]);
    assert_eq!(agg.features.len(), 1);
}

#[test]
fn two_level_feature_graph() {
    let mut manifest = CargoToml { content: String::new() };
    let modules = vec!["ai".to_string()];
    let features = vec![Feature {
        name: "AiPushpinTwotone".to_string(),
        package_short_name: "ai".to_string(),
    }];
    manifest.write_features_section(&modules, &features);
    assert_eq!(
        manifest.content,
        "[features]\nserde = [\"dep:serde\"]\n\nAi = []\nAiPushpinTwotone = [\"Ai\", \"leptos-icons-ai/AiPushpinTwotone\"]\n"
    );
}

#[test]
fn shuffled_completion_order_gives_identical_artifacts() {
    let mut agg1 = Aggregator::new();
    let mut agg2 = Aggregator::new();
    let units_ai = vec![good_unit("pin"), good_unit("arrow-up")];
    let units_bi = vec![good_unit("circle")];
    record_outcome(&mut agg1, process_units(&Package::new(PackageType::Ai), &units_ai));
    record_outcome(&mut agg1, process_units(&Package::new(PackageType::Bi), &units_bi));
    record_outcome(&mut agg2, process_units(&Package::new(PackageType::Bi), &units_bi));
    record_outcome(&mut agg2, process_units(&Package::new(PackageType::Ai), &units_ai));
    let a1 = finalize(&agg1);
    let a2 = finalize(&agg2);
    assert_eq!(a1.lib_registration, a2.lib_registration);
    assert_eq!(a1.features_section, a2.features_section);
    assert_eq!(a1.icon_table, a2.icon_table);
    assert_eq!(a1.lib_registration, "pub mod ai;\npub mod bi;\n");
}

#[test]
fn icon_table_lists_names_and_categories() {
    let entries = vec![(
        PackageType::Ai,
        vec![IconMeta {
            name: "X".to_string(),
            categories: vec!["a".to_string(), "b".to_string()],
        }],
    )];
    let table = render_icon_table(&entries);
    assert_eq!(table, "## ai\n\n| X | a, b |\n\n");
}

#[test]
fn reset_is_idempotent_on_content() {
    let mut manifest = CargoToml::init();
    manifest.write_package_section("leptos-icons");
    manifest.reset();
    let once = manifest.content.clone();
    manifest.reset();
    assert_eq!(manifest.content, once);
    assert_eq!(manifest.content, CargoToml::init().content);
}

#[test]
fn package_section_substitutes_library_name() {
    let mut manifest = CargoToml { content: String::new() };
    manifest.write_package_section("leptos-icons");
    assert_eq!(
        manifest.content,
        "[package]\nname = \"leptos-icons\"\nversion = \"0.0.1\"\nauthors = [\"Charles Edward Gagnon\"]\nedition = \"2021\"\ndescription = \"Icons library for the leptos web framework\"\nreadme = \"./README.md\"\nrepository = \"https://github.com/Carlosted/leptos-icons\"\nlicense = \"MIT\"\nkeywords = [\"leptos\", \"icons\"]\ncategories = [\"web-programming\"]\n\n"
    );
}

#[test]
fn dependencies_section_lists_each_library() {
    let mut manifest = CargoToml { content: String::new() };
    let libs = vec!["leptos-icons-ai".to_string()];
    manifest.write_dependencies_section(&libs);
    assert_eq!(
        manifest.content,
        "[dependencies]\nleptos = { version = \"0.2.5\", default-features = false }\nleptos-icons-core = { path = \"../leptos-icons-core\" }\nserde = { version = \"1\", features = [\"derive\"], optional = true }\n\nleptos-icons-ai = {  path = \"../leptos-icons-ai\", optional = true }\n\n"
    );
}

#[test]
fn assert_paths_checks_both_roots() {
    assert!(assert_paths("build", "leptos-icons"));
    assert!(!assert_paths("target", "leptos-icons"));
    assert!(!assert_paths("build", "icons"));
}
