use cch24::manifest::evaluate_manifest;
use cch24::manifest::media_kind;
use cch24::manifest::str_eq;
use cch24::manifest::Manifest;
use cch24::manifest::ManifestOutcome;
use cch24::manifest::MediaKind;
use cch24::manifest::Metadata;
use cch24::manifest::Order;
use cch24::manifest::Package;
use cch24::text::u32_to_string;

fn package(keywords: Vec<&str>, metadata: Option<Metadata>) -> Package {
    Package {
        name: String::from("not-a-gift-order"),
        authors: vec![String::from("Not Santa")],
        keywords: keywords.into_iter().map(String::from).collect(),
        metadata,
    }
}

fn order(item: &str, quantity: Option<u32>) -> Order {
    Order {
        item: String::from(item),
        quantity,
    }
}

#[test]
fn summary_of_orders_with_quantities() {
    let metadata = Metadata {
        orders: vec![order("Toy car", Some(2)), order("Lego brick", Some(230))],
    };
    let manifest = Manifest {
        package: package(vec!["Christmas 2024"], Some(metadata)),
    };
    assert_eq!(
        evaluate_manifest(&manifest),
        ManifestOutcome::OrderSummary(String::from("Toy car: 2\nLego brick: 230"))
    );
}

#[test]
fn orders_without_quantity_are_skipped() {
    let metadata = Metadata {
        orders: vec![
            order("Toy car", Some(2)),
            order("Lego brick", None),
            order("Doll", Some(2)),
            order("Thing", None),
        ],
    };
    let manifest = Manifest {
        package: package(vec!["Christmas 2024"], Some(metadata)),
    };
    assert_eq!(
        evaluate_manifest(&manifest),
        ManifestOutcome::OrderSummary(String::from("Toy car: 2\nDoll: 2"))
    );
}

#[test]
fn missing_magic_keyword_is_rejected() {
    let metadata = Metadata {
        orders: vec![order("Toy car", Some(2))],
    };
    let manifest = Manifest {
        package: package(vec!["Christmas 2023"], Some(metadata)),
    };
    assert_eq!(evaluate_manifest(&manifest), ManifestOutcome::MissingKeyword);
}

#[test]
fn no_keywords_at_all_is_rejected() {
    let manifest = Manifest {
        package: package(vec![], None),
    };
    assert_eq!(evaluate_manifest(&manifest), ManifestOutcome::MissingKeyword);
}

#[test]
fn missing_metadata_reports_no_content() {
    let manifest = Manifest {
        package: package(vec!["Christmas 2024"], None),
    };
    assert_eq!(evaluate_manifest(&manifest), ManifestOutcome::NoContent);
}

#[test]
fn only_quantityless_orders_report_no_content() {
    let metadata = Metadata {
        orders: vec![order("Lego brick", None), order("Thing", None)],
    };
    let manifest = Manifest {
        package: package(vec!["Christmas 2024"], Some(metadata)),
    };
    assert_eq!(evaluate_manifest(&manifest), ManifestOutcome::NoContent);
}

#[test]
fn order_line_renders_item_and_quantity() {
    assert_eq!(order("Lego brick", Some(230)).order_line(), "Lego brick: 230");
    assert_eq!(order("Cookie:::\n", Some(5)).order_line(), "Cookie:::\n: 5");
    assert_eq!(order("Lego brick", None).order_line(), "");
}

#[test]
fn decimal_rendering_is_exact() {
    assert_eq!(u32_to_string(0), "0");
    assert_eq!(u32_to_string(7), "7");
    assert_eq!(u32_to_string(230), "230");
    assert_eq!(u32_to_string(4294967295), "4294967295");
}

#[test]
fn media_kinds_are_recognized() {
    assert_eq!(media_kind("application/toml"), MediaKind::Toml);
    assert_eq!(media_kind("application/json"), MediaKind::Json);
    assert_eq!(media_kind("application/yaml"), MediaKind::Yaml);
    assert_eq!(media_kind("text/html"), MediaKind::Unsupported);
    assert_eq!(media_kind(""), MediaKind::Unsupported);
}

#[test]
fn str_eq_compares_contents() {
    assert!(str_eq("Christmas 2024", "Christmas 2024"));
    assert!(!str_eq("Christmas 2024", "Christmas 2023"));
    assert!(!str_eq("short", "longer text"));
    assert!(str_eq("", ""));
}
