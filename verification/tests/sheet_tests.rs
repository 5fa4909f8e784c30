use css_core::sheet::{
    get_specificity, Declaration, DynamicProperty, NodeTypeTag, Path, PathSelector, RuleBlock,
    Stylesheet,
};
use css_core::property::{Property, LayoutWidth, StyleTextColor};
use css_core::units::PixelValue;
use css_core::color::ColorU;
use css_core::value::Value;

use css_core::sheet::PathSelector::{Class, Global, Id, Type};
use css_core::sheet::NodeTypeTag::Div;

#[test]
fn test_specificity() {
    assert_eq!(
        get_specificity(&Path { selectors: vec![Id("hello".to_string())] }),
        (1, 0, 0, 1)
    );
    assert_eq!(
        get_specificity(&Path { selectors: vec![Class("hello".to_string())] }),
        (0, 1, 0, 1)
    );
    assert_eq!(
        get_specificity(&Path { selectors: vec![Type(Div)] }),
        (0, 0, 1, 1)
    );
    assert_eq!(
        get_specificity(&Path {
            selectors: vec![Id("hello".to_string()), Type(Div)]
        }),
        (1, 0, 1, 2)
    );
}

// Assert that the order of the style items is correct
// (in order of CSS path specificity, lowest-to-highest).
#[test]
fn test_specificity_sort() {
    let mut input_style = Stylesheet {
        rules: vec![
            // Rules are sorted from lowest-specificity to highest specificity
            RuleBlock { path: Path { selectors: vec![Global] }, declarations: Vec::new() },
            RuleBlock {
                path: Path {
                    selectors: vec![
                        Global,
                        Type(Div),
                        Class("my_class".to_string()),
                        Id("my_id".to_string()),
                    ],
                },
                declarations: Vec::new(),
            },
            RuleBlock {
                path: Path { selectors: vec![Global, Type(Div), Id("my_id".to_string())] },
                declarations: Vec::new(),
            },
            RuleBlock {
                path: Path { selectors: vec![Global, Id("my_id".to_string())] },
                declarations: Vec::new(),
            },
            RuleBlock {
                path: Path {
                    selectors: vec![
                        Type(Div),
                        Class("my_class".to_string()),
                        Class("specific".to_string()),
                        Id("my_id".to_string()),
                    ],
                },
                declarations: Vec::new(),
            },
        ],
    };
    input_style.sort_by_specificity();

    let expected_style = Stylesheet {
        rules: vec![
            // Rules are sorted from lowest-specificity to highest specificity
            RuleBlock { path: Path { selectors: vec![Global] }, declarations: Vec::new() },
            RuleBlock {
                path: Path { selectors: vec![Global, Id("my_id".to_string())] },
                declarations: Vec::new(),
            },
            RuleBlock {
                path: Path { selectors: vec![Global, Type(Div), Id("my_id".to_string())] },
                declarations: Vec::new(),
            },
            RuleBlock {
                path: Path {
                    selectors: vec![
                        Global,
                        Type(Div),
                        Class("my_class".to_string()),
                        Id("my_id".to_string()),
                    ],
                },
                declarations: Vec::new(),
            },
            RuleBlock {
                path: Path {
                    selectors: vec![
                        Type(Div),
                        Class("my_class".to_string()),
                        Class("specific".to_string()),
                        Id("my_id".to_string()),
                    ],
                },
                declarations: Vec::new(),
            },
        ],
    };

    assert_eq!(input_style, expected_style);
}

#[test]
fn specificity_sort_is_stable_for_equal_keys() {
    // Two rules with identical specificity but different declarations:
    // author order must be kept.
    let first = RuleBlock {
        path: Path { selectors: vec![Class("a".to_string())] },
        declarations: vec![Declaration::new_static(Property::Width(Value::Exact(LayoutWidth(
            PixelValue::const_px(1),
        ))))],
    };
    let second = RuleBlock {
        path: Path { selectors: vec![Class("b".to_string())] },
        declarations: vec![Declaration::new_static(Property::Width(Value::Exact(LayoutWidth(
            PixelValue::const_px(2),
        ))))],
    };
    let mut sheet = Stylesheet { rules: vec![first.clone(), second.clone()] };
    sheet.sort_by_specificity();
    assert_eq!(sheet.rules, vec![first, second]);
}

#[test]
fn empty_path_has_zero_specificity() {
    assert_eq!(get_specificity(&Path { selectors: Vec::new() }), (0, 0, 0, 0));
}

#[test]
fn node_type_tag_from_str() {
    assert_eq!(NodeTypeTag::from_str("body"), Some(NodeTypeTag::Body));
    assert_eq!(NodeTypeTag::from_str("div"), Some(NodeTypeTag::Div));
    assert_eq!(NodeTypeTag::from_str("p"), Some(NodeTypeTag::P));
    assert_eq!(NodeTypeTag::from_str("img"), Some(NodeTypeTag::Img));
    assert_eq!(NodeTypeTag::from_str("iframe"), None);
    assert_eq!(NodeTypeTag::from_str("span"), None);
}

#[test]
fn declaration_classification() {
    let color = Declaration::new_static(Property::TextColor(Value::Exact(StyleTextColor(
        ColorU::black(),
    ))));
    assert!(color.is_inheritable());
    assert!(!color.can_relayout());

    let width = Declaration::new_static(Property::Width(Value::Exact(LayoutWidth(
        PixelValue::const_px(10),
    ))));
    assert!(!width.is_inheritable());
    assert!(width.can_relayout());

    let dynamic = Declaration::new_dynamic(DynamicProperty {
        dynamic_id: "my_width".to_string(),
        default_value: Property::Width(Value::Exact(LayoutWidth(PixelValue::const_px(10)))),
    });
    // Dynamic declarations are never inheritable, but relayout follows the
    // default value.
    assert!(!dynamic.is_inheritable());
    assert!(dynamic.can_relayout());
    assert!(!dynamic.to_str().is_empty());
}

#[test]
fn node_type_tag_to_str_round_trip() {
    assert_eq!(NodeTypeTag::Div.to_str(), "div");
    assert_eq!(NodeTypeTag::IFrame.to_str(), "iframe");
    for t in [NodeTypeTag::Body, NodeTypeTag::Div, NodeTypeTag::P, NodeTypeTag::Img] {
        assert_eq!(NodeTypeTag::from_str(t.to_str()), Some(t));
    }
}

#[test]
fn stylesheet_empty_has_no_rules() {
    assert!(Stylesheet::empty().rules.is_empty());
}
