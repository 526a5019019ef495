//! Projection of values, elements, glyphs, layers, info and kerning on
//! concrete inputs.

use iondrive::elements::{
    project_anchor, project_component, project_guideline, project_point, Anchor,
    Component, Contour, ContourPoint, GuideLine, Guideline, PointKind, Transform,
};
use iondrive::font::{project_font, Font};
use iondrive::glyph::{project_glyph, project_layer_set, Glyph, Layer, LayerSet};
use iondrive::info::{project_info, CharacterSet, FontInfo, StyleMapStyle};
use iondrive::kerning::build_kerning;
use iondrive::num::{HostNum, Real};
use iondrive::object_libs::dump_glyph_object_libs;
use iondrive::value::{normalize_value, translate_bag, HostValue, SourceValue};
use iondrive::elements::point_kind_name;
use iondrive::info::{charset_code_of, style_name_of};
use iondrive::object_libs::dump_fontinfo_object_libs;

fn rbits(v: f64) -> Real {
    Real { bits: v.to_bits() }
}

#[test]
fn scalars_normalize_kind_by_kind() {
    assert!(matches!(
        normalize_value(&SourceValue::Bool(true)),
        HostValue::Bool(true)
    ));
    assert!(matches!(
        normalize_value(&SourceValue::Int(-7)),
        HostValue::Int(-7)
    ));
    assert!(matches!(
        normalize_value(&SourceValue::Uid(u64::MAX)),
        HostValue::Uint(u64::MAX)
    ));
    match normalize_value(&SourceValue::Text("hello".to_string())) {
        HostValue::Text(t) => assert_eq!(t, "hello"),
        other => panic!("wrong kind: {other:?}"),
    }
    match normalize_value(&SourceValue::Blob(vec![1, 2, 3])) {
        HostValue::Blob(d) => assert_eq!(d, vec![1, 2, 3]),
        other => panic!("wrong kind: {other:?}"),
    }
    // the numeric policy applies inside bags too
    assert!(matches!(
        normalize_value(&SourceValue::Real(rbits(4.0))),
        HostValue::Int(4)
    ));
    assert!(matches!(
        normalize_value(&SourceValue::Real(rbits(4.25))),
        HostValue::Float(Real { bits: b }) if b == 4.25f64.to_bits()
    ));
    // the unsupported kind degrades to the explicit "no value" marker
    assert!(matches!(
        normalize_value(&SourceValue::Unsupported),
        HostValue::Null
    ));
}

#[test]
fn empty_bag_translates_to_empty_map() {
    let out = translate_bag(&vec![]);
    assert_eq!(out.len(), 0);
}

#[test]
fn nested_bag_keeps_keys_and_shape() {
    let bag = vec![
        (
            "outer".to_string(),
            SourceValue::Dict(vec![
                ("inner".to_string(), SourceValue::List(vec![
                    SourceValue::Int(1),
                    SourceValue::Text("x".to_string()),
                ])),
            ]),
        ),
        ("flag".to_string(), SourceValue::Bool(false)),
    ];
    let out = translate_bag(&bag);
    assert_eq!(out.len(), 2);
    assert_eq!(out[0].0, "outer");
    assert_eq!(out[1].0, "flag");
    match &out[0].1 {
        HostValue::Dict(entries) => {
            assert_eq!(entries.len(), 1);
            assert_eq!(entries[0].0, "inner");
            match &entries[0].1 {
                HostValue::List(items) => {
                    assert_eq!(items.len(), 2);
                    assert!(matches!(items[0], HostValue::Int(1)));
                    assert!(matches!(&items[1], HostValue::Text(t) if t == "x"));
                }
                other => panic!("wrong kind: {other:?}"),
            }
        }
        other => panic!("wrong kind: {other:?}"),
    }
    assert!(matches!(out[1].1, HostValue::Bool(false)));
}

#[test]
fn absent_identifier_projects_as_no_value() {
    let a = Anchor {
        x: rbits(1.0),
        y: rbits(2.0),
        name: None,
        color: None,
        identifier: None,
        lib: None,
    };
    let out = project_anchor(&a);
    assert_eq!(out.identifier, None);
    assert_eq!(out.name, None);
    assert_eq!(out.color, None);
}

#[test]
fn present_identifier_is_kept_verbatim() {
    let a = Anchor {
        x: rbits(1.0),
        y: rbits(2.0),
        name: Some("top".to_string()),
        color: Some("1,0,0,1".to_string()),
        identifier: Some("a1".to_string()),
        lib: None,
    };
    let out = project_anchor(&a);
    assert_eq!(out.identifier.as_deref(), Some("a1"));
    assert_eq!(out.name.as_deref(), Some("top"));
    assert_eq!(out.color.as_deref(), Some("1,0,0,1"));
    assert_eq!(out.x, rbits(1.0));
    assert_eq!(out.y, rbits(2.0));
}

#[test]
fn guideline_shapes_populate_the_right_fields() {
    let vertical = Guideline {
        line: GuideLine::Vertical(rbits(10.0)),
        name: None,
        color: None,
        identifier: None,
        lib: None,
    };
    let out = project_guideline(&vertical);
    assert_eq!(out.x, Some(rbits(10.0)));
    assert_eq!(out.y, None);
    assert_eq!(out.angle, None);

    let horizontal = Guideline {
        line: GuideLine::Horizontal(rbits(-3.5)),
        name: None,
        color: None,
        identifier: None,
        lib: None,
    };
    let out = project_guideline(&horizontal);
    assert_eq!(out.x, None);
    assert_eq!(out.y, Some(rbits(-3.5)));
    assert_eq!(out.angle, None);

    let angled = Guideline {
        line: GuideLine::Angled {
            x: rbits(1.0),
            y: rbits(2.0),
            degrees: rbits(45.0),
        },
        name: None,
        color: None,
        identifier: None,
        lib: None,
    };
    let out = project_guideline(&angled);
    assert_eq!(out.x, Some(rbits(1.0)));
    assert_eq!(out.y, Some(rbits(2.0)));
    assert_eq!(out.angle, Some(rbits(45.0)));
}

#[test]
fn point_coordinates_go_through_the_policy() {
    let p = ContourPoint {
        x: rbits(100.0),
        y: rbits(0.5),
        kind: PointKind::Curve,
        smooth: true,
        name: None,
        identifier: None,
        lib: None,
    };
    let out = project_point(&p);
    assert_eq!(out.x, HostNum::Int(100));
    assert_eq!(out.y, HostNum::Float(rbits(0.5)));
    assert_eq!(out.kind.as_deref(), Some("curve"));
    assert!(out.smooth);
}

#[test]
fn point_kind_names_are_fixed() {
    assert_eq!(point_kind_name(PointKind::Move).as_deref(), Some("move"));
    assert_eq!(point_kind_name(PointKind::Line).as_deref(), Some("line"));
    assert_eq!(point_kind_name(PointKind::OffCurve), None);
    assert_eq!(point_kind_name(PointKind::Curve).as_deref(), Some("curve"));
    assert_eq!(
        point_kind_name(PointKind::QCurve).as_deref(),
        Some("qcurve")
    );
}

#[test]
fn component_transform_keeps_its_fixed_order() {
    let c = Component {
        base: "acute".to_string(),
        transform: Transform {
            x_scale: rbits(1.0),
            xy_scale: rbits(0.1),
            yx_scale: rbits(0.2),
            y_scale: rbits(1.0),
            x_offset: rbits(30.0),
            y_offset: rbits(-4.0),
        },
        identifier: None,
        lib: None,
    };
    let out = project_component(&c);
    assert_eq!(out.base, "acute");
    assert_eq!(
        out.transform,
        vec![
            rbits(1.0),
            rbits(0.1),
            rbits(0.2),
            rbits(1.0),
            rbits(30.0),
            rbits(-4.0)
        ]
    );
    assert_eq!(out.identifier, None);
}

fn bare_glyph(name: &str) -> Glyph {
    Glyph {
        name: name.to_string(),
        width: rbits(600.0),
        codepoints: vec![],
        lib: vec![],
        note: None,
        anchors: vec![],
        contours: vec![],
        components: vec![],
        guidelines: vec![],
    }
}

#[test]
fn glyph_fields_project() {
    let mut g = bare_glyph("A");
    g.codepoints = vec!['A', 'Á'];
    g.note = Some("a note".to_string());
    g.contours = vec![Contour {
        points: vec![ContourPoint {
            x: rbits(0.0),
            y: rbits(0.0),
            kind: PointKind::Move,
            smooth: false,
            name: None,
            identifier: None,
            lib: None,
        }],
        identifier: None,
        lib: None,
    }];
    let out = project_glyph(&g);
    assert_eq!(out.name, "A");
    assert_eq!(out.width, rbits(600.0));
    assert_eq!(out.unicodes, vec![0x41u32, 0xC1u32]);
    assert_eq!(out.note.as_deref(), Some("a note"));
    assert_eq!(out.contours.len(), 1);
    assert_eq!(out.contours[0].points.len(), 1);
    assert_eq!(out.anchors.len(), 0);
    assert_eq!(out.components.len(), 0);
    assert_eq!(out.guidelines.len(), 0);
    assert_eq!(out.lib.len(), 0);
}

fn layer_of(name: &str, glyph_names: &[&str]) -> Layer {
    Layer {
        name: name.to_string(),
        glyphs: glyph_names.iter().map(|n| bare_glyph(n)).collect(),
        lib: vec![],
        color: None,
    }
}

#[test]
fn layer_order_and_glyph_order_are_preserved() {
    let ls = LayerSet {
        layers: vec![
            layer_of("public.default", &["A", "B", "C"]),
            layer_of("background", &["C", "A"]),
        ],
        default_index: 0,
    };
    let out = project_layer_set(&ls);
    assert_eq!(out.layers.len(), 2);
    assert_eq!(out.layers[0].name, "public.default");
    assert_eq!(out.layers[1].name, "background");
    let first: Vec<&str> = out.layers[0].glyphs.iter().map(|g| g.name.as_str()).collect();
    assert_eq!(first, vec!["A", "B", "C"]);
    let second: Vec<&str> = out.layers[1].glyphs.iter().map(|g| g.name.as_str()).collect();
    assert_eq!(second, vec!["C", "A"]);
}

#[test]
fn default_layer_name_is_forwarded() {
    let ls = LayerSet {
        layers: vec![layer_of("foreground", &[]), layer_of("background", &[])],
        default_index: 1,
    };
    let out = project_layer_set(&ls);
    assert_eq!(out.default_name, "background");
}

#[test]
fn info_fields_project_through_the_policy() {
    let info = FontInfo {
        ascender: Some(rbits(800.0)),
        italic_angle: Some(rbits(-12.5)),
        family_name: Some("Test Family".to_string()),
        units_per_em: Some(rbits(1000.0)),
        postscript_blue_values: Some(vec![rbits(-10.0), rbits(0.5)]),
        postscript_windows_character_set: Some(CharacterSet::Ansi),
        style_map_style_name: Some(StyleMapStyle::BoldItalic),
        open_type_os2_type: Some(vec![2, 3]),
        version_major: Some(2),
        ..Default::default()
    };
    let out = project_info(&info);
    assert_eq!(out.ascender, Some(HostNum::Int(800)));
    assert_eq!(out.italic_angle, Some(HostNum::Float(rbits(-12.5))));
    assert_eq!(out.family_name.as_deref(), Some("Test Family"));
    assert_eq!(out.units_per_em, Some(HostNum::Int(1000)));
    assert_eq!(
        out.postscript_blue_values,
        Some(vec![HostNum::Int(-10), HostNum::Float(rbits(0.5))])
    );
    assert_eq!(out.postscript_windows_character_set, Some(1));
    assert_eq!(out.style_map_style_name.as_deref(), Some("bold italic"));
    assert_eq!(out.open_type_os2_type, Some(vec![2, 3]));
    assert_eq!(out.version_major, Some(2));
    // absent fields stay absent, never zero or empty
    assert_eq!(out.descender, None);
    assert_eq!(out.copyright, None);
    assert_eq!(out.year, None);
}

#[test]
fn style_map_names_are_fixed() {
    assert_eq!(style_name_of(StyleMapStyle::Regular), "regular");
    assert_eq!(style_name_of(StyleMapStyle::Italic), "italic");
    assert_eq!(style_name_of(StyleMapStyle::Bold), "bold");
    assert_eq!(style_name_of(StyleMapStyle::BoldItalic), "bold italic");
}

#[test]
fn charset_codes_are_fixed() {
    assert_eq!(charset_code_of(CharacterSet::Ansi), 1);
    assert_eq!(charset_code_of(CharacterSet::Oem), 20);
    assert_eq!(charset_code_of(CharacterSet::Cyrillic), 17);
}

#[test]
fn kerning_flattens_with_normalized_values() {
    let table = vec![(
        "A".to_string(),
        vec![
            ("B".to_string(), rbits(-20.0)),
            ("C".to_string(), rbits(10.0)),
        ],
    )];
    let out = build_kerning(&table);
    assert_eq!(out.len(), 2);
    assert_eq!(out[0].0, ("A".to_string(), "B".to_string()));
    assert_eq!(out[0].1, HostNum::Int(-20));
    assert_eq!(out[1].0, ("A".to_string(), "C".to_string()));
    assert_eq!(out[1].1, HostNum::Int(10));
}

#[test]
fn kerning_keeps_fractional_values_as_reals() {
    let table = vec![(
        "T".to_string(),
        vec![("o".to_string(), rbits(-35.5))],
    )];
    let out = build_kerning(&table);
    assert_eq!(out.len(), 1);
    assert_eq!(out[0].1, HostNum::Float(rbits(-35.5)));
}

#[test]
fn glyph_object_libs_are_gathered_in_order() {
    let mut g = bare_glyph("A");
    g.anchors = vec![Anchor {
        x: rbits(0.0),
        y: rbits(0.0),
        name: None,
        color: None,
        identifier: Some("anchor1".to_string()),
        lib: Some(vec![("k".to_string(), SourceValue::Int(1))]),
    }];
    g.contours = vec![Contour {
        points: vec![ContourPoint {
            x: rbits(0.0),
            y: rbits(0.0),
            kind: PointKind::Move,
            smooth: false,
            name: None,
            identifier: Some("pt1".to_string()),
            lib: Some(vec![("p".to_string(), SourceValue::Bool(true))]),
        }],
        identifier: Some("c1".to_string()),
        lib: Some(vec![("c".to_string(), SourceValue::Int(2))]),
    }];
    let out = dump_glyph_object_libs(&g);
    assert_eq!(out.len(), 3);
    assert_eq!(out[0].0, "anchor1");
    assert_eq!(out[1].0, "c1");
    assert_eq!(out[2].0, "pt1");
    match &out[0].1 {
        SourceValue::Dict(d) => {
            assert_eq!(d.len(), 1);
            assert_eq!(d[0].0, "k");
            assert!(matches!(d[0].1, SourceValue::Int(1)));
        }
        other => panic!("wrong kind: {other:?}"),
    }
}

#[test]
fn fontinfo_object_libs_come_from_guidelines() {
    let info = FontInfo {
        guidelines: Some(vec![Guideline {
            line: GuideLine::Vertical(rbits(5.0)),
            name: None,
            color: None,
            identifier: Some("g1".to_string()),
            lib: Some(vec![("x".to_string(), SourceValue::Int(9))]),
        }]),
        ..Default::default()
    };
    let out = dump_fontinfo_object_libs(&info);
    assert_eq!(out.len(), 1);
    assert_eq!(out[0].0, "g1");
}

#[test]
fn whole_font_projects() {
    let font = Font {
        lib: vec![("com.example.tool".to_string(), SourceValue::Bool(true))],
        layers: LayerSet {
            layers: vec![layer_of("public.default", &["A"])],
            default_index: 0,
        },
        info: Some(FontInfo {
            ascender: Some(rbits(750.0)),
            ..Default::default()
        }),
        features: None,
        groups: Some(vec![(
            "public.kern1.A".to_string(),
            vec!["A".to_string(), "Aacute".to_string()],
        )]),
        kerning: None,
        data: vec![(b"data/com.foo/bar.bin".to_vec(), vec![1, 2, 3])],
        images: vec![],
    };
    let out = project_font(&font).expect("projection should succeed");
    assert_eq!(out.lib.len(), 1);
    assert_eq!(out.layers.default_name, "public.default");
    assert_eq!(
        out.info.as_ref().unwrap().ascender,
        Some(HostNum::Int(750))
    );
    // absent features project as the empty string, absent kerning as an
    // empty table
    assert_eq!(out.features, "");
    assert_eq!(out.kerning.len(), 0);
    assert_eq!(out.groups.len(), 1);
    assert_eq!(out.groups[0].0, "public.kern1.A");
    assert_eq!(out.groups[0].1, vec!["A", "Aacute"]);
    assert_eq!(out.data.len(), 1);
    assert_eq!(out.data[0].0, b"com.foo/bar.bin".to_vec());
    assert_eq!(out.data[0].1, vec![1, 2, 3]);
}
