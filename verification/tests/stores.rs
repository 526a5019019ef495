//! Sidecar store extraction: path normalization, PNG validation, and the
//! failure cases.

use iondrive::font::{project_font, Font};
use iondrive::glyph::{Layer, LayerSet};
use iondrive::store::{extract_store, has_png_signature, normalize_store_path, ProjectError};

const PNG_SIG: [u8; 8] = [0x89, b'P', b'N', b'G', 0x0D, 0x0A, 0x1A, 0x0A];

#[test]
fn store_path_strips_root_and_joins_with_slashes() {
    let key = normalize_store_path(&b"data/com.foo/bar.bin".to_vec(), &b"data".to_vec())
        .expect("well-shaped path");
    assert_eq!(key, b"com.foo/bar.bin".to_vec());
}

#[test]
fn platform_separators_are_rewritten() {
    let key = normalize_store_path(&b"data\\com.foo\\bar.bin".to_vec(), &b"data".to_vec())
        .expect("well-shaped path");
    assert_eq!(key, b"com.foo/bar.bin".to_vec());
    let mixed = normalize_store_path(&b"images\\sub/a.png".to_vec(), &b"images".to_vec())
        .expect("well-shaped path");
    assert_eq!(mixed, b"sub/a.png".to_vec());
}

#[test]
fn single_segment_key_keeps_its_name() {
    let key = normalize_store_path(&b"data/blob".to_vec(), &b"data".to_vec())
        .expect("well-shaped path");
    assert_eq!(key, b"blob".to_vec());
}

#[test]
fn parent_components_are_rejected() {
    let out = normalize_store_path(&b"data/../secret".to_vec(), &b"data".to_vec());
    assert!(matches!(out, Err(ProjectError::PathShape(p)) if p == b"data/../secret".to_vec()));
}

#[test]
fn dot_components_and_empty_segments_are_rejected() {
    assert!(matches!(
        normalize_store_path(&b"data/./x".to_vec(), &b"data".to_vec()),
        Err(ProjectError::PathShape(_))
    ));
    assert!(matches!(
        normalize_store_path(&b"data//x".to_vec(), &b"data".to_vec()),
        Err(ProjectError::PathShape(_))
    ));
    assert!(matches!(
        normalize_store_path(&b"data/x/".to_vec(), &b"data".to_vec()),
        Err(ProjectError::PathShape(_))
    ));
}

#[test]
fn absolute_and_rootless_paths_are_rejected() {
    assert!(matches!(
        normalize_store_path(&b"/data/x".to_vec(), &b"data".to_vec()),
        Err(ProjectError::PathShape(_))
    ));
    assert!(matches!(
        normalize_store_path(&b"other/x".to_vec(), &b"data".to_vec()),
        Err(ProjectError::PathShape(_))
    ));
    assert!(matches!(
        normalize_store_path(&b"data".to_vec(), &b"data".to_vec()),
        Err(ProjectError::PathShape(_))
    ));
}

#[test]
fn png_signature_is_required_byte_for_byte() {
    let mut good = PNG_SIG.to_vec();
    good.extend_from_slice(b"payload");
    assert!(has_png_signature(&good));
    assert!(has_png_signature(&PNG_SIG.to_vec()));
    assert!(!has_png_signature(&b"JFIF-not-a-png".to_vec()));
    assert!(!has_png_signature(&PNG_SIG[..7].to_vec()));
    let mut close = PNG_SIG.to_vec();
    close[7] = 0x0B;
    assert!(!has_png_signature(&close));
}

#[test]
fn image_store_accepts_png_content() {
    let mut content = PNG_SIG.to_vec();
    content.push(42);
    let entries = vec![(b"images/a.png".to_vec(), content.clone())];
    let out = extract_store(&entries, &b"images".to_vec(), true).expect("valid image store");
    assert_eq!(out.len(), 1);
    assert_eq!(out[0].0, b"a.png".to_vec());
    assert_eq!(out[0].1, content);
}

#[test]
fn image_store_rejects_non_png_content() {
    let entries = vec![(b"images/a.png".to_vec(), b"GIF89a".to_vec())];
    let out = extract_store(&entries, &b"images".to_vec(), true);
    assert!(matches!(out, Err(ProjectError::Format(p)) if p == b"images/a.png".to_vec()));
}

#[test]
fn data_store_takes_any_content() {
    let entries = vec![(b"data/raw.bin".to_vec(), b"GIF89a".to_vec())];
    let out = extract_store(&entries, &b"data".to_vec(), false).expect("data store");
    assert_eq!(out[0].0, b"raw.bin".to_vec());
    assert_eq!(out[0].1, b"GIF89a".to_vec());
}

#[test]
fn extraction_fails_on_the_first_bad_entry() {
    let entries = vec![
        (b"data/ok.bin".to_vec(), vec![]),
        (b"data/../bad".to_vec(), vec![]),
        (b"also/bad".to_vec(), vec![]),
    ];
    let out = extract_store(&entries, &b"data".to_vec(), false);
    assert!(matches!(out, Err(ProjectError::PathShape(p)) if p == b"data/../bad".to_vec()));
}

fn empty_font() -> Font {
    Font {
        lib: vec![],
        layers: LayerSet {
            layers: vec![Layer {
                name: "public.default".to_string(),
                glyphs: vec![],
                lib: vec![],
                color: None,
            }],
            default_index: 0,
        },
        info: None,
        features: None,
        groups: None,
        kerning: None,
        data: vec![],
        images: vec![],
    }
}

#[test]
fn font_projection_aborts_on_a_corrupt_store() {
    let mut font = empty_font();
    font.data = vec![(b"data/../escape".to_vec(), vec![])];
    let out = project_font(&font);
    assert!(matches!(out, Err(ProjectError::PathShape(_))));

    let mut font = empty_font();
    font.images = vec![(b"images/x.png".to_vec(), b"not a png".to_vec())];
    let out = project_font(&font);
    assert!(matches!(out, Err(ProjectError::Format(_))));
}

#[test]
fn font_projection_succeeds_on_clean_stores() {
    let mut font = empty_font();
    let mut png = PNG_SIG.to_vec();
    png.extend_from_slice(&[0, 0, 0, 0]);
    font.data = vec![(b"data/a/b/c.txt".to_vec(), b"abc".to_vec())];
    font.images = vec![(b"images/g.png".to_vec(), png)];
    let out = project_font(&font).expect("clean stores");
    assert_eq!(out.data[0].0, b"a/b/c.txt".to_vec());
    assert_eq!(out.images[0].0, b"g.png".to_vec());
}
