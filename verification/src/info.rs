//! The font metadata projector.
//!
//! The font-info record is a large, mostly flat set of independently optional
//! typographic fields. Every numeric field goes through the numeric
//! normalization policy; two categorical fields (the style-map style and the
//! Windows character-set code) are mapped through fixed enumeration tables
//! rather than passed through structurally. An absent field projects as "no
//! value", never as zero or an empty string: downstream consumers distinguish
//! "unset" from "set to zero".

use vstd::prelude::*;
use crate::num::{HostNum, Real, normalize_real, normalized_num};
use crate::value::SourceValue;
use crate::elements::{Guideline, opt_text_eq, clone_opt_text};

verus! {

/// The style-map style of a font: one of four fixed styles.
#[derive(Clone, Copy, PartialEq, Eq, Structural, Debug)]
pub enum StyleMapStyle {
    Regular,
    Italic,
    Bold,
    BoldItalic,
}

/// The fixed textual form of a style-map style.
pub open spec fn style_text(s: StyleMapStyle, out: String) -> bool {
    match s {
        StyleMapStyle::Regular => out@ == "regular"@,
        StyleMapStyle::Italic => out@ == "italic"@,
        StyleMapStyle::Bold => out@ == "bold"@,
        StyleMapStyle::BoldItalic => out@ == "bold italic"@,
    }
}

/// Name one style-map style.
pub fn style_name_of(s: StyleMapStyle) -> (out: String)
    ensures
        style_text(s, out),
{
    match s {
        StyleMapStyle::Regular => String::from_str("regular"),
        StyleMapStyle::Italic => String::from_str("italic"),
        StyleMapStyle::Bold => String::from_str("bold"),
        StyleMapStyle::BoldItalic => String::from_str("bold italic"),
    }
}

/// The Windows character set of a PostScript font: a fixed enumeration.
#[derive(Clone, Copy, PartialEq, Eq, Structural, Debug)]
pub enum CharacterSet {
    Ansi,
    Default,
    Symbol,
    Macintosh,
    ShiftJis,
    Hangul,
    HangulJohab,
    Gb2312,
    ChineseBig5,
    Greek,
    Turkish,
    Vietnamese,
    Hebrew,
    Arabic,
    Baltic,
    Bitstream,
    Cyrillic,
    Thai,
    EasternEuropean,
    Oem,
}

/// The fixed code of a Windows character set.
pub open spec fn charset_code(c: CharacterSet) -> u8 {
    match c {
        CharacterSet::Ansi => 1,
        CharacterSet::Default => 2,
        CharacterSet::Symbol => 3,
        CharacterSet::Macintosh => 4,
        CharacterSet::ShiftJis => 5,
        CharacterSet::Hangul => 6,
        CharacterSet::HangulJohab => 7,
        CharacterSet::Gb2312 => 8,
        CharacterSet::ChineseBig5 => 9,
        CharacterSet::Greek => 10,
        CharacterSet::Turkish => 11,
        CharacterSet::Vietnamese => 12,
        CharacterSet::Hebrew => 13,
        CharacterSet::Arabic => 14,
        CharacterSet::Baltic => 15,
        CharacterSet::Bitstream => 16,
        CharacterSet::Cyrillic => 17,
        CharacterSet::Thai => 18,
        CharacterSet::EasternEuropean => 19,
        CharacterSet::Oem => 20,
    }
}

/// Map one Windows character set to its fixed code.
pub fn charset_code_of(c: CharacterSet) -> (out: u8)
    ensures
        out == charset_code(c),
{
    match c {
        CharacterSet::Ansi => 1,
        CharacterSet::Default => 2,
        CharacterSet::Symbol => 3,
        CharacterSet::Macintosh => 4,
        CharacterSet::ShiftJis => 5,
        CharacterSet::Hangul => 6,
        CharacterSet::HangulJohab => 7,
        CharacterSet::Gb2312 => 8,
        CharacterSet::ChineseBig5 => 9,
        CharacterSet::Greek => 10,
        CharacterSet::Turkish => 11,
        CharacterSet::Vietnamese => 12,
        CharacterSet::Hebrew => 13,
        CharacterSet::Arabic => 14,
        CharacterSet::Baltic => 15,
        CharacterSet::Bitstream => 16,
        CharacterSet::Cyrillic => 17,
        CharacterSet::Thai => 18,
        CharacterSet::EasternEuropean => 19,
        CharacterSet::Oem => 20,
    }
}

/// An optional numeric field goes through the numeric policy.
pub open spec fn opt_num_projects(src: Option<Real>, out: Option<HostNum>) -> bool {
    match src {
        Option::Some(r) => out == Option::Some(normalized_num(r.bits)),
        Option::None => out is None,
    }
}

/// Normalize an optional numeric field.
pub fn project_opt_num(src: &Option<Real>) -> (out: Option<HostNum>)
    ensures
        opt_num_projects(*src, out),
{
    match src {
        Option::Some(r) => Option::Some(normalize_real(*r)),
        Option::None => Option::None,
    }
}

/// An optional list of numeric values goes through the numeric policy
/// element by element, in order.
pub open spec fn opt_num_list_projects(src: Option<Vec<Real>>, out: Option<Vec<HostNum>>) -> bool {
    match src {
        Option::Some(v) => match out {
            Option::Some(o) => o.len() == v.len() && forall|i: int|
                0 <= i < v.len() ==> o[i] == normalized_num((#[trigger] v[i]).bits),
            Option::None => false,
        },
        Option::None => out is None,
    }
}

/// Normalize an optional list of numeric values.
#[verifier::loop_isolation(false)]
pub fn project_opt_num_list(src: &Option<Vec<Real>>) -> (out: Option<Vec<HostNum>>)
    ensures
        opt_num_list_projects(*src, out),
{
    match src {
        Option::Some(v) => {
            let mut o: Vec<HostNum> = Vec::new();
            let mut i: usize = 0;
            while i < v.len()
                invariant
                    i <= v.len(),
                    o.len() == i,
                    forall|j: int| 0 <= j < i ==> o[j] == normalized_num((#[trigger] v[j]).bits),
                decreases v.len() - i,
            {
                let h = normalize_real(v[i]);
                o.push(h);
                i = i + 1;
            }
            Option::Some(o)
        },
        Option::None => Option::None,
    }
}

/// An optional byte list is kept verbatim.
pub open spec fn opt_bytes_eq(out: Option<Vec<u8>>, src: Option<Vec<u8>>) -> bool {
    match src {
        Option::Some(v) => match out {
            Option::Some(o) => o@ == v@,
            Option::None => false,
        },
        Option::None => out is None,
    }
}

/// Copy an optional byte list.
#[verifier::loop_isolation(false)]
pub fn clone_opt_bytes(src: &Option<Vec<u8>>) -> (out: Option<Vec<u8>>)
    ensures
        opt_bytes_eq(out, *src),
{
    match src {
        Option::Some(v) => {
            let mut o: Vec<u8> = Vec::new();
            let mut i: usize = 0;
            while i < v.len()
                invariant
                    i <= v.len(),
                    o@ == v@.subrange(0, i as int),
                decreases v.len() - i,
            {
                o.push(v[i]);
                i = i + 1;
            }
            proof {
                assert(o@ =~= v@);
            }
            Option::Some(o)
        },
        Option::None => Option::None,
    }
}

/// An optional character set maps through the fixed code table.
pub open spec fn opt_charset_projects(src: Option<CharacterSet>, out: Option<u8>) -> bool {
    match src {
        Option::Some(c) => out == Option::Some(charset_code(c)),
        Option::None => out is None,
    }
}

/// Map an optional character set.
pub fn project_opt_charset(src: &Option<CharacterSet>) -> (out: Option<u8>)
    ensures
        opt_charset_projects(*src, out),
{
    match src {
        Option::Some(c) => Option::Some(charset_code_of(*c)),
        Option::None => Option::None,
    }
}

/// An optional style-map style maps through the fixed name table.
pub open spec fn opt_style_projects(src: Option<StyleMapStyle>, out: Option<String>) -> bool {
    match src {
        Option::Some(s) => out matches Option::Some(t) && style_text(s, t),
        Option::None => out is None,
    }
}

/// Map an optional style-map style.
pub fn project_opt_style(src: &Option<StyleMapStyle>) -> (out: Option<String>)
    ensures
        opt_style_projects(*src, out),
{
    match src {
        Option::Some(s) => Option::Some(style_name_of(*s)),
        Option::None => Option::None,
    }
}

/// The source font-info record: every field independently optional.
pub struct FontInfo {
    pub ascender: Option<Real>,
    pub cap_height: Option<Real>,
    pub copyright: Option<String>,
    pub descender: Option<Real>,
    pub family_name: Option<String>,
    pub italic_angle: Option<Real>,
    pub macintosh_fond_family_id: Option<i32>,
    pub macintosh_fond_name: Option<String>,
    pub note: Option<String>,
    pub open_type_head_created: Option<String>,
    pub open_type_head_flags: Option<Vec<u8>>,
    pub open_type_head_lowest_rec_ppem: Option<u32>,
    pub open_type_hhea_ascender: Option<i32>,
    pub open_type_hhea_caret_offset: Option<i32>,
    pub open_type_hhea_caret_slope_rise: Option<i32>,
    pub open_type_hhea_caret_slope_run: Option<i32>,
    pub open_type_hhea_descender: Option<i32>,
    pub open_type_hhea_line_gap: Option<i32>,
    pub open_type_name_compatible_full_name: Option<String>,
    pub open_type_name_description: Option<String>,
    pub open_type_name_designer: Option<String>,
    pub open_type_name_designer_url: Option<String>,
    pub open_type_name_license: Option<String>,
    pub open_type_name_license_url: Option<String>,
    pub open_type_name_manufacturer: Option<String>,
    pub open_type_name_manufacturer_url: Option<String>,
    pub open_type_name_preferred_family_name: Option<String>,
    pub open_type_name_preferred_subfamily_name: Option<String>,
    pub open_type_name_sample_text: Option<String>,
    pub open_type_name_unique_id: Option<String>,
    pub open_type_name_version: Option<String>,
    pub open_type_name_wws_family_name: Option<String>,
    pub open_type_name_wws_subfamily_name: Option<String>,
    pub open_type_os2_code_page_ranges: Option<Vec<u8>>,
    pub open_type_os2_selection: Option<Vec<u8>>,
    pub open_type_os2_strikeout_position: Option<i32>,
    pub open_type_os2_strikeout_size: Option<i32>,
    pub open_type_os2_subscript_x_offset: Option<i32>,
    pub open_type_os2_subscript_x_size: Option<i32>,
    pub open_type_os2_subscript_y_offset: Option<i32>,
    pub open_type_os2_subscript_y_size: Option<i32>,
    pub open_type_os2_superscript_x_offset: Option<i32>,
    pub open_type_os2_superscript_x_size: Option<i32>,
    pub open_type_os2_superscript_y_offset: Option<i32>,
    pub open_type_os2_superscript_y_size: Option<i32>,
    pub open_type_os2_type: Option<Vec<u8>>,
    pub open_type_os2_typo_ascender: Option<i32>,
    pub open_type_os2_typo_descender: Option<i32>,
    pub open_type_os2_typo_line_gap: Option<i32>,
    pub open_type_os2_unicode_ranges: Option<Vec<u8>>,
    pub open_type_os2_vendor_id: Option<String>,
    pub open_type_os2_weight_class: Option<u32>,
    pub open_type_os2_win_ascent: Option<u32>,
    pub open_type_os2_win_descent: Option<u32>,
    pub open_type_vhea_caret_offset: Option<i32>,
    pub open_type_vhea_caret_slope_rise: Option<i32>,
    pub open_type_vhea_caret_slope_run: Option<i32>,
    pub open_type_vhea_vert_typo_ascender: Option<i32>,
    pub open_type_vhea_vert_typo_descender: Option<i32>,
    pub open_type_vhea_vert_typo_line_gap: Option<i32>,
    pub postscript_blue_fuzz: Option<Real>,
    pub postscript_blue_scale: Option<Real>,
    pub postscript_blue_shift: Option<Real>,
    pub postscript_blue_values: Option<Vec<Real>>,
    pub postscript_default_character: Option<String>,
    pub postscript_default_width_x: Option<Real>,
    pub postscript_family_blues: Option<Vec<Real>>,
    pub postscript_family_other_blues: Option<Vec<Real>>,
    pub postscript_font_name: Option<String>,
    pub postscript_force_bold: Option<bool>,
    pub postscript_full_name: Option<String>,
    pub postscript_is_fixed_pitch: Option<bool>,
    pub postscript_nominal_width_x: Option<Real>,
    pub postscript_other_blues: Option<Vec<Real>>,
    pub postscript_slant_angle: Option<Real>,
    pub postscript_stem_snap_h: Option<Vec<Real>>,
    pub postscript_stem_snap_v: Option<Vec<Real>>,
    pub postscript_underline_position: Option<Real>,
    pub postscript_underline_thickness: Option<Real>,
    pub postscript_unique_id: Option<i32>,
    pub postscript_weight_name: Option<String>,
    pub postscript_windows_character_set: Option<CharacterSet>,
    pub style_map_family_name: Option<String>,
    pub style_map_style_name: Option<StyleMapStyle>,
    pub style_name: Option<String>,
    pub trademark: Option<String>,
    pub units_per_em: Option<Real>,
    pub version_major: Option<i32>,
    pub version_minor: Option<u32>,
    pub x_height: Option<Real>,
    pub year: Option<i32>,
    /// Font-level guidelines. They are not part of the host info record;
    /// their metadata bags surface through `dump_fontinfo_object_libs`.
    pub guidelines: Option<Vec<Guideline>>,
}


/// An empty font-info record: every field unset.
impl Default for FontInfo {
    /// Build the record with every field absent.
    fn default() -> (r: Self)
        ensures
        r.ascender is None,
        r.cap_height is None,
        r.copyright is None,
        r.descender is None,
        r.family_name is None,
        r.italic_angle is None,
        r.macintosh_fond_family_id is None,
        r.macintosh_fond_name is None,
        r.note is None,
        r.open_type_head_created is None,
        r.open_type_head_flags is None,
        r.open_type_head_lowest_rec_ppem is None,
        r.open_type_hhea_ascender is None,
        r.open_type_hhea_caret_offset is None,
        r.open_type_hhea_caret_slope_rise is None,
        r.open_type_hhea_caret_slope_run is None,
        r.open_type_hhea_descender is None,
        r.open_type_hhea_line_gap is None,
        r.open_type_name_compatible_full_name is None,
        r.open_type_name_description is None,
        r.open_type_name_designer is None,
        r.open_type_name_designer_url is None,
        r.open_type_name_license is None,
        r.open_type_name_license_url is None,
        r.open_type_name_manufacturer is None,
        r.open_type_name_manufacturer_url is None,
        r.open_type_name_preferred_family_name is None,
        r.open_type_name_preferred_subfamily_name is None,
        r.open_type_name_sample_text is None,
        r.open_type_name_unique_id is None,
        r.open_type_name_version is None,
        r.open_type_name_wws_family_name is None,
        r.open_type_name_wws_subfamily_name is None,
        r.open_type_os2_code_page_ranges is None,
        r.open_type_os2_selection is None,
        r.open_type_os2_strikeout_position is None,
        r.open_type_os2_strikeout_size is None,
        r.open_type_os2_subscript_x_offset is None,
        r.open_type_os2_subscript_x_size is None,
        r.open_type_os2_subscript_y_offset is None,
        r.open_type_os2_subscript_y_size is None,
        r.open_type_os2_superscript_x_offset is None,
        r.open_type_os2_superscript_x_size is None,
        r.open_type_os2_superscript_y_offset is None,
        r.open_type_os2_superscript_y_size is None,
        r.open_type_os2_type is None,
        r.open_type_os2_typo_ascender is None,
        r.open_type_os2_typo_descender is None,
        r.open_type_os2_typo_line_gap is None,
        r.open_type_os2_unicode_ranges is None,
        r.open_type_os2_vendor_id is None,
        r.open_type_os2_weight_class is None,
        r.open_type_os2_win_ascent is None,
        r.open_type_os2_win_descent is None,
        r.open_type_vhea_caret_offset is None,
        r.open_type_vhea_caret_slope_rise is None,
        r.open_type_vhea_caret_slope_run is None,
        r.open_type_vhea_vert_typo_ascender is None,
        r.open_type_vhea_vert_typo_descender is None,
        r.open_type_vhea_vert_typo_line_gap is None,
        r.postscript_blue_fuzz is None,
        r.postscript_blue_scale is None,
        r.postscript_blue_shift is None,
        r.postscript_blue_values is None,
        r.postscript_default_character is None,
        r.postscript_default_width_x is None,
        r.postscript_family_blues is None,
        r.postscript_family_other_blues is None,
        r.postscript_font_name is None,
        r.postscript_force_bold is None,
        r.postscript_full_name is None,
        r.postscript_is_fixed_pitch is None,
        r.postscript_nominal_width_x is None,
        r.postscript_other_blues is None,
        r.postscript_slant_angle is None,
        r.postscript_stem_snap_h is None,
        r.postscript_stem_snap_v is None,
        r.postscript_underline_position is None,
        r.postscript_underline_thickness is None,
        r.postscript_unique_id is None,
        r.postscript_weight_name is None,
        r.postscript_windows_character_set is None,
        r.style_map_family_name is None,
        r.style_map_style_name is None,
        r.style_name is None,
        r.trademark is None,
        r.units_per_em is None,
        r.version_major is None,
        r.version_minor is None,
        r.x_height is None,
        r.year is None,
        r.guidelines is None,
    {
        FontInfo {
            ascender: Option::None,
            cap_height: Option::None,
            copyright: Option::None,
            descender: Option::None,
            family_name: Option::None,
            italic_angle: Option::None,
            macintosh_fond_family_id: Option::None,
            macintosh_fond_name: Option::None,
            note: Option::None,
            open_type_head_created: Option::None,
            open_type_head_flags: Option::None,
            open_type_head_lowest_rec_ppem: Option::None,
            open_type_hhea_ascender: Option::None,
            open_type_hhea_caret_offset: Option::None,
            open_type_hhea_caret_slope_rise: Option::None,
            open_type_hhea_caret_slope_run: Option::None,
            open_type_hhea_descender: Option::None,
            open_type_hhea_line_gap: Option::None,
            open_type_name_compatible_full_name: Option::None,
            open_type_name_description: Option::None,
            open_type_name_designer: Option::None,
            open_type_name_designer_url: Option::None,
            open_type_name_license: Option::None,
            open_type_name_license_url: Option::None,
            open_type_name_manufacturer: Option::None,
            open_type_name_manufacturer_url: Option::None,
            open_type_name_preferred_family_name: Option::None,
            open_type_name_preferred_subfamily_name: Option::None,
            open_type_name_sample_text: Option::None,
            open_type_name_unique_id: Option::None,
            open_type_name_version: Option::None,
            open_type_name_wws_family_name: Option::None,
            open_type_name_wws_subfamily_name: Option::None,
            open_type_os2_code_page_ranges: Option::None,
            open_type_os2_selection: Option::None,
            open_type_os2_strikeout_position: Option::None,
            open_type_os2_strikeout_size: Option::None,
            open_type_os2_subscript_x_offset: Option::None,
            open_type_os2_subscript_x_size: Option::None,
            open_type_os2_subscript_y_offset: Option::None,
            open_type_os2_subscript_y_size: Option::None,
            open_type_os2_superscript_x_offset: Option::None,
            open_type_os2_superscript_x_size: Option::None,
            open_type_os2_superscript_y_offset: Option::None,
            open_type_os2_superscript_y_size: Option::None,
            open_type_os2_type: Option::None,
            open_type_os2_typo_ascender: Option::None,
            open_type_os2_typo_descender: Option::None,
            open_type_os2_typo_line_gap: Option::None,
            open_type_os2_unicode_ranges: Option::None,
            open_type_os2_vendor_id: Option::None,
            open_type_os2_weight_class: Option::None,
            open_type_os2_win_ascent: Option::None,
            open_type_os2_win_descent: Option::None,
            open_type_vhea_caret_offset: Option::None,
            open_type_vhea_caret_slope_rise: Option::None,
            open_type_vhea_caret_slope_run: Option::None,
            open_type_vhea_vert_typo_ascender: Option::None,
            open_type_vhea_vert_typo_descender: Option::None,
            open_type_vhea_vert_typo_line_gap: Option::None,
            postscript_blue_fuzz: Option::None,
            postscript_blue_scale: Option::None,
            postscript_blue_shift: Option::None,
            postscript_blue_values: Option::None,
            postscript_default_character: Option::None,
            postscript_default_width_x: Option::None,
            postscript_family_blues: Option::None,
            postscript_family_other_blues: Option::None,
            postscript_font_name: Option::None,
            postscript_force_bold: Option::None,
            postscript_full_name: Option::None,
            postscript_is_fixed_pitch: Option::None,
            postscript_nominal_width_x: Option::None,
            postscript_other_blues: Option::None,
            postscript_slant_angle: Option::None,
            postscript_stem_snap_h: Option::None,
            postscript_stem_snap_v: Option::None,
            postscript_underline_position: Option::None,
            postscript_underline_thickness: Option::None,
            postscript_unique_id: Option::None,
            postscript_weight_name: Option::None,
            postscript_windows_character_set: Option::None,
            style_map_family_name: Option::None,
            style_map_style_name: Option::None,
            style_name: Option::None,
            trademark: Option::None,
            units_per_em: Option::None,
            version_major: Option::None,
            version_minor: Option::None,
            x_height: Option::None,
            year: Option::None,
            guidelines: Option::None,
        }
    }
}

/// The host record for the font info.
pub struct HostInfo {
    pub ascender: Option<HostNum>,
    pub cap_height: Option<HostNum>,
    pub copyright: Option<String>,
    pub descender: Option<HostNum>,
    pub family_name: Option<String>,
    pub italic_angle: Option<HostNum>,
    pub macintosh_fond_family_id: Option<i32>,
    pub macintosh_fond_name: Option<String>,
    pub note: Option<String>,
    pub open_type_head_created: Option<String>,
    pub open_type_head_flags: Option<Vec<u8>>,
    pub open_type_head_lowest_rec_ppem: Option<u32>,
    pub open_type_hhea_ascender: Option<i32>,
    pub open_type_hhea_caret_offset: Option<i32>,
    pub open_type_hhea_caret_slope_rise: Option<i32>,
    pub open_type_hhea_caret_slope_run: Option<i32>,
    pub open_type_hhea_descender: Option<i32>,
    pub open_type_hhea_line_gap: Option<i32>,
    pub open_type_name_compatible_full_name: Option<String>,
    pub open_type_name_description: Option<String>,
    pub open_type_name_designer: Option<String>,
    pub open_type_name_designer_url: Option<String>,
    pub open_type_name_license: Option<String>,
    pub open_type_name_license_url: Option<String>,
    pub open_type_name_manufacturer: Option<String>,
    pub open_type_name_manufacturer_url: Option<String>,
    pub open_type_name_preferred_family_name: Option<String>,
    pub open_type_name_preferred_subfamily_name: Option<String>,
    pub open_type_name_sample_text: Option<String>,
    pub open_type_name_unique_id: Option<String>,
    pub open_type_name_version: Option<String>,
    pub open_type_name_wws_family_name: Option<String>,
    pub open_type_name_wws_subfamily_name: Option<String>,
    pub open_type_os2_code_page_ranges: Option<Vec<u8>>,
    pub open_type_os2_selection: Option<Vec<u8>>,
    pub open_type_os2_strikeout_position: Option<i32>,
    pub open_type_os2_strikeout_size: Option<i32>,
    pub open_type_os2_subscript_x_offset: Option<i32>,
    pub open_type_os2_subscript_x_size: Option<i32>,
    pub open_type_os2_subscript_y_offset: Option<i32>,
    pub open_type_os2_subscript_y_size: Option<i32>,
    pub open_type_os2_superscript_x_offset: Option<i32>,
    pub open_type_os2_superscript_x_size: Option<i32>,
    pub open_type_os2_superscript_y_offset: Option<i32>,
    pub open_type_os2_superscript_y_size: Option<i32>,
    pub open_type_os2_type: Option<Vec<u8>>,
    pub open_type_os2_typo_ascender: Option<i32>,
    pub open_type_os2_typo_descender: Option<i32>,
    pub open_type_os2_typo_line_gap: Option<i32>,
    pub open_type_os2_unicode_ranges: Option<Vec<u8>>,
    pub open_type_os2_vendor_id: Option<String>,
    pub open_type_os2_weight_class: Option<u32>,
    pub open_type_os2_win_ascent: Option<u32>,
    pub open_type_os2_win_descent: Option<u32>,
    pub open_type_vhea_caret_offset: Option<i32>,
    pub open_type_vhea_caret_slope_rise: Option<i32>,
    pub open_type_vhea_caret_slope_run: Option<i32>,
    pub open_type_vhea_vert_typo_ascender: Option<i32>,
    pub open_type_vhea_vert_typo_descender: Option<i32>,
    pub open_type_vhea_vert_typo_line_gap: Option<i32>,
    pub postscript_blue_fuzz: Option<HostNum>,
    pub postscript_blue_scale: Option<HostNum>,
    pub postscript_blue_shift: Option<HostNum>,
    pub postscript_blue_values: Option<Vec<HostNum>>,
    pub postscript_default_character: Option<String>,
    pub postscript_default_width_x: Option<HostNum>,
    pub postscript_family_blues: Option<Vec<HostNum>>,
    pub postscript_family_other_blues: Option<Vec<HostNum>>,
    pub postscript_font_name: Option<String>,
    pub postscript_force_bold: Option<bool>,
    pub postscript_full_name: Option<String>,
    pub postscript_is_fixed_pitch: Option<bool>,
    pub postscript_nominal_width_x: Option<HostNum>,
    pub postscript_other_blues: Option<Vec<HostNum>>,
    pub postscript_slant_angle: Option<HostNum>,
    pub postscript_stem_snap_h: Option<Vec<HostNum>>,
    pub postscript_stem_snap_v: Option<Vec<HostNum>>,
    pub postscript_underline_position: Option<HostNum>,
    pub postscript_underline_thickness: Option<HostNum>,
    pub postscript_unique_id: Option<i32>,
    pub postscript_weight_name: Option<String>,
    pub postscript_windows_character_set: Option<u8>,
    pub style_map_family_name: Option<String>,
    pub style_map_style_name: Option<String>,
    pub style_name: Option<String>,
    pub trademark: Option<String>,
    pub units_per_em: Option<HostNum>,
    pub version_major: Option<i32>,
    pub version_minor: Option<u32>,
    pub x_height: Option<HostNum>,
    pub year: Option<i32>,
}

/// How the font info projects, field by field.
pub open spec fn info_projects(src: FontInfo, out: HostInfo) -> bool {
    &&& opt_num_projects(src.ascender, out.ascender)
    &&& opt_num_projects(src.cap_height, out.cap_height)
    &&& opt_text_eq(out.copyright, src.copyright)
    &&& opt_num_projects(src.descender, out.descender)
    &&& opt_text_eq(out.family_name, src.family_name)
    &&& opt_num_projects(src.italic_angle, out.italic_angle)
    &&& out.macintosh_fond_family_id == src.macintosh_fond_family_id
    &&& opt_text_eq(out.macintosh_fond_name, src.macintosh_fond_name)
    &&& opt_text_eq(out.note, src.note)
    &&& opt_text_eq(out.open_type_head_created, src.open_type_head_created)
    &&& opt_bytes_eq(out.open_type_head_flags, src.open_type_head_flags)
    &&& out.open_type_head_lowest_rec_ppem == src.open_type_head_lowest_rec_ppem
    &&& out.open_type_hhea_ascender == src.open_type_hhea_ascender
    &&& out.open_type_hhea_caret_offset == src.open_type_hhea_caret_offset
    &&& out.open_type_hhea_caret_slope_rise == src.open_type_hhea_caret_slope_rise
    &&& out.open_type_hhea_caret_slope_run == src.open_type_hhea_caret_slope_run
    &&& out.open_type_hhea_descender == src.open_type_hhea_descender
    &&& out.open_type_hhea_line_gap == src.open_type_hhea_line_gap
    &&& opt_text_eq(out.open_type_name_compatible_full_name, src.open_type_name_compatible_full_name)
    &&& opt_text_eq(out.open_type_name_description, src.open_type_name_description)
    &&& opt_text_eq(out.open_type_name_designer, src.open_type_name_designer)
    &&& opt_text_eq(out.open_type_name_designer_url, src.open_type_name_designer_url)
    &&& opt_text_eq(out.open_type_name_license, src.open_type_name_license)
    &&& opt_text_eq(out.open_type_name_license_url, src.open_type_name_license_url)
    &&& opt_text_eq(out.open_type_name_manufacturer, src.open_type_name_manufacturer)
    &&& opt_text_eq(out.open_type_name_manufacturer_url, src.open_type_name_manufacturer_url)
    &&& opt_text_eq(out.open_type_name_preferred_family_name, src.open_type_name_preferred_family_name)
    &&& opt_text_eq(out.open_type_name_preferred_subfamily_name, src.open_type_name_preferred_subfamily_name)
    &&& opt_text_eq(out.open_type_name_sample_text, src.open_type_name_sample_text)
    &&& opt_text_eq(out.open_type_name_unique_id, src.open_type_name_unique_id)
    &&& opt_text_eq(out.open_type_name_version, src.open_type_name_version)
    &&& opt_text_eq(out.open_type_name_wws_family_name, src.open_type_name_wws_family_name)
    &&& opt_text_eq(out.open_type_name_wws_subfamily_name, src.open_type_name_wws_subfamily_name)
    &&& opt_bytes_eq(out.open_type_os2_code_page_ranges, src.open_type_os2_code_page_ranges)
    &&& opt_bytes_eq(out.open_type_os2_selection, src.open_type_os2_selection)
    &&& out.open_type_os2_strikeout_position == src.open_type_os2_strikeout_position
    &&& out.open_type_os2_strikeout_size == src.open_type_os2_strikeout_size
    &&& out.open_type_os2_subscript_x_offset == src.open_type_os2_subscript_x_offset
    &&& out.open_type_os2_subscript_x_size == src.open_type_os2_subscript_x_size
    &&& out.open_type_os2_subscript_y_offset == src.open_type_os2_subscript_y_offset
    &&& out.open_type_os2_subscript_y_size == src.open_type_os2_subscript_y_size
    &&& out.open_type_os2_superscript_x_offset == src.open_type_os2_superscript_x_offset
    &&& out.open_type_os2_superscript_x_size == src.open_type_os2_superscript_x_size
    &&& out.open_type_os2_superscript_y_offset == src.open_type_os2_superscript_y_offset
    &&& out.open_type_os2_superscript_y_size == src.open_type_os2_superscript_y_size
    &&& opt_bytes_eq(out.open_type_os2_type, src.open_type_os2_type)
    &&& out.open_type_os2_typo_ascender == src.open_type_os2_typo_ascender
    &&& out.open_type_os2_typo_descender == src.open_type_os2_typo_descender
    &&& out.open_type_os2_typo_line_gap == src.open_type_os2_typo_line_gap
    &&& opt_bytes_eq(out.open_type_os2_unicode_ranges, src.open_type_os2_unicode_ranges)
    &&& opt_text_eq(out.open_type_os2_vendor_id, src.open_type_os2_vendor_id)
    &&& out.open_type_os2_weight_class == src.open_type_os2_weight_class
    &&& out.open_type_os2_win_ascent == src.open_type_os2_win_ascent
    &&& out.open_type_os2_win_descent == src.open_type_os2_win_descent
    &&& out.open_type_vhea_caret_offset == src.open_type_vhea_caret_offset
    &&& out.open_type_vhea_caret_slope_rise == src.open_type_vhea_caret_slope_rise
    &&& out.open_type_vhea_caret_slope_run == src.open_type_vhea_caret_slope_run
    &&& out.open_type_vhea_vert_typo_ascender == src.open_type_vhea_vert_typo_ascender
    &&& out.open_type_vhea_vert_typo_descender == src.open_type_vhea_vert_typo_descender
    &&& out.open_type_vhea_vert_typo_line_gap == src.open_type_vhea_vert_typo_line_gap
    &&& opt_num_projects(src.postscript_blue_fuzz, out.postscript_blue_fuzz)
    &&& opt_num_projects(src.postscript_blue_scale, out.postscript_blue_scale)
    &&& opt_num_projects(src.postscript_blue_shift, out.postscript_blue_shift)
    &&& opt_num_list_projects(src.postscript_blue_values, out.postscript_blue_values)
    &&& opt_text_eq(out.postscript_default_character, src.postscript_default_character)
    &&& opt_num_projects(src.postscript_default_width_x, out.postscript_default_width_x)
    &&& opt_num_list_projects(src.postscript_family_blues, out.postscript_family_blues)
    &&& opt_num_list_projects(src.postscript_family_other_blues, out.postscript_family_other_blues)
    &&& opt_text_eq(out.postscript_font_name, src.postscript_font_name)
    &&& out.postscript_force_bold == src.postscript_force_bold
    &&& opt_text_eq(out.postscript_full_name, src.postscript_full_name)
    &&& out.postscript_is_fixed_pitch == src.postscript_is_fixed_pitch
    &&& opt_num_projects(src.postscript_nominal_width_x, out.postscript_nominal_width_x)
    &&& opt_num_list_projects(src.postscript_other_blues, out.postscript_other_blues)
    &&& opt_num_projects(src.postscript_slant_angle, out.postscript_slant_angle)
    &&& opt_num_list_projects(src.postscript_stem_snap_h, out.postscript_stem_snap_h)
    &&& opt_num_list_projects(src.postscript_stem_snap_v, out.postscript_stem_snap_v)
    &&& opt_num_projects(src.postscript_underline_position, out.postscript_underline_position)
    &&& opt_num_projects(src.postscript_underline_thickness, out.postscript_underline_thickness)
    &&& out.postscript_unique_id == src.postscript_unique_id
    &&& opt_text_eq(out.postscript_weight_name, src.postscript_weight_name)
    &&& opt_charset_projects(src.postscript_windows_character_set, out.postscript_windows_character_set)
    &&& opt_text_eq(out.style_map_family_name, src.style_map_family_name)
    &&& opt_style_projects(src.style_map_style_name, out.style_map_style_name)
    &&& opt_text_eq(out.style_name, src.style_name)
    &&& opt_text_eq(out.trademark, src.trademark)
    &&& opt_num_projects(src.units_per_em, out.units_per_em)
    &&& out.version_major == src.version_major
    &&& out.version_minor == src.version_minor
    &&& opt_num_projects(src.x_height, out.x_height)
    &&& out.year == src.year
}

/// Project the font-info record.
pub fn project_info(info: &FontInfo) -> (out: HostInfo)
    ensures
        info_projects(*info, out),
{
    HostInfo {
        ascender: project_opt_num(&info.ascender),
        cap_height: project_opt_num(&info.cap_height),
        copyright: clone_opt_text(&info.copyright),
        descender: project_opt_num(&info.descender),
        family_name: clone_opt_text(&info.family_name),
        italic_angle: project_opt_num(&info.italic_angle),
        macintosh_fond_family_id: info.macintosh_fond_family_id,
        macintosh_fond_name: clone_opt_text(&info.macintosh_fond_name),
        note: clone_opt_text(&info.note),
        open_type_head_created: clone_opt_text(&info.open_type_head_created),
        open_type_head_flags: clone_opt_bytes(&info.open_type_head_flags),
        open_type_head_lowest_rec_ppem: info.open_type_head_lowest_rec_ppem,
        open_type_hhea_ascender: info.open_type_hhea_ascender,
        open_type_hhea_caret_offset: info.open_type_hhea_caret_offset,
        open_type_hhea_caret_slope_rise: info.open_type_hhea_caret_slope_rise,
        open_type_hhea_caret_slope_run: info.open_type_hhea_caret_slope_run,
        open_type_hhea_descender: info.open_type_hhea_descender,
        open_type_hhea_line_gap: info.open_type_hhea_line_gap,
        open_type_name_compatible_full_name: clone_opt_text(&info.open_type_name_compatible_full_name),
        open_type_name_description: clone_opt_text(&info.open_type_name_description),
        open_type_name_designer: clone_opt_text(&info.open_type_name_designer),
        open_type_name_designer_url: clone_opt_text(&info.open_type_name_designer_url),
        open_type_name_license: clone_opt_text(&info.open_type_name_license),
        open_type_name_license_url: clone_opt_text(&info.open_type_name_license_url),
        open_type_name_manufacturer: clone_opt_text(&info.open_type_name_manufacturer),
        open_type_name_manufacturer_url: clone_opt_text(&info.open_type_name_manufacturer_url),
        open_type_name_preferred_family_name: clone_opt_text(&info.open_type_name_preferred_family_name),
        open_type_name_preferred_subfamily_name: clone_opt_text(&info.open_type_name_preferred_subfamily_name),
        open_type_name_sample_text: clone_opt_text(&info.open_type_name_sample_text),
        open_type_name_unique_id: clone_opt_text(&info.open_type_name_unique_id),
        open_type_name_version: clone_opt_text(&info.open_type_name_version),
        open_type_name_wws_family_name: clone_opt_text(&info.open_type_name_wws_family_name),
        open_type_name_wws_subfamily_name: clone_opt_text(&info.open_type_name_wws_subfamily_name),
        open_type_os2_code_page_ranges: clone_opt_bytes(&info.open_type_os2_code_page_ranges),
        open_type_os2_selection: clone_opt_bytes(&info.open_type_os2_selection),
        open_type_os2_strikeout_position: info.open_type_os2_strikeout_position,
        open_type_os2_strikeout_size: info.open_type_os2_strikeout_size,
        open_type_os2_subscript_x_offset: info.open_type_os2_subscript_x_offset,
        open_type_os2_subscript_x_size: info.open_type_os2_subscript_x_size,
        open_type_os2_subscript_y_offset: info.open_type_os2_subscript_y_offset,
        open_type_os2_subscript_y_size: info.open_type_os2_subscript_y_size,
        open_type_os2_superscript_x_offset: info.open_type_os2_superscript_x_offset,
        open_type_os2_superscript_x_size: info.open_type_os2_superscript_x_size,
        open_type_os2_superscript_y_offset: info.open_type_os2_superscript_y_offset,
        open_type_os2_superscript_y_size: info.open_type_os2_superscript_y_size,
        open_type_os2_type: clone_opt_bytes(&info.open_type_os2_type),
        open_type_os2_typo_ascender: info.open_type_os2_typo_ascender,
        open_type_os2_typo_descender: info.open_type_os2_typo_descender,
        open_type_os2_typo_line_gap: info.open_type_os2_typo_line_gap,
        open_type_os2_unicode_ranges: clone_opt_bytes(&info.open_type_os2_unicode_ranges),
        open_type_os2_vendor_id: clone_opt_text(&info.open_type_os2_vendor_id),
        open_type_os2_weight_class: info.open_type_os2_weight_class,
        open_type_os2_win_ascent: info.open_type_os2_win_ascent,
        open_type_os2_win_descent: info.open_type_os2_win_descent,
        open_type_vhea_caret_offset: info.open_type_vhea_caret_offset,
        open_type_vhea_caret_slope_rise: info.open_type_vhea_caret_slope_rise,
        open_type_vhea_caret_slope_run: info.open_type_vhea_caret_slope_run,
        open_type_vhea_vert_typo_ascender: info.open_type_vhea_vert_typo_ascender,
        open_type_vhea_vert_typo_descender: info.open_type_vhea_vert_typo_descender,
        open_type_vhea_vert_typo_line_gap: info.open_type_vhea_vert_typo_line_gap,
        postscript_blue_fuzz: project_opt_num(&info.postscript_blue_fuzz),
        postscript_blue_scale: project_opt_num(&info.postscript_blue_scale),
        postscript_blue_shift: project_opt_num(&info.postscript_blue_shift),
        postscript_blue_values: project_opt_num_list(&info.postscript_blue_values),
        postscript_default_character: clone_opt_text(&info.postscript_default_character),
        postscript_default_width_x: project_opt_num(&info.postscript_default_width_x),
        postscript_family_blues: project_opt_num_list(&info.postscript_family_blues),
        postscript_family_other_blues: project_opt_num_list(&info.postscript_family_other_blues),
        postscript_font_name: clone_opt_text(&info.postscript_font_name),
        postscript_force_bold: info.postscript_force_bold,
        postscript_full_name: clone_opt_text(&info.postscript_full_name),
        postscript_is_fixed_pitch: info.postscript_is_fixed_pitch,
        postscript_nominal_width_x: project_opt_num(&info.postscript_nominal_width_x),
        postscript_other_blues: project_opt_num_list(&info.postscript_other_blues),
        postscript_slant_angle: project_opt_num(&info.postscript_slant_angle),
        postscript_stem_snap_h: project_opt_num_list(&info.postscript_stem_snap_h),
        postscript_stem_snap_v: project_opt_num_list(&info.postscript_stem_snap_v),
        postscript_underline_position: project_opt_num(&info.postscript_underline_position),
        postscript_underline_thickness: project_opt_num(&info.postscript_underline_thickness),
        postscript_unique_id: info.postscript_unique_id,
        postscript_weight_name: clone_opt_text(&info.postscript_weight_name),
        postscript_windows_character_set: project_opt_charset(&info.postscript_windows_character_set),
        style_map_family_name: clone_opt_text(&info.style_map_family_name),
        style_map_style_name: project_opt_style(&info.style_map_style_name),
        style_name: clone_opt_text(&info.style_name),
        trademark: clone_opt_text(&info.trademark),
        units_per_em: project_opt_num(&info.units_per_em),
        version_major: info.version_major,
        version_minor: info.version_minor,
        x_height: project_opt_num(&info.x_height),
        year: info.year,
    }
}

} // verus!
