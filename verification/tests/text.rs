use std::hash::{DefaultHasher, Hash, Hasher};

use plinth::text::{
    glyph_key,
    encode_str_utf16, encode_str_utf16_nul, AnalysisKind, ClipMode, FontStyle, FontWeight, GlyphCache, ImageId, Meta, Pt, Text,
    TextDirection, TextStyle, TextView, TextWrapMode,
};

fn style(name: &str, size: i16) -> TextStyle {
    TextStyle {
        font_weight: FontWeight::Normal,
        font_style: FontStyle::Normal,
        font_name: String::from(name),
        font_size: Pt(size),
        text_wrap: TextWrapMode::Word,
        clip_mode: ClipMode::NoClip,
    }
}

#[test]
fn text_is_stored_as_utf16() {
    let t = Text::from_str("aé€😀", "en-US", TextDirection::LeftToRight);
    let expected: Vec<u16> = "aé€😀".encode_utf16().collect();
    assert_eq!(t.codepoints, expected);
    assert_eq!(t.codepoints, vec![0x61, 0xE9, 0x20AC, 0xD83D, 0xDE00]);
    assert_eq!(t.length(), 5);
    assert_eq!(t.direction(), TextDirection::LeftToRight);
}

#[test]
fn text_views_split_at_an_index() {
    let t = Text::from_str("hello", "fr-FR", TextDirection::RightToLeft);
    assert_eq!(t.chars_after(3), Some(&[0x6C, 0x6F][..]));
    assert_eq!(t.chars_before(3), Some(&[0x68, 0x65, 0x6C][..]));
    assert_eq!(t.chars_after(5), None);
    assert_eq!(t.chars_before(5), None);
    let (locale, rest) = t.locale(4);
    assert_eq!(locale, "fr-FR");
    assert_eq!(rest, &[0x6F]);
    assert_eq!(t.locale(5).1.len(), 0);
}

#[test]
fn analysis_kinds_round_trip_through_bits() {
    for kind in [
        AnalysisKind::FontBackup,
        AnalysisKind::IsRightToLeft,
        AnalysisKind::ScriptAnalysis,
        AnalysisKind::NumberSubstitution,
    ] {
        assert_eq!(AnalysisKind::from_bits(kind.into_bits()), kind);
    }
    assert_eq!(AnalysisKind::NumberSubstitution.into_bits(), 3);
}

#[test]
fn meta_fields_are_independent() {
    let m = Meta::new().with_kind(AnalysisKind::ScriptAnalysis).with_text(12345);
    assert_eq!(m.kind(), AnalysisKind::ScriptAnalysis);
    assert_eq!(m.text(), 12345);
    assert_eq!(m.0, (12345 << 2) | 2);
    let n = m.with_kind(AnalysisKind::IsRightToLeft);
    assert_eq!(n.text(), 12345);
    assert_eq!(n.kind(), AnalysisKind::IsRightToLeft);
    let top = Meta::new().with_text(0x3FFF_FFFF).with_kind(AnalysisKind::NumberSubstitution);
    assert_eq!(top.0, u32::MAX);
}

#[test]
fn glyph_cache_finds_what_was_added() {
    let mut cache = GlyphCache::new();
    let s = style("Segoe UI", 96);
    assert_eq!(cache.get_glyph(&s, 96, 42), None);
    cache.add_glyph(&s, 96, 42, ImageId(7));
    assert_eq!(cache.get_glyph(&s, 96, 42), Some(ImageId(7)));
    assert_eq!(cache.get_glyph(&s, 144, 42), None);
    assert_eq!(cache.get_glyph(&s, 96, 43), None);
    assert_eq!(cache.get_glyph(&style("Arial", 96), 96, 42), None);
    assert_eq!(cache.get_glyph(&style("Segoe UI", 96), 96, 42), Some(ImageId(7)));
    cache.add_glyph(&s, 96, 42, ImageId(8));
    assert_eq!(cache.get_glyph(&s, 96, 42), Some(ImageId(8)));
    let mut other = GlyphCache::with_capacity(16);
    assert_eq!(other.get_glyph(&s, 96, 42), None);
}

#[test]
fn glyph_keys_hash_what_the_derived_hash_writes() {
    for (name, size, weight, dpi, glyph) in [
        ("Segoe UI", 96i16, FontWeight::Normal, 96u16, 42u16),
        ("Arial", -8, FontWeight::Black, 144, 0),
        ("", 0, FontWeight::Thin, 0, u16::MAX),
    ] {
        let mut s = style(name, size);
        s.font_weight = weight;
        s.clip_mode = ClipMode::Clip;
        let mut hasher = DefaultHasher::new();
        s.hash(&mut hasher);
        glyph.hash(&mut hasher);
        dpi.hash(&mut hasher);
        assert_eq!(glyph_key(&s, dpi, glyph), hasher.finish());
    }
}

#[test]
fn the_latest_add_for_a_glyph_is_found() {
    let mut cache = GlyphCache::new();
    let a = style("Segoe UI", 12);
    let b = style("Consolas", 12);
    cache.add_glyph(&a, 96, 7, ImageId(1));
    cache.add_glyph(&b, 96, 7, ImageId(2));
    cache.add_glyph(&a, 96, 7, ImageId(3));
    assert_eq!(cache.get_glyph(&a, 96, 7), Some(ImageId(3)));
    assert_eq!(cache.get_glyph(&a, 96, 7), Some(ImageId(3)));
    assert_eq!(cache.get_glyph(&b, 96, 7), Some(ImageId(2)));
    assert_eq!(cache.get_glyph(&a, 144, 7), None);
}

#[test]
fn titles_are_encoded_as_utf16_with_a_terminating_zero() {
    assert_eq!(encode_str_utf16("H\u{e9}\u{1f600}"), vec![0x48, 0xE9, 0xD83D, 0xDE00]);
    assert_eq!(encode_str_utf16_nul("H\u{e9}\u{1f600}"), vec![0x48, 0xE9, 0xD83D, 0xDE00, 0]);
    assert_eq!(encode_str_utf16_nul(""), vec![0]);
}
