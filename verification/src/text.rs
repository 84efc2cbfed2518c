//! Text to be laid out: its UTF-16 code units, locale and direction, and
//! the styles that it is drawn in.

use vstd::prelude::*;
use vstd::std_specs::iter::IteratorSpec;
use vstd::string::next_postcondition;
use vstd::string::StringSliceAdditionalSpecFns;
use vstd::std_specs::hash::DefaultHasherAdditionalSpecFns;
use std::collections::HashMap;
use std::hash::DefaultHasher;
use std::hash::Hasher;

verus! {

/// A UTF-16 code unit.
pub type Char = u16;

/// A font size in points, as a fixed-point number with three fraction bits.
#[derive(Clone, Copy, Debug, PartialEq, Eq, PartialOrd, Ord, Hash, Structural)]
pub struct Pt(pub i16);

/// The weight of a font.
#[derive(Clone, Copy, Debug, PartialEq, Eq, Hash, Structural)]
pub enum FontWeight {
    Thin,
    ExtraLight,
    Light,
    Normal,
    Medium,
    SemiBold,
    Bold,
    ExtraBold,
    Black,
}

/// The style of a font.
#[derive(Clone, Copy, Debug, PartialEq, Eq, Hash, Structural)]
pub enum FontStyle {
    Normal,
    Italic,
    Oblique,
}

/// How text wraps at the end of a line.
#[derive(Clone, Copy, Debug, PartialEq, Eq, Hash, Structural)]
pub enum TextWrapMode {
    NoWrap,
    Word,
    Char,
}

/// How text that does not fit is cut.
#[derive(Clone, Copy, Debug, PartialEq, Eq, Hash, Structural)]
pub enum ClipMode {
    NoClip,
    Ellipsis,
    Clip,
}

/// The direction in which text is read.
#[derive(Clone, Copy, Debug, PartialEq, Eq, Hash, Structural)]
pub enum TextDirection {
    LeftToRight,
    RightToLeft,
}

/// How digits are shaped for the text's locale.
#[derive(Clone, Copy, Debug, PartialEq, Eq, Structural)]
pub enum LocalNumberSubstitution {
    NoSubstitution,
    National,
    Contextual,
    Traditional,
}

/// The UTF-16 code units of one character.
pub open spec fn utf16_of_char(c: char) -> Seq<u16> {
    let v = c as u32;
    if v < 0x10000 {
        seq![v as u16]
    } else {
        let w = v - 0x10000;
        seq![(0xD800 + w / 0x400) as u16, (0xDC00 + w % 0x400) as u16]
    }
}

/// A character of the basic plane is one code unit equal to it; any other
/// is a surrogate pair, a high surrogate (`0xD800` to `0xDBFF`) then a low
/// one (`0xDC00` to `0xDFFF`), from which the character is recovered as
/// `0x10000` plus the high's ten bits, then the low's ten bits.
pub proof fn law_utf16_decodes(c: char)
    ensures
        (c as u32) < 0x10000 ==> utf16_of_char(c) == seq![c as u16],
        (c as u32) >= 0x10000 ==> {
            let u = utf16_of_char(c);
            &&& u.len() == 2
            &&& 0xD800 <= u[0] <= 0xDBFF
            &&& 0xDC00 <= u[1] <= 0xDFFF
            &&& 0x10000 + (u[0] - 0xD800) * 0x400 + (u[1] - 0xDC00) == c as u32
        },
{
    vstd::utf8::char_is_scalar(c);
    let v = c as u32;
    if v >= 0x10000 {
        let w = v - 0x10000;
        assert(w <= 0xFFFFF);
        assert(w / 0x400 <= 0x3FF);
        assert(w == (w / 0x400) * 0x400 + w % 0x400);
    }
}

/// The UTF-16 encoding of a string.
pub open spec fn encode_utf16(s: Seq<char>) -> Seq<u16>
    decreases s.len(),
{
    if s.len() == 0 {
        Seq::empty()
    } else {
        encode_utf16(s.drop_last()) + utf16_of_char(s.last())
    }
}

/// Appends the UTF-16 code units of `c` to `out`.
fn push_utf16(out: &mut Vec<u16>, c: char)
    ensures
        final(out)@ == old(out)@ + utf16_of_char(c),
{
    let v = c as u32;
    if v < 0x10000 {
        out.push(v as u16);
    } else {
        let w = v - 0x10000;
        proof {
            assert(v <= 0x10FFFF);
        }
        out.push((0xD800 + w / 0x400) as u16);
        out.push((0xDC00 + w % 0x400) as u16);
    }
    proof {
        assert(final(out)@ =~= old(out)@ + utf16_of_char(c));
    }
}

/// The UTF-16 encoding of a string.
pub fn encode_str_utf16(text: &str) -> (r: Vec<Char>)
    ensures
        r@ == encode_utf16(text@),
{
        let mut codepoints: Vec<Char> = Vec::new();
        let mut chars = text.chars();
        let ghost s = text@;
        let ghost mut k: int = 0;
        proof {
            broadcast use vstd::string::axiom_spec_iter;
            assert(chars.remaining() == s);
            assert(s.take(0) =~= Seq::<char>::empty());
        }
        loop
            invariant
                0 <= k <= s.len(),
                chars.obeys_prophetic_iter_laws(),
                chars.remaining() == s.skip(k),
                codepoints@ == encode_utf16(s.take(k)),
            ensures
                codepoints@ == encode_utf16(s),
            decreases s.len() - k,
        {
            let next = chars.next();
            proof {
                broadcast use next_postcondition;
            }
            match next {
                Some(c) => {
                    proof {
                        assert(c == s[k]);
                        assert(s.take(k + 1).drop_last() =~= s.take(k));
                        assert(s.take(k + 1).last() == c);
                        assert(s.skip(k).drop_first() =~= s.skip(k + 1));
                    }
                    push_utf16(&mut codepoints, c);
                    proof {
                        k = k + 1;
                    }
                },
                None => {
                    proof {
                        assert(s.skip(k).len() == 0);
                        assert(k == s.len());
                        assert(s.take(k) =~= s);
                    }
                    break ;
                },
            }
        }
        codepoints
}

/// The UTF-16 encoding of a string followed by a terminating zero, as the
/// platform takes window titles and class names.
pub fn encode_str_utf16_nul(text: &str) -> (r: Vec<Char>)
    ensures
        r@ == encode_utf16(text@).push(0),
{
    let mut units = encode_str_utf16(text);
    units.push(0);
    units
}

/// Text to be laid out.
pub struct Text {
    pub locale: &'static str,
    pub direction: TextDirection,
    pub codepoints: Vec<Char>,
}

impl Text {
    /// The text of `text`, encoded as UTF-16.
    pub fn from_str(text: &str, locale: &'static str, direction: TextDirection) -> (r: Self)
        ensures
            r.codepoints@ == encode_utf16(text@),
            r.locale == locale,
            r.direction == direction,
    {
        let codepoints = encode_str_utf16(text);
        Text { locale, direction, codepoints }
    }
}

/// A read-only view of text, as the layout engine reads it.
pub trait TextView {
    /// The number of code units.
    spec fn spec_length(&self) -> nat;

    /// The number of code units.
    fn length(&self) -> usize;

    /// The locale of the text from `starting_from` on, and the code units
    /// that it covers.
    fn locale(&self, starting_from: usize) -> (&str, &[Char])
        requires
            starting_from <= self.spec_length(),
    ;

    /// The direction of the text.
    fn direction(&self) -> TextDirection;

    /// The code units from `index` on, or `None` past the end.
    fn chars_after(&self, index: usize) -> Option<&[Char]>;

    /// The code units before `index`, or `None` past the end.
    fn chars_before(&self, index: usize) -> Option<&[Char]>;
}

impl TextView for Text {
    open spec fn spec_length(&self) -> nat {
        self.codepoints@.len()
    }

    fn length(&self) -> (r: usize)
        ensures
            r == self.codepoints@.len(),
    {
        self.codepoints.len()
    }

    fn locale(&self, starting_from: usize) -> (r: (&str, &[Char]))
        ensures
            r.0 == self.locale,
            r.1@ == self.codepoints@.subrange(starting_from as int, self.codepoints@.len() as int),
    {
        let all = self.codepoints.as_slice();
        (self.locale, vstd::slice::slice_subrange(all, starting_from, all.len()))
    }

    fn direction(&self) -> (r: TextDirection)
        ensures
            r == self.direction,
    {
        self.direction
    }

    fn chars_after(&self, index: usize) -> (r: Option<&[Char]>)
        ensures
            index < self.codepoints@.len() <==> r is Some,
            r matches Some(s) ==> s@ == self.codepoints@.subrange(
                index as int,
                self.codepoints@.len() as int,
            ),
    {
        let all = self.codepoints.as_slice();
        if index < all.len() {
            Some(vstd::slice::slice_subrange(all, index, all.len()))
        } else {
            None
        }
    }

    fn chars_before(&self, index: usize) -> (r: Option<&[Char]>)
        ensures
            index < self.codepoints@.len() <==> r is Some,
            r matches Some(s) ==> s@ == self.codepoints@.subrange(0, index as int),
    {
        let all = self.codepoints.as_slice();
        if index < all.len() {
            Some(vstd::slice::slice_subrange(all, 0, index))
        } else {
            None
        }
    }
}

/// The style that text is drawn in.
#[derive(Debug, PartialEq, Eq, Hash)]
pub struct TextStyle {
    pub font_weight: FontWeight,
    pub font_style: FontStyle,
    pub font_name: String,
    pub font_size: Pt,
    pub text_wrap: TextWrapMode,
    pub clip_mode: ClipMode,
}


/// The kind of a text analysis result.
#[derive(Clone, Copy, Debug, PartialEq, Eq, Structural)]
pub enum AnalysisKind {
    FontBackup,
    IsRightToLeft,
    ScriptAnalysis,
    NumberSubstitution,
}

/// The number that stands for an analysis kind.
pub open spec fn kind_bits(kind: AnalysisKind) -> u32 {
    match kind {
        AnalysisKind::FontBackup => 0,
        AnalysisKind::IsRightToLeft => 1,
        AnalysisKind::ScriptAnalysis => 2,
        AnalysisKind::NumberSubstitution => 3,
    }
}

impl AnalysisKind {
    /// The number that stands for this kind.
    pub fn into_bits(self) -> (r: u32)
        ensures
            r == kind_bits(self),
    {
        match self {
            AnalysisKind::FontBackup => 0,
            AnalysisKind::IsRightToLeft => 1,
            AnalysisKind::ScriptAnalysis => 2,
            AnalysisKind::NumberSubstitution => 3,
        }
    }

    /// The kind that a number stands for.
    pub fn from_bits(value: u32) -> (r: Self)
        requires
            value < 4,
        ensures
            kind_bits(r) == value,
    {
        match value {
            0 => AnalysisKind::FontBackup,
            1 => AnalysisKind::IsRightToLeft,
            2 => AnalysisKind::ScriptAnalysis,
            _ => AnalysisKind::NumberSubstitution,
        }
    }
}

/// The packed header of an analysis result: its kind in the two low bits,
/// the text position it starts at in the thirty high bits.
#[derive(Clone, Copy, Debug, PartialEq, Eq, Structural)]
pub struct Meta(pub u32);

impl Meta {
    /// The kind field.
    pub open spec fn spec_kind(&self) -> u32 {
        self.0 & 3
    }

    /// The text field.
    pub open spec fn spec_text(&self) -> u32 {
        self.0 >> 2
    }

    /// A header with both fields zero.
    pub fn new() -> (r: Self)
        ensures
            r.spec_kind() == 0,
            r.spec_text() == 0,
    {
        assert(0u32 & 3 == 0 && 0u32 >> 2 == 0) by (bit_vector);
        Meta(0)
    }

    /// The same header with another kind.
    pub fn with_kind(self, kind: AnalysisKind) -> (r: Self)
        ensures
            r.spec_kind() == kind_bits(kind),
            r.spec_text() == self.spec_text(),
    {
        let k = kind.into_bits();
        let b = self.0;
        let v = (b & !3u32) | k;
        assert(v & 3 == k && v >> 2 == b >> 2) by (bit_vector)
            requires
                k < 4,
                v == (b & !3u32) | k,
        ;
        Meta(v)
    }

    /// The same header with another text position, which must fit in thirty
    /// bits.
    pub fn with_text(self, text: u32) -> (r: Self)
        requires
            text < 0x4000_0000,
        ensures
            r.spec_text() == text,
            r.spec_kind() == self.spec_kind(),
    {
        let b = self.0;
        let v = (b & 3u32) | (text << 2);
        assert(v & 3 == b & 3 && v >> 2 == text) by (bit_vector)
            requires
                text < 0x4000_0000,
                v == (b & 3u32) | (text << 2),
        ;
        Meta(v)
    }

    /// The kind of the result.
    pub fn kind(&self) -> (r: AnalysisKind)
        ensures
            kind_bits(r) == self.spec_kind(),
    {
        let b = self.0;
        let k = b & 3;
        assert(k < 4) by (bit_vector)
            requires
                k == b & 3,
        ;
        AnalysisKind::from_bits(k)
    }

    /// The text position of the result.
    pub fn text(&self) -> (r: u32)
        ensures
            r == self.spec_text(),
            r < 0x4000_0000,
    {
        let b = self.0;
        let t = b >> 2;
        assert(t < 0x4000_0000) by (bit_vector)
            requires
                t == b >> 2,
        ;
        t
    }
}


/// An image of the glyph atlas.
#[derive(Clone, Copy, Debug, PartialEq, Eq, Hash, Structural)]
pub struct ImageId(pub u32);

/// The byte that stands for a font weight.
pub open spec fn weight_byte(w: FontWeight) -> u8 {
    match w {
        FontWeight::Thin => 0,
        FontWeight::ExtraLight => 1,
        FontWeight::Light => 2,
        FontWeight::Normal => 3,
        FontWeight::Medium => 4,
        FontWeight::SemiBold => 5,
        FontWeight::Bold => 6,
        FontWeight::ExtraBold => 7,
        FontWeight::Black => 8,
    }
}

/// The byte that stands for a font style.
pub open spec fn style_byte(s: FontStyle) -> u8 {
    match s {
        FontStyle::Normal => 0,
        FontStyle::Italic => 1,
        FontStyle::Oblique => 2,
    }
}

/// The byte that stands for a wrap mode.
pub open spec fn wrap_byte(w: TextWrapMode) -> u8 {
    match w {
        TextWrapMode::NoWrap => 0,
        TextWrapMode::Word => 1,
        TextWrapMode::Char => 2,
    }
}

/// The byte that stands for a clip mode.
pub open spec fn clip_byte(c: ClipMode) -> u8 {
    match c {
        ClipMode::NoClip => 0,
        ClipMode::Ellipsis => 1,
        ClipMode::Clip => 2,
    }
}

/// The little-endian bytes of a 16-bit number, as `Hash` writes a `u16` or
/// an `i16` on a little-endian target.
pub open spec fn le_bytes_16(v: u16) -> Seq<u8> {
    seq![(v % 256) as u8, (v / 256) as u8]
}

/// The bytes that `Hash` writes for the discriminant `d` of a field-less
/// enum: the discriminant as an `isize`, in the eight little-endian bytes of
/// the 64-bit little-endian targets that the platform layer runs on.
pub open spec fn discriminant_bytes(d: u8) -> Seq<u8> {
    seq![d, 0u8, 0u8, 0u8, 0u8, 0u8, 0u8, 0u8]
}

/// The byte strings that hashing a glyph feeds to the hasher: those that
/// the derived `Hash` of the style writes for each of its fields in order
/// (a string as its bytes, then `0xff`), then those of the glyph and of the
/// DPI.
pub open spec fn glyph_key_parts(style: &TextStyle, dpi: u16, glyph: u16) -> Seq<Seq<u8>> {
    seq![
        discriminant_bytes(weight_byte(style.font_weight)),
        discriminant_bytes(style_byte(style.font_style)),
        vstd::utf8::encode_utf8(style.font_name@),
        seq![0xffu8],
        le_bytes_16(style.font_size.0 as u16),
        discriminant_bytes(wrap_byte(style.text_wrap)),
        discriminant_bytes(clip_byte(style.clip_mode)),
        le_bytes_16(glyph),
        le_bytes_16(dpi),
    ]
}

/// The cache key of a glyph drawn in a style at a DPI.
pub open spec fn glyph_key_spec(style: &TextStyle, dpi: u16, glyph: u16) -> u64 {
    DefaultHasher::spec_finish(glyph_key_parts(style, dpi, glyph))
}

/// The derived `Hash` of a field-less enum writes the variant's position
/// in the declaration, counting from zero.
pub proof fn law_discriminants_in_declaration_order()
    ensures
        weight_byte(FontWeight::Thin) == 0,
        weight_byte(FontWeight::ExtraLight) == 1,
        weight_byte(FontWeight::Light) == 2,
        weight_byte(FontWeight::Normal) == 3,
        weight_byte(FontWeight::Medium) == 4,
        weight_byte(FontWeight::SemiBold) == 5,
        weight_byte(FontWeight::Bold) == 6,
        weight_byte(FontWeight::ExtraBold) == 7,
        weight_byte(FontWeight::Black) == 8,
        style_byte(FontStyle::Normal) == 0,
        style_byte(FontStyle::Italic) == 1,
        style_byte(FontStyle::Oblique) == 2,
        wrap_byte(TextWrapMode::NoWrap) == 0,
        wrap_byte(TextWrapMode::Word) == 1,
        wrap_byte(TextWrapMode::Char) == 2,
        clip_byte(ClipMode::NoClip) == 0,
        clip_byte(ClipMode::Ellipsis) == 1,
        clip_byte(ClipMode::Clip) == 2,
{
}

/// Glyphs that differ in any part of their style, in their DPI or in their
/// glyph index feed the hasher different bytes: the bytes fed determine
/// every field of the style, the DPI and the glyph.
pub proof fn law_glyph_key_bytes_determine_glyph(
    a: &TextStyle,
    dpi_a: u16,
    glyph_a: u16,
    b: &TextStyle,
    dpi_b: u16,
    glyph_b: u16,
)
    requires
        glyph_key_parts(a, dpi_a, glyph_a) == glyph_key_parts(b, dpi_b, glyph_b),
    ensures
        a.font_weight == b.font_weight,
        a.font_style == b.font_style,
        a.font_name@ == b.font_name@,
        a.font_size == b.font_size,
        a.text_wrap == b.text_wrap,
        a.clip_mode == b.clip_mode,
        dpi_a == dpi_b,
        glyph_a == glyph_b,
{
    let pa = glyph_key_parts(a, dpi_a, glyph_a);
    let pb = glyph_key_parts(b, dpi_b, glyph_b);
    assert(pa[0][0] == pb[0][0]);
    assert(pa[1][0] == pb[1][0]);
    assert(pa[2] == pb[2]);
    assert(pa[4] == pb[4]);
    assert(pa[5][0] == pb[5][0]);
    assert(pa[6][0] == pb[6][0]);
    assert(pa[7] == pb[7]);
    assert(pa[8] == pb[8]);
    vstd::utf8::encode_utf8_decode_utf8(a.font_name@);
    vstd::utf8::encode_utf8_decode_utf8(b.font_name@);
    let (sa, sb) = (a.font_size.0, b.font_size.0);
    lemma_le_bytes_16_injective(#[verifier::truncate] (sa as u16), #[verifier::truncate] (sb as u16));
    assert(sa == sb) by (bit_vector)
        requires
            sa as u16 == sb as u16,
    ;
    lemma_le_bytes_16_injective(dpi_a, dpi_b);
    lemma_le_bytes_16_injective(glyph_a, glyph_b);
}

/// Two 16-bit numbers with the same little-endian bytes are equal.
proof fn lemma_le_bytes_16_injective(x: u16, y: u16)
    requires
        le_bytes_16(x) == le_bytes_16(y),
    ensures
        x == y,
{
    assert(le_bytes_16(x)[0] == le_bytes_16(y)[0]);
    assert(le_bytes_16(x)[1] == le_bytes_16(y)[1]);
    assert(x == (x / 256) * 256 + x % 256);
    assert(y == (y / 256) * 256 + y % 256);
}

fn write_discriminant(hasher: &mut DefaultHasher, d: u8)
    ensures
        final(hasher)@ == old(hasher)@.push(discriminant_bytes(d)),
{
    let a: [u8; 8] = [d, 0, 0, 0, 0, 0, 0, 0];
    hasher.write(a.as_slice());
    proof {
        assert(a@ =~= discriminant_bytes(d));
    }
}

fn write_byte(hasher: &mut DefaultHasher, b: u8)
    ensures
        final(hasher)@ == old(hasher)@.push(seq![b]),
{
    let a: [u8; 1] = [b];
    hasher.write(a.as_slice());
    proof {
        assert(a@ =~= seq![b]);
    }
}

fn write_u16(hasher: &mut DefaultHasher, v: u16)
    ensures
        final(hasher)@ == old(hasher)@.push(le_bytes_16(v)),
{
    let a: [u8; 2] = [(v % 256) as u8, (v / 256) as u8];
    hasher.write(a.as_slice());
    proof {
        assert(a@ =~= le_bytes_16(v));
    }
}

/// Hashes a glyph's style, glyph and DPI into its cache key, feeding the
/// hasher what hashing the style, the glyph and the DPI in turn feeds it.
pub fn glyph_key(style: &TextStyle, dpi: u16, glyph: u16) -> (r: u64)
    ensures
        r == glyph_key_spec(style, dpi, glyph),
{
    let mut hasher = DefaultHasher::new();
    let w: u8 = match style.font_weight {
        FontWeight::Thin => 0,
        FontWeight::ExtraLight => 1,
        FontWeight::Light => 2,
        FontWeight::Normal => 3,
        FontWeight::Medium => 4,
        FontWeight::SemiBold => 5,
        FontWeight::Bold => 6,
        FontWeight::ExtraBold => 7,
        FontWeight::Black => 8,
    };
    let st: u8 = match style.font_style {
        FontStyle::Normal => 0,
        FontStyle::Italic => 1,
        FontStyle::Oblique => 2,
    };
    let wr: u8 = match style.text_wrap {
        TextWrapMode::NoWrap => 0,
        TextWrapMode::Word => 1,
        TextWrapMode::Char => 2,
    };
    let cl: u8 = match style.clip_mode {
        ClipMode::NoClip => 0,
        ClipMode::Ellipsis => 1,
        ClipMode::Clip => 2,
    };
    write_discriminant(&mut hasher, w);
    write_discriminant(&mut hasher, st);
    let name = style.font_name.as_str();
    hasher.write(name.as_bytes());
    write_byte(&mut hasher, 0xff);
    write_u16(&mut hasher, style.font_size.0 as u16);
    write_discriminant(&mut hasher, wr);
    write_discriminant(&mut hasher, cl);
    write_u16(&mut hasher, glyph);
    write_u16(&mut hasher, dpi);
    proof {
        assert(hasher@ =~= glyph_key_parts(style, dpi, glyph));
    }
    hasher.finish()
}

/// A call of `GlyphCache::add_glyph`: the style, the DPI, the glyph and the
/// image.
pub type GlyphAdd = (TextStyle, u16, u16, ImageId);

/// The cached images once the glyphs are added in order to a cache that
/// held `m`.
pub open spec fn after_adds(m: Map<u64, ImageId>, adds: Seq<GlyphAdd>) -> Map<u64, ImageId>
    decreases adds.len(),
{
    if adds.len() == 0 {
        m
    } else {
        let a = adds.last();
        after_adds(m, adds.drop_last()).insert(glyph_key_spec(&a.0, a.1, a.2), a.3)
    }
}

/// What a lookup of `key` finds in the cached images.
pub open spec fn lookup(m: Map<u64, ImageId>, key: u64) -> Option<ImageId> {
    if m.contains_key(key) {
        Some(m[key])
    } else {
        None
    }
}

/// The image of the latest of the adds whose key is `key`, or `otherwise`
/// when none is.
pub open spec fn latest_image(adds: Seq<GlyphAdd>, key: u64, otherwise: Option<ImageId>) -> Option<
    ImageId,
>
    decreases adds.len(),
{
    if adds.len() == 0 {
        otherwise
    } else if glyph_key_spec(&adds.last().0, adds.last().1, adds.last().2) == key {
        Some(adds.last().3)
    } else {
        latest_image(adds.drop_last(), key, otherwise)
    }
}

/// After any sequence of `add_glyph` calls, `get_glyph` for a glyph finds
/// the image of the latest add whose key equals the glyph's key, or what
/// the cache held before when no add had that key.
pub proof fn law_latest_add_is_found(
    m: Map<u64, ImageId>,
    adds: Seq<GlyphAdd>,
    style: TextStyle,
    dpi: u16,
    glyph: u16,
)
    ensures
        ({
            let key = glyph_key_spec(&style, dpi, glyph);
            lookup(after_adds(m, adds), key) == latest_image(adds, key, lookup(m, key))
        }),
    decreases adds.len(),
{
    if adds.len() > 0 {
        law_latest_add_is_found(m, adds.drop_last(), style, dpi, glyph);
    }
}

/// Images of glyphs already drawn, by style, DPI and glyph.
pub struct GlyphCache {
    map: HashMap<u64, ImageId>,
}

impl GlyphCache {
    /// The cached images, by glyph key.
    pub closed spec fn entries(&self) -> Map<u64, ImageId> {
        self.map@
    }

    /// An empty cache.
    pub fn new() -> (r: Self)
        ensures
            r.entries() == Map::<u64, ImageId>::empty(),
    {
        GlyphCache { map: HashMap::new() }
    }

    /// An empty cache with room for `capacity` glyphs.
    pub fn with_capacity(capacity: usize) -> (r: Self)
        ensures
            r.entries() == Map::<u64, ImageId>::empty(),
    {
        GlyphCache { map: HashMap::with_capacity(capacity) }
    }

    /// The cached image of a glyph, if any.
    pub fn get_glyph(&mut self, style: &TextStyle, dpi: u16, glyph: u16) -> (r: Option<ImageId>)
        ensures
            final(self).entries() == old(self).entries(),
            r == lookup(old(self).entries(), glyph_key_spec(style, dpi, glyph)),
    {
        broadcast use vstd::std_specs::hash::group_hash_axioms;
        let key = glyph_key(style, dpi, glyph);
        match self.map.get(&key) {
            Some(image) => Some(*image),
            None => None,
        }
    }

    /// Caches the image of a glyph.
    pub fn add_glyph(&mut self, style: &TextStyle, dpi: u16, glyph: u16, image: ImageId)
        ensures
            final(self).entries() == old(self).entries().insert(
                glyph_key_spec(style, dpi, glyph),
                image,
            ),
    {
        broadcast use vstd::std_specs::hash::group_hash_axioms;
        let key = glyph_key(style, dpi, glyph);
        self.map.insert(key, image);
    }
}

} // verus!
