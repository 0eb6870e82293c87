use vstd::prelude::*;

use crate::text::{decimal, decimal_of, replace_slashes, slashes_replaced};

verus! {

/// One of the metadata fields that a template can reference.
#[derive(Clone, Copy, Debug, PartialEq, Eq, Structural)]
pub enum MetadataKind {
    CameraMake,
    CameraModel,
    CameraShutterSpeed,
    CameraExposureComp,
    CameraISO,
    CameraFlash,
    LensFStop,
    LensMake,
    LensModel,
    LensFocalLength,
    LensFocusDist,
    ImageColorSpace,
    ImageSequenceNumber,
    ImageHeight,
    ImageWidth,
    ImageBitDepth,
    ImageOriginalFilename,
}

/// The dotted key under which a template names each metadata field.
/// `camea.flash` is spelled as the keyword table has always spelled it.
pub open spec fn key_of(k: MetadataKind) -> Seq<char> {
    match k {
        MetadataKind::CameraMake => "camera.make"@,
        MetadataKind::CameraModel => "camera.model"@,
        MetadataKind::CameraShutterSpeed => "camera.shutter_speed"@,
        MetadataKind::CameraExposureComp => "camera.exposure_compensation"@,
        MetadataKind::CameraISO => "camera.iso"@,
        MetadataKind::CameraFlash => "camea.flash"@,
        MetadataKind::LensFStop => "lens.fstop"@,
        MetadataKind::LensMake => "lens.make"@,
        MetadataKind::LensModel => "lens.model"@,
        MetadataKind::LensFocalLength => "lens.focal_length"@,
        MetadataKind::LensFocusDist => "lens.focus_distance"@,
        MetadataKind::ImageColorSpace => "image.color_space"@,
        MetadataKind::ImageSequenceNumber => "image.sequence_number"@,
        MetadataKind::ImageHeight => "image.height"@,
        MetadataKind::ImageWidth => "image.width"@,
        MetadataKind::ImageBitDepth => "image.bit_depth"@,
        MetadataKind::ImageOriginalFilename => "image.original_filename"@,
    }
}

/// The keyword table: the kind whose key is `s`, if any.
pub open spec fn keyword_of(s: Seq<char>) -> Option<MetadataKind> {
    if exists|k: MetadataKind| key_of(k) == s {
        Some(choose|k: MetadataKind| key_of(k) == s)
    } else {
        None
    }
}

/// No two kinds share a key.
pub proof fn lemma_keys_distinct(a: MetadataKind, b: MetadataKind)
    ensures
        key_of(a) == key_of(b) ==> a == b,
{
    reveal_strlit("camera.make");
    reveal_strlit("camera.model");
    reveal_strlit("camera.shutter_speed");
    reveal_strlit("camera.exposure_compensation");
    reveal_strlit("camera.iso");
    reveal_strlit("camea.flash");
    reveal_strlit("lens.fstop");
    reveal_strlit("lens.make");
    reveal_strlit("lens.model");
    reveal_strlit("lens.focal_length");
    reveal_strlit("lens.focus_distance");
    reveal_strlit("image.color_space");
    reveal_strlit("image.sequence_number");
    reveal_strlit("image.height");
    reveal_strlit("image.width");
    reveal_strlit("image.bit_depth");
    reveal_strlit("image.original_filename");
    if key_of(a) == key_of(b) && a != b {
        assert(key_of(a).len() == key_of(b).len());
        assert(key_of(a)[0] == key_of(b)[0]);
        assert(key_of(a)[4] == key_of(b)[4]);
        assert(key_of(a)[5] == key_of(b)[5]);
    }
}

/// Looking a kind's own key up gives that kind back.
pub proof fn lemma_keyword_of_key(k: MetadataKind)
    ensures
        keyword_of(key_of(k)) == Some(k),
{
    let c = choose|j: MetadataKind| key_of(j) == key_of(k);
    lemma_keys_distinct(c, k);
}

impl MetadataKind {
    /// The dotted key of this kind in the keyword table.
    pub fn key(&self) -> (r: &'static str)
        ensures
            r@ == key_of(*self),
    {
        match self {
            MetadataKind::CameraMake => "camera.make",
            MetadataKind::CameraModel => "camera.model",
            MetadataKind::CameraShutterSpeed => "camera.shutter_speed",
            MetadataKind::CameraExposureComp => "camera.exposure_compensation",
            MetadataKind::CameraISO => "camera.iso",
            MetadataKind::CameraFlash => "camea.flash",
            MetadataKind::LensFStop => "lens.fstop",
            MetadataKind::LensMake => "lens.make",
            MetadataKind::LensModel => "lens.model",
            MetadataKind::LensFocalLength => "lens.focal_length",
            MetadataKind::LensFocusDist => "lens.focus_distance",
            MetadataKind::ImageColorSpace => "image.color_space",
            MetadataKind::ImageSequenceNumber => "image.sequence_number",
            MetadataKind::ImageHeight => "image.height",
            MetadataKind::ImageWidth => "image.width",
            MetadataKind::ImageBitDepth => "image.bit_depth",
            MetadataKind::ImageOriginalFilename => "image.original_filename",
        }
    }
}

/// The keyword table, walked in a fixed order.
pub fn all_kinds() -> (r: Vec<MetadataKind>)
    ensures
        r@.len() == 17,
        forall|k: MetadataKind| r@.contains(k),
{
    let r = vec![
        MetadataKind::CameraMake,
        MetadataKind::CameraModel,
        MetadataKind::CameraShutterSpeed,
        MetadataKind::CameraExposureComp,
        MetadataKind::CameraISO,
        MetadataKind::CameraFlash,
        MetadataKind::LensFStop,
        MetadataKind::LensMake,
        MetadataKind::LensModel,
        MetadataKind::LensFocalLength,
        MetadataKind::LensFocusDist,
        MetadataKind::ImageColorSpace,
        MetadataKind::ImageSequenceNumber,
        MetadataKind::ImageHeight,
        MetadataKind::ImageWidth,
        MetadataKind::ImageBitDepth,
        MetadataKind::ImageOriginalFilename,
    ];
    assert forall|k: MetadataKind| r@.contains(k) by {
        match k {
            MetadataKind::CameraMake => assert(r@[0] == k),
            MetadataKind::CameraModel => assert(r@[1] == k),
            MetadataKind::CameraShutterSpeed => assert(r@[2] == k),
            MetadataKind::CameraExposureComp => assert(r@[3] == k),
            MetadataKind::CameraISO => assert(r@[4] == k),
            MetadataKind::CameraFlash => assert(r@[5] == k),
            MetadataKind::LensFStop => assert(r@[6] == k),
            MetadataKind::LensMake => assert(r@[7] == k),
            MetadataKind::LensModel => assert(r@[8] == k),
            MetadataKind::LensFocalLength => assert(r@[9] == k),
            MetadataKind::LensFocusDist => assert(r@[10] == k),
            MetadataKind::ImageColorSpace => assert(r@[11] == k),
            MetadataKind::ImageSequenceNumber => assert(r@[12] == k),
            MetadataKind::ImageHeight => assert(r@[13] == k),
            MetadataKind::ImageWidth => assert(r@[14] == k),
            MetadataKind::ImageBitDepth => assert(r@[15] == k),
            MetadataKind::ImageOriginalFilename => assert(r@[16] == k),
        }
    }
    r
}

/// Looks a dotted key up in the keyword table.
pub fn lookup_key(s: &str) -> (r: Option<MetadataKind>)
    ensures
        r == keyword_of(s@),
{
    let kinds = all_kinds();
    let mut i: usize = 0;
    while i < kinds.len()
        invariant
            forall|k: MetadataKind| kinds@.contains(k),
            i <= kinds@.len(),
            forall|j: int| 0 <= j < i ==> key_of(#[trigger] kinds@[j]) != s@,
        decreases kinds.len() - i,
    {
        let k = kinds[i];
        if crate::text::same_text(k.key(), s) {
            proof {
                lemma_keyword_of_key(k);
            }
            return Some(k);
        }
        i = i + 1;
    }
    assert forall|k: MetadataKind| key_of(k) != s@ by {
        assert(kinds@.contains(k));
        let j = choose|j: int| 0 <= j < kinds@.len() && kinds@[j] == k;
        assert(key_of(kinds@[j]) != s@);
    }
    None
}

/// The metadata of one decoded image that templates can reference. Every
/// field but make and model may be absent. Ratio-valued fields hold their
/// text (`1/250`).
#[derive(Clone, Debug)]
pub struct ImageMetadata {
    pub make: String,
    pub model: String,
    pub iso: Option<u32>,
    pub shutter_speed: Option<String>,
    pub lens_make: Option<String>,
    pub lens_model: Option<String>,
    pub focal_length: Option<String>,
    pub artist: Option<String>,
    /// The origin date as the image records it (`2024:05:17 14:03:59`).
    pub date_time_original: Option<String>,
}

/// The text of an optional field; an absent field reads as empty.
pub open spec fn text_or_empty(o: Option<String>) -> Seq<char> {
    match o {
        Some(s) => s@,
        None => Seq::empty(),
    }
}

/// The raw text of a field of the metadata, before it is made path-safe.
/// Fields that are absent, and kinds that name no field, read as empty.
pub open spec fn field_text(k: MetadataKind, md: ImageMetadata) -> Seq<char> {
    match k {
        MetadataKind::CameraMake => md.make@,
        MetadataKind::CameraModel => md.model@,
        MetadataKind::CameraISO => match md.iso {
            Some(n) => decimal_of(n as nat),
            None => Seq::empty(),
        },
        MetadataKind::CameraShutterSpeed => text_or_empty(md.shutter_speed),
        MetadataKind::LensMake => text_or_empty(md.lens_make),
        MetadataKind::LensModel => text_or_empty(md.lens_model),
        MetadataKind::LensFocalLength => text_or_empty(md.focal_length),
        _ => Seq::empty(),
    }
}

/// What a reference expands to: the original file's base name verbatim, or
/// the field's text with every `/` replaced by `_`.
pub open spec fn expansion(k: MetadataKind, md: ImageMetadata, stem: Seq<char>) -> Seq<char> {
    if k == MetadataKind::ImageOriginalFilename {
        stem
    } else {
        slashes_replaced(field_text(k, md))
    }
}

/// The text of an optional field.
fn text_of(o: &Option<String>) -> (r: String)
    ensures
        r@ == text_or_empty(*o),
{
    match o {
        Some(s) => s.clone(),
        None => String::new(),
    }
}

impl MetadataKind {
    /// Expands this reference against decoded metadata and the original
    /// file's base name. Never fails: what is absent expands to nothing.
    pub fn expand_with_metadata(&self, md: &ImageMetadata, orig_fname: &str) -> (r: String)
        ensures
            r@ == expansion(*self, *md, orig_fname@),
    {
        let raw = match self {
            MetadataKind::ImageOriginalFilename => {
                return orig_fname.to_owned();
            },
            MetadataKind::CameraMake => md.make.clone(),
            MetadataKind::CameraModel => md.model.clone(),
            MetadataKind::CameraISO => match md.iso {
                Some(n) => decimal(n),
                None => String::new(),
            },
            MetadataKind::CameraShutterSpeed => text_of(&md.shutter_speed),
            MetadataKind::LensMake => text_of(&md.lens_make),
            MetadataKind::LensModel => text_of(&md.lens_model),
            MetadataKind::LensFocalLength => text_of(&md.focal_length),
            _ => String::new(),
        };
        replace_slashes(raw.as_str())
    }
}

} // verus!
