use vstd::prelude::*;

use crate::date::{format_date, formatted_date, parse_date, parsed_date};
use crate::metadata::{expansion, ImageMetadata};
use crate::parse::{
    compile, literal_end, original_filename, scan_from, segments_of, FmtItem, ScanFailure, Segment,
};

verus! {

/// The pattern that origin dates are recorded in.
pub const EXIF_DATE_PATTERN: &'static str = "%Y:%m:%d %H:%M:%S";

/// The extension of every output filename.
pub const OUTPUT_EXTENSION: &'static str = ".dng";

/// The origin date of the image, where it is recorded and reads as a date.
pub open spec fn origin_date(md: ImageMetadata) -> Option<chrono::NaiveDateTime> {
    match md.date_time_original {
        Some(s) => parsed_date(s@, EXIF_DATE_PATTERN@),
        None => None,
    }
}

/// What one segment renders as. A date token renders as nothing when there is
/// no origin date, or when it cannot be formatted.
pub open spec fn segment_text(
    seg: Segment,
    md: ImageMetadata,
    stem: Seq<char>,
    date: Option<chrono::NaiveDateTime>,
) -> Seq<char> {
    match seg {
        Segment::Literal(t) => t,
        Segment::DateTime(token) => match date {
            Some(d) => match formatted_date(d, token) {
                Some(t) => t,
                None => Seq::empty(),
            },
            None => Seq::empty(),
        },
        Segment::Metadata(k) => expansion(k, md, stem),
    }
}

/// The segments rendered in order and joined.
pub open spec fn rendered(
    segs: Seq<Segment>,
    md: ImageMetadata,
    stem: Seq<char>,
    date: Option<chrono::NaiveDateTime>,
) -> Seq<char>
    decreases segs.len(),
{
    if segs.len() == 0 {
        Seq::empty()
    } else {
        rendered(segs.drop_last(), md, stem, date) + segment_text(segs.last(), md, stem, date)
    }
}

/// The filename, without extension, that a template gives for an image.
pub open spec fn filename_of(items: Seq<FmtItem>, md: ImageMetadata, stem: Seq<char>) -> Seq<
    char,
> {
    rendered(segments_of(items), md, stem, origin_date(md))
}

/// Renders a compiled template against an image's metadata and the base name
/// of its file. The origin date is read at most once, and only when the
/// template holds a date token.
pub fn render_filename(orig_fname: &str, md: &ImageMetadata, items: &[FmtItem]) -> (r: String)
    ensures
        r@ == filename_of(items@, *md, orig_fname@),
{
    let ghost segs = segments_of(items@);
    let ghost date = origin_date(*md);
    let mut out = String::new();
    let mut cached: Option<Option<chrono::NaiveDateTime>> = None;
    let mut i: usize = 0;
    while i < items.len()
        invariant
            i <= items@.len(),
            segs == segments_of(items@),
            date == origin_date(*md),
            out@ == rendered(segs.subrange(0, i as int), *md, orig_fname@, date),
            cached matches Some(c) ==> c == date,
        decreases items.len() - i,
    {
        let piece = match &items[i] {
            FmtItem::Literal(t) => t.clone(),
            FmtItem::DateTime(token) => {
                if cached.is_none() {
                    cached = Some(
                        match &md.date_time_original {
                            Some(s) => parse_date(s.as_str(), EXIF_DATE_PATTERN),
                            None => None,
                        },
                    );
                }
                match &cached {
                    Some(Some(d)) => match format_date(d, token.as_str()) {
                        Some(t) => t,
                        None => String::new(),
                    },
                    _ => String::new(),
                }
            },
            FmtItem::Metadata(k) => k.expand_with_metadata(md, orig_fname),
        };
        assert(segs.subrange(0, i + 1).drop_last() == segs.subrange(0, i as int));
        out.append(piece.as_str());
        i = i + 1;
    }
    assert(segs.subrange(0, items@.len() as int) == segs);
    out
}

/// The output filename for an image: the rendered template and the extension.
pub fn build_output_filename(orig_fname: &str, md: &ImageMetadata, items: &[FmtItem]) -> (r:
    String)
    ensures
        r@ == filename_of(items@, *md, orig_fname@) + OUTPUT_EXTENSION@,
{
    let name = render_filename(orig_fname, md, items);
    name.concat(OUTPUT_EXTENSION)
}

/// Whether the template text holds no date token and no expansion.
pub open spec fn is_plain_text(s: Seq<char>) -> bool {
    forall|i: int| 0 <= i < s.len() ==> s[i] != '%' && s[i] != '{'
}

proof fn lemma_plain_literal_end(s: Seq<char>, i: int)
    requires
        is_plain_text(s),
        0 <= i <= s.len(),
    ensures
        literal_end(s, i) == s.len(),
    decreases s.len() - i,
{
    if i < s.len() {
        lemma_plain_literal_end(s, i + 1);
    }
}

/// A template of plain text compiles to that text followed by the original
/// file's base name, and renders, for every image, as the text verbatim
/// followed by the base name.
pub proof fn lemma_plain_text_renders_verbatim(
    s: Seq<char>,
    md: ImageMetadata,
    stem: Seq<char>,
    date: Option<chrono::NaiveDateTime>,
)
    requires
        is_plain_text(s),
    ensures
        compile(s) is Ok,
        s.len() > 0 ==> compile(s)->Ok_0 == seq![Segment::Literal(s), original_filename()],
        rendered(compile(s)->Ok_0, md, stem, date) == s + stem,
{
    let segs = compile(s)->Ok_0;
    if s.len() > 0 {
        lemma_plain_literal_end(s, 1);
        assert(s.subrange(0, s.len() as int) == s);
        assert(scan_from(s, s.len() as int) == Ok::<Seq<Segment>, ScanFailure>(Seq::empty()));
        assert(scan_from(s, 0) == Ok::<Seq<Segment>, ScanFailure>(
            seq![Segment::Literal(s)] + Seq::empty(),
        ));
        assert(seq![Segment::Literal(s)] + Seq::<Segment>::empty() == seq![Segment::Literal(s)]);
        assert(!seq![Segment::Literal(s)].contains(original_filename())) by {
            assert(seq![Segment::Literal(s)][0] != original_filename());
        }
        assert(segs == seq![Segment::Literal(s)].push(original_filename()));
        assert(segs.drop_last() == seq![Segment::Literal(s)]);
        assert(seq![Segment::Literal(s)].drop_last() == Seq::<Segment>::empty());
        let one = seq![Segment::Literal(s)];
        assert(rendered(one.drop_last(), md, stem, date) == Seq::<char>::empty());
        assert(rendered(one, md, stem, date) == Seq::<char>::empty() + s);
        assert(segs.last() == original_filename());
        assert(rendered(segs, md, stem, date) == rendered(one, md, stem, date) + stem);
    } else {
        assert(scan_from(s, 0) == Ok::<Seq<Segment>, ScanFailure>(Seq::empty()));
        assert(!Seq::<Segment>::empty().contains(original_filename()));
        assert(segs == Seq::<Segment>::empty().push(original_filename()));
        assert(segs.drop_last() == Seq::<Segment>::empty());
        assert(s == Seq::<char>::empty());
        assert(segs.last() == original_filename());
        assert(rendered(segs.drop_last(), md, stem, date) == Seq::<char>::empty());
        assert(rendered(segs, md, stem, date) == Seq::<char>::empty() + stem);
        assert(Seq::<char>::empty() + stem == stem);
    }
    assert(Seq::<char>::empty() + s == s);
}

/// Literal items render as their text joined in order, whatever the image.
pub open spec fn joined_literals(segs: Seq<Segment>) -> Seq<char>
    decreases segs.len(),
{
    if segs.len() == 0 {
        Seq::empty()
    } else {
        joined_literals(segs.drop_last()) + match segs.last() {
            Segment::Literal(t) => t,
            _ => Seq::empty(),
        }
    }
}

/// A template made of literal items only renders as their text verbatim.
pub proof fn lemma_literals_render_verbatim(
    segs: Seq<Segment>,
    md: ImageMetadata,
    stem: Seq<char>,
    date: Option<chrono::NaiveDateTime>,
)
    requires
        forall|i: int| 0 <= i < segs.len() ==> segs[i] is Literal,
    ensures
        rendered(segs, md, stem, date) == joined_literals(segs),
    decreases segs.len(),
{
    if segs.len() > 0 {
        lemma_literals_render_verbatim(segs.drop_last(), md, stem, date);
        assert(segs.last() is Literal);
    }
}

} // verus!
