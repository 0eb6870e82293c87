use vstd::prelude::*;
use vstd::utf8::encode_utf8;

use crate::metadata::{keyword_of, lookup_key, MetadataKind};

verus! {

/// One piece of a compiled filename template.
#[derive(Clone, Debug, PartialEq, Eq)]
pub enum FmtItem {
    /// Text copied to the output as it stands.
    Literal(String),
    /// A two-character date token (`%Y`), formatted from the image's origin date.
    DateTime(String),
    /// A reference to a metadata field.
    Metadata(MetadataKind),
}

/// What a [`FmtItem`] stands for.
pub enum Segment {
    Literal(Seq<char>),
    DateTime(Seq<char>),
    Metadata(MetadataKind),
}

impl View for FmtItem {
    type V = Segment;

    open spec fn view(&self) -> Segment {
        match self {
            FmtItem::Literal(s) => Segment::Literal(s@),
            FmtItem::DateTime(s) => Segment::DateTime(s@),
            FmtItem::Metadata(k) => Segment::Metadata(*k),
        }
    }
}

/// The segments that a sequence of items stands for.
pub open spec fn segments_of(items: Seq<FmtItem>) -> Seq<Segment> {
    items.map_values(|it: FmtItem| it@)
}

/// Why a template was refused.
#[derive(Clone, Copy, Debug, PartialEq, Eq, Structural)]
pub enum ParseErrorKind {
    /// A date token that is not two characters long, or an expansion whose
    /// key is not in the keyword table.
    InvalidExpansion,
    /// An expansion that reaches the end of the template without its `}`.
    UnterminatedExpansion,
    /// A remainder that the scan cannot take apart.
    Unknown,
}

/// A template refused by [`parse_name_format`]: where the offending segment
/// starts and how long it is, both in bytes of the template, and the
/// template itself.
#[derive(Clone, Debug, PartialEq, Eq)]
pub struct ParseError {
    pub offset: usize,
    pub length: usize,
    pub source: String,
    pub kind: ParseErrorKind,
}

/// A refused segment, by character positions: it spans `start..end`.
pub struct ScanFailure {
    pub start: int,
    pub end: int,
    pub kind: ParseErrorKind,
}

/// The end of a literal run that continues at `i`: the first `%` or `{` at or
/// after `i`, or the end of the template.
pub open spec fn literal_end(s: Seq<char>, i: int) -> int
    decreases s.len() - i,
{
    if i < 0 || i >= s.len() || s[i] == '%' || s[i] == '{' {
        i
    } else {
        literal_end(s, i + 1)
    }
}

/// The first `}` at or after `i`, or the end of the template.
pub open spec fn close_brace(s: Seq<char>, i: int) -> int
    decreases s.len() - i,
{
    if i < 0 || i >= s.len() || s[i] == '}' {
        i
    } else {
        close_brace(s, i + 1)
    }
}

/// The end of an expansion that opens at `i`: the character after `{` is
/// taken without looking at it, then everything up to and including the next
/// `}`, or up to the end of the template.
pub open spec fn expansion_end(s: Seq<char>, i: int) -> int {
    let j = close_brace(s, i + 2);
    if j < s.len() {
        j + 1
    } else {
        s.len() as int
    }
}

/// The segment that starts at `i`, with the position after it.
pub open spec fn step_at(s: Seq<char>, i: int) -> Result<(Segment, int), ScanFailure> {
    if s[i] == '%' {
        if i + 2 <= s.len() {
            Ok((Segment::DateTime(s.subrange(i, i + 2)), i + 2))
        } else {
            Err(ScanFailure { start: i, end: s.len() as int, kind: ParseErrorKind::InvalidExpansion })
        }
    } else if s[i] == '{' {
        if i + 1 == s.len() {
            Err(
                ScanFailure {
                    start: i,
                    end: s.len() as int,
                    kind: ParseErrorKind::UnterminatedExpansion,
                },
            )
        } else if s[i + 1] == '{' {
            Ok((Segment::Literal(seq!['{']), i + 2))
        } else {
            let e = expansion_end(s, i);
            if s[e - 1] == '}' {
                match keyword_of(s.subrange(i + 1, e - 1)) {
                    Some(k) => Ok((Segment::Metadata(k), e)),
                    None => Err(
                        ScanFailure { start: i, end: e, kind: ParseErrorKind::InvalidExpansion },
                    ),
                }
            } else {
                Err(ScanFailure { start: i, end: e, kind: ParseErrorKind::UnterminatedExpansion })
            }
        }
    } else {
        let e = literal_end(s, i + 1);
        Ok((Segment::Literal(s.subrange(i, e)), e))
    }
}

/// The segments of the template from position `i` on, or the first refused one.
pub open spec fn scan_from(s: Seq<char>, i: int) -> Result<Seq<Segment>, ScanFailure>
    decreases s.len() - i,
{
    if i < 0 || i >= s.len() {
        Ok(Seq::empty())
    } else {
        match step_at(s, i) {
            Ok((seg, next)) => {
                if next <= i || next > s.len() {
                    Err(
                        ScanFailure {
                            start: i,
                            end: s.len() as int,
                            kind: ParseErrorKind::Unknown,
                        },
                    )
                } else {
                    match scan_from(s, next) {
                        Ok(rest) => Ok(seq![seg] + rest),
                        Err(f) => Err(f),
                    }
                }
            },
            Err(f) => Err(f),
        }
    }
}

/// `done` followed by what the scan from some position gives.
pub open spec fn after(done: Seq<Segment>, r: Result<Seq<Segment>, ScanFailure>) -> Result<
    Seq<Segment>,
    ScanFailure,
> {
    match r {
        Ok(rest) => Ok(done + rest),
        Err(f) => Err(f),
    }
}

/// The original file's base name, as a segment.
pub open spec fn original_filename() -> Segment {
    Segment::Metadata(MetadataKind::ImageOriginalFilename)
}

/// The segments the scan found, with the original file's base name appended
/// when none of them names it.
pub open spec fn with_original_filename(segs: Seq<Segment>) -> Seq<Segment> {
    if segs.contains(original_filename()) {
        segs
    } else {
        segs.push(original_filename())
    }
}

/// A compiled template, or the first refused segment.
pub open spec fn compile(s: Seq<char>) -> Result<Seq<Segment>, ScanFailure> {
    match scan_from(s, 0) {
        Ok(segs) => Ok(with_original_filename(segs)),
        Err(f) => Err(f),
    }
}

/// Whether `e` reports the refused segment `f` of the template `s`.
pub open spec fn reports(e: ParseError, s: Seq<char>, f: ScanFailure) -> bool {
    &&& e.kind == f.kind
    &&& e.source@ == s
    &&& e.offset == encode_utf8(s.subrange(0, f.start)).len() as usize
    &&& e.length == encode_utf8(s.subrange(f.start, f.end)).len() as usize
}

proof fn lemma_literal_end_bounds(s: Seq<char>, i: int)
    requires
        0 <= i <= s.len(),
    ensures
        i <= literal_end(s, i) <= s.len(),
    decreases s.len() - i,
{
    if i < s.len() && s[i] != '%' && s[i] != '{' {
        lemma_literal_end_bounds(s, i + 1);
    }
}

proof fn lemma_close_brace_bounds(s: Seq<char>, i: int)
    requires
        0 <= i <= s.len(),
    ensures
        i <= close_brace(s, i) <= s.len(),
    decreases s.len() - i,
{
    if i < s.len() && s[i] != '}' {
        lemma_close_brace_bounds(s, i + 1);
    }
}

/// Every segment that the scan takes moves it forward.
pub proof fn lemma_step_advances(s: Seq<char>, i: int)
    requires
        0 <= i < s.len(),
    ensures
        step_at(s, i) matches Ok((_, next)) ==> i < next <= s.len(),
        step_at(s, i) matches Err(f) ==> 0 <= f.start == i < f.end <= s.len(),
{
    lemma_literal_end_bounds(s, i + 1);
    if i + 2 <= s.len() {
        lemma_close_brace_bounds(s, i + 2);
    }
}

/// The first `%` or `{` at or after `i`, or `n`.
fn find_literal_end(s: &str, n: usize, i: usize) -> (r: usize)
    requires
        n == s@.len(),
        i <= n,
    ensures
        r == literal_end(s@, i as int),
{
    let mut j = i;
    while j < n
        invariant
            n == s@.len(),
            i <= j <= n,
            literal_end(s@, i as int) == literal_end(s@, j as int),
        decreases n - j,
    {
        let c = s.get_char(j);
        if c == '%' || c == '{' {
            return j;
        }
        j = j + 1;
    }
    j
}

/// The first `}` at or after `i`, or `n`.
fn find_close_brace(s: &str, n: usize, i: usize) -> (r: usize)
    requires
        n == s@.len(),
        i <= n,
    ensures
        r == close_brace(s@, i as int),
{
    let mut j = i;
    while j < n
        invariant
            n == s@.len(),
            i <= j <= n,
            close_brace(s@, i as int) == close_brace(s@, j as int),
        decreases n - j,
    {
        if s.get_char(j) == '}' {
            return j;
        }
        j = j + 1;
    }
    j
}

/// The reference that a key of the keyword table names, as an item.
pub fn expand(s: &str) -> (r: Option<FmtItem>)
    ensures
        r matches Some(it) ==> keyword_of(s@) matches Some(k) && it@ == Segment::Metadata(k),
        r is None <==> keyword_of(s@) is None,
{
    match lookup_key(s) {
        Some(k) => Some(FmtItem::Metadata(k)),
        None => None,
    }
}

/// The error that reports the refused segment `start..end` of `fmt`.
fn refusal(fmt: &str, start: usize, end: usize, kind: ParseErrorKind) -> (e: ParseError)
    requires
        start <= end <= fmt@.len(),
    ensures
        reports(e, fmt@, ScanFailure { start: start as int, end: end as int, kind }),
{
    ParseError {
        offset: fmt.substring_char(0, start).len(),
        length: fmt.substring_char(start, end).len(),
        source: fmt.to_owned(),
        kind,
    }
}

/// Compiles a filename template into its segments.
///
/// `%` and the character after it make a date token; `{{` is one literal
/// `{`; `{key}` names a metadata field by its key in the keyword table; any
/// other run of characters up to the next `%` or `{` is literal text. When no
/// segment names the original file's base name, one that does is appended.
pub fn parse_name_format(fmt: &str) -> (r: Result<Vec<FmtItem>, ParseError>)
    ensures
        r matches Ok(items) ==> compile(fmt@) matches Ok(segs) && segs == segments_of(items@),
        r matches Err(e) ==> compile(fmt@) matches Err(f) && reports(e, fmt@, f),
        r is Ok <==> compile(fmt@) is Ok,
{
    let n = fmt.unicode_len();
    let mut items: Vec<FmtItem> = Vec::new();
    let mut i: usize = 0;
    while i < n
        invariant
            n == fmt@.len(),
            i <= n,
            scan_from(fmt@, 0) == after(segments_of(items@), scan_from(fmt@, i as int)),
        decreases n - i,
    {
        proof {
            lemma_step_advances(fmt@, i as int);
        }
        let ghost s = fmt@;
        let ghost done = segments_of(items@);
        let c = fmt.get_char(i);
        let next: usize;
        if c == '%' {
            if n - i < 2 {
                return Err(refusal(fmt, i, n, ParseErrorKind::InvalidExpansion));
            }
            next = i + 2;
            items.push(FmtItem::DateTime(fmt.substring_char(i, next).to_owned()));
        } else if c == '{' {
            if i + 1 == n {
                return Err(refusal(fmt, i, n, ParseErrorKind::UnterminatedExpansion));
            }
            if fmt.get_char(i + 1) == '{' {
                next = i + 2;
                let brace = fmt.substring_char(i, i + 1);
                assert(brace@ =~= seq!['{']);
                items.push(FmtItem::Literal(brace.to_owned()));
            } else {
                proof {
                    lemma_close_brace_bounds(s, i + 2);
                }
                let j = find_close_brace(fmt, n, i + 2);
                let e = if j < n {
                    j + 1
                } else {
                    n
                };
                if fmt.get_char(e - 1) != '}' {
                    return Err(refusal(fmt, i, e, ParseErrorKind::UnterminatedExpansion));
                }
                match expand(fmt.substring_char(i + 1, e - 1)) {
                    Some(item) => {
                        items.push(item);
                    },
                    None => {
                        return Err(refusal(fmt, i, e, ParseErrorKind::InvalidExpansion));
                    },
                }
                next = e;
            }
        } else {
            proof {
                lemma_literal_end_bounds(s, i + 1);
            }
            next = find_literal_end(fmt, n, i + 1);
            items.push(FmtItem::Literal(fmt.substring_char(i, next).to_owned()));
        }
        proof {
            let seg = items@.last()@;
            assert(step_at(s, i as int) == Ok::<(Segment, int), ScanFailure>((seg, next as int)));
            assert(segments_of(items@) =~= done.push(seg));
            assert(done.push(seg) + scan_from(s, next as int)->Ok_0 =~= done + (seq![seg]
                + scan_from(s, next as int)->Ok_0));
        }
        i = next;
    }
    let ghost scanned = segments_of(items@);
    assert(scan_from(fmt@, 0) == Ok::<Seq<Segment>, ScanFailure>(scanned)) by {
        assert(scanned + Seq::empty() =~= scanned);
    }
    if !has_original_filename(&items) {
        items.push(FmtItem::Metadata(MetadataKind::ImageOriginalFilename));
        assert(segments_of(items@) =~= scanned.push(original_filename()));
    }
    Ok(items)
}

/// Whether some item names the original file's base name.
fn has_original_filename(items: &Vec<FmtItem>) -> (r: bool)
    ensures
        r == segments_of(items@).contains(original_filename()),
{
    let mut i: usize = 0;
    while i < items.len()
        invariant
            i <= items@.len(),
            forall|j: int| 0 <= j < i ==> items@[j]@ != original_filename(),
        decreases items.len() - i,
    {
        if let FmtItem::Metadata(MetadataKind::ImageOriginalFilename) = &items[i] {
            assert(segments_of(items@)[i as int] == original_filename());
            return true;
        }
        i = i + 1;
    }
    assert forall|j: int| 0 <= j < segments_of(items@).len() implies segments_of(items@)[j]
        != original_filename() by {
        assert(items@[j]@ != original_filename());
    }
    false
}

/// How many times the segments name the original file's base name.
pub open spec fn original_filename_count(segs: Seq<Segment>) -> nat {
    segs.to_multiset().count(original_filename())
}

/// A compiled template always names the original file's base name. When the
/// template as written does not, exactly one such reference is appended, at
/// the end; when it names it once, the compiled template names it exactly
/// once too.
pub proof fn lemma_original_filename_once(s: Seq<char>)
    requires
        compile(s) is Ok,
    ensures
        scan_from(s, 0) is Ok,
        compile(s)->Ok_0.contains(original_filename()),
        !scan_from(s, 0)->Ok_0.contains(original_filename()) ==> compile(s)->Ok_0 == scan_from(
            s,
            0,
        )->Ok_0.push(original_filename()) && original_filename_count(compile(s)->Ok_0) == 1,
        original_filename_count(scan_from(s, 0)->Ok_0) <= 1 ==> original_filename_count(
            compile(s)->Ok_0,
        ) == 1,
{
    broadcast use vstd::seq_lib::group_to_multiset_ensures;

    let written = scan_from(s, 0)->Ok_0;
    let segs = compile(s)->Ok_0;
    if !written.contains(original_filename()) {
        assert(segs == written.push(original_filename()));
        assert(segs[written.len() as int] == original_filename());
        assert(written.to_multiset().count(original_filename()) == 0);
    }
}

/// The scan never gives up on a remainder: every refusal it reports is an
/// invalid or an unterminated expansion.
pub proof fn lemma_scan_never_unknown(s: Seq<char>, i: int)
    requires
        0 <= i <= s.len(),
    ensures
        scan_from(s, i) matches Err(f) ==> f.kind != ParseErrorKind::Unknown,
    decreases s.len() - i,
{
    if i < s.len() {
        lemma_step_advances(s, i);
        match step_at(s, i) {
            Ok((_, next)) => {
                lemma_scan_never_unknown(s, next);
            },
            Err(_) => {},
        }
    }
}

} // verus!
