use std::marker::PhantomData;
use std::path::PathBuf;
use vstd::prelude::*;
use vstd::string::StringSliceAdditionalSpecFns;
pub use super::strings::Location;
use tree_sitter::Point;

verus! {

/// Offsets of the `'\n'` bytes of `b`, in increasing order.
pub open spec fn newline_offsets(b: Seq<u8>) -> Seq<usize>
    decreases b.len(),
{
    if b.len() == 0 {
        Seq::empty()
    } else if b.last() == 10u8 {
        newline_offsets(b.drop_last()).push((b.len() - 1) as usize)
    } else {
        newline_offsets(b.drop_last())
    }
}

/// The table of a line resolver for text with the given bytes: the k-th newline, with k.
pub open spec fn line_table(b: Seq<u8>) -> Seq<(usize, usize)> {
    Seq::new(newline_offsets(b).len(), |k: int| (k as usize, newline_offsets(b)[k]))
}

/// The line that an offset lies on, from a table of newlines in increasing order: the number of
/// newlines strictly before the offset, and the offset just after the last of them (0 where
/// there is none).
pub open spec fn lines_before(table: Seq<(usize, usize)>, bound: usize) -> (nat, nat)
    decreases table.len(),
{
    if table.len() == 0 {
        (0, 0)
    } else {
        let (n, start) = lines_before(table.drop_last(), bound);
        if table.last().1 < bound {
            (n + 1, (table.last().1 + 1) as nat)
        } else {
            (n, start)
        }
    }
}

/// The point of an offset: the row is the number of newlines before it, the column counts from
/// just after the last of them.
pub open spec fn resolved_point(table: Seq<(usize, usize)>, offset: usize) -> Point {
    let (row, start) = lines_before(table, offset);
    Point { row: row as usize, column: (offset - start) as usize }
}

/// The number of `'\n'` bytes in `b`.
pub open spec fn newline_count(b: Seq<u8>) -> nat
    decreases b.len(),
{
    if b.len() == 0 {
        0
    } else {
        newline_count(b.drop_last()) + if b.last() == 10u8 { 1nat } else { 0nat }
    }
}

/// Where the line holding the end of `b` starts: just after its last `'\n'`, or 0.
pub open spec fn last_line_start(b: Seq<u8>) -> nat
    decreases b.len(),
{
    if b.len() == 0 {
        0
    } else if b.last() == 10u8 {
        b.len()
    } else {
        last_line_start(b.drop_last())
    }
}

proof fn lemma_newline_offsets_bounded(b: Seq<u8>)
    ensures
        forall|k: int| 0 <= k < newline_offsets(b).len() ==> newline_offsets(b)[k] < b.len(),
        newline_offsets(b).len() <= b.len(),
    decreases b.len(),
{
    if b.len() > 0 {
        lemma_newline_offsets_bounded(b.drop_last());
    }
}

/// Reading the table of a text's newlines up to an offset counts the newlines before the offset
/// and finds where its line starts.
pub proof fn lemma_lines_before_counts(b: Seq<u8>, o: usize)
    requires
        o <= b.len(),
        b.len() <= usize::MAX,
    ensures
        lines_before(line_table(b), o) == (newline_count(b.take(o as int)), last_line_start(b.take(o as int))),
    decreases b.len(),
{
    lemma_newline_offsets_bounded(b);
    if b.len() == 0 {
        assert(b.take(o as int) =~= b);
    } else if o == b.len() {
        lemma_newline_offsets_bounded(b.drop_last());
        lemma_lines_before_counts(b.drop_last(), (o - 1) as usize);
        assert(b.take(o as int) =~= b);
        assert(b.drop_last().take(o - 1) =~= b.drop_last());
        let t = line_table(b);
        let t0 = line_table(b.drop_last());
        if b.last() == 10u8 {
            assert(t.drop_last() =~= t0);
        } else {
            assert(t =~= t0);
        }
        lemma_lines_before_prefix_bound(t0, (o - 1) as usize, o);
    } else {
        lemma_newline_offsets_bounded(b.drop_last());
        lemma_lines_before_counts(b.drop_last(), o);
        assert(b.drop_last().take(o as int) =~= b.take(o as int));
        let t = line_table(b);
        let t0 = line_table(b.drop_last());
        if b.last() == 10u8 {
            assert(newline_offsets(b) == newline_offsets(b.drop_last()).push((b.len() - 1) as usize));
            assert(t.drop_last() =~= t0);
            let nl = newline_offsets(b);
            assert(t.len() == nl.len());
            assert(nl[nl.len() - 1] == b.len() - 1);
            assert(t[t.len() - 1] == ((nl.len() - 1) as usize, nl[nl.len() - 1]));
        } else {
            assert(t =~= t0);
        }
    }
}

/// Where every newline of a table lies before `lo`, reading it up to `lo` or up to `hi >= lo`
/// gives the same.
proof fn lemma_lines_before_prefix_bound(table: Seq<(usize, usize)>, lo: usize, hi: usize)
    requires
        lo <= hi,
        forall|k: int| 0 <= k < table.len() ==> table[k].1 < lo,
    ensures
        lines_before(table, lo) == lines_before(table, hi),
    decreases table.len(),
{
    if table.len() > 0 {
        lemma_lines_before_prefix_bound(table.drop_last(), lo, hi);
    }
}

/// A tool that resolves byte ranges to points (lines, columns).
pub struct LineResolver {
    line_starts: Vec<(usize, usize)>,
}

impl LineResolver {
    /// The table of (index, offset) of each newline.
    pub closed spec fn table(&self) -> Seq<(usize, usize)> {
        self.line_starts@
    }

    /// Every row number in the table can be followed by another.
    pub closed spec fn wf(&self) -> bool {
        forall|k: int| 0 <= k < self.table().len() ==> self.table()[k].0 < usize::MAX
    }

    /// Records where each line break of `text` stands.
    pub fn new(text: &str) -> (r: Self)
        ensures
            r.table() == line_table(text.spec_bytes()),
            r.wf(),
    {
        let bytes = text.as_bytes();
        let mut line_starts: Vec<(usize, usize)> = Vec::new();
        let mut i: usize = 0;
        proof {
            lemma_newline_offsets_bounded(bytes@);
        }
        while i < bytes.len()
            invariant
                i <= bytes@.len(),
                bytes@ == text.spec_bytes(),
                line_starts@ == line_table(bytes@.take(i as int)),
            decreases bytes.len() - i,
        {
            let ghost prev = bytes@.take(i as int);
            let ghost next = bytes@.take(i + 1);
            assert(next.drop_last() =~= prev);
            proof {
                lemma_newline_offsets_bounded(prev);
            }
            if bytes[i] == 10u8 {
                let k = line_starts.len();
                line_starts.push((k, i));
                assert(line_starts@ =~= line_table(next));
            } else {
                assert(line_starts@ =~= line_table(next));
            }
            i = i + 1;
        }
        assert(bytes@.take(bytes@.len() as int) =~= bytes@);
        proof {
            lemma_line_table_rows(bytes@);
        }
        LineResolver { line_starts }
    }

    /// Resolves a byte range to a location: the row of an offset is the number of newlines
    /// before it, and its column counts from just after the last of them.
    pub fn resolve(&self, range: std::ops::Range<usize>) -> (r: Location)
        requires
            self.wf(),
        ensures
            r.start_byte == range.start,
            r.end_byte == range.end,
            r.start_point == resolved_point(self.table(), range.start),
            r.end_point == resolved_point(self.table(), range.end),
    {
        let start = self.lines_before(range.start);
        let end = self.lines_before(range.end);
        Location {
            start_byte: range.start,
            end_byte: range.end,
            start_point: Point { row: start.0, column: range.start - start.1 },
            end_point: Point { row: end.0, column: range.end - end.1 },
        }
    }

    fn lines_before(&self, bound: usize) -> (r: (usize, usize))
        ensures
            r.0 as nat == lines_before(self.table(), bound).0,
            r.1 as nat == lines_before(self.table(), bound).1,
            r.1 <= bound,
    {
        let mut k: usize = 0;
        let mut count: usize = 0;
        let mut start: usize = 0;
        while k < self.line_starts.len()
            invariant
                k <= self.line_starts@.len(),
                count <= k,
                start <= bound,
                (count as nat, start as nat) == lines_before(self.table().take(k as int), bound),
            decreases self.line_starts.len() - k,
        {
            let (_row, offset) = self.line_starts[k];
            assert(self.table().take(k + 1).drop_last() =~= self.table().take(k as int));
            if offset < bound {
                count = count + 1;
                start = offset + 1;
            }
            k = k + 1;
        }
        assert(self.table().take(k as int) =~= self.table());
        (count, start)
    }
}

/// The resolver built by `LineResolver::new` numbers its lines below `usize::MAX`.
pub proof fn lemma_line_table_rows(b: Seq<u8>)
    requires
        b.len() <= usize::MAX,
    ensures
        forall|k: int| 0 <= k < line_table(b).len() ==> line_table(b)[k].0 < usize::MAX,
{
    lemma_newline_offsets_bounded(b);
}

/// A location that knows at least its starting point.
#[derive(Clone, Copy, Debug)]
pub struct MinimalLocation {
    pub start_point: Point,
    pub start_offset: Option<usize>,
    pub end_offset: Option<usize>,
    pub end_point: Option<Point>,
}

/// The location `loc` re-based so that its rows count from `base`'s first row.
pub open spec fn spec_relative_to(
    start: Point,
    end: Option<Point>,
    start_offset: Option<usize>,
    end_offset: Option<usize>,
    base: Point,
) -> MinimalLocation {
    MinimalLocation {
        start_point: Point { row: (start.row + base.row) as usize, column: start.column },
        end_point: match end {
            Some(p) => Some(Point { row: (p.row + base.row) as usize, column: p.column }),
            None => None,
        },
        start_offset,
        end_offset,
    }
}

/// The location shifted by a byte range on its line: columns and offsets move by the range's
/// start (for the start) and end (for the end).
pub open spec fn spec_within_offset_range(
    start: Point,
    end: Option<Point>,
    start_offset: Option<usize>,
    end_offset: Option<usize>,
    range_start: usize,
    range_end: usize,
) -> MinimalLocation {
    MinimalLocation {
        start_point: Point { row: start.row, column: (start.column + range_start) as usize },
        end_point: match end {
            Some(p) => Some(Point { row: p.row, column: (p.column + range_end) as usize }),
            None => None,
        },
        start_offset: match start_offset {
            Some(o) => Some((o + range_start) as usize),
            None => None,
        },
        end_offset: match end_offset {
            Some(o) => Some((o + range_end) as usize),
            None => None,
        },
    }
}

pub open spec fn opt_point_row_fits(p: Option<Point>, add: usize) -> bool {
    match p {
        Some(p) => p.row + add <= usize::MAX,
        None => true,
    }
}

pub open spec fn opt_point_column_fits(p: Option<Point>, add: usize) -> bool {
    match p {
        Some(p) => p.column + add <= usize::MAX,
        None => true,
    }
}

pub open spec fn opt_fits(o: Option<usize>, add: usize) -> bool {
    match o {
        Some(o) => o + add <= usize::MAX,
        None => true,
    }
}

/// A place in a text editor: a starting point, and maybe offsets and an end point.
pub trait EditorLocation {
    spec fn spec_start_point(&self) -> Point;

    spec fn spec_start_offset(&self) -> Option<usize>;

    spec fn spec_end_offset(&self) -> Option<usize>;

    spec fn spec_end_point(&self) -> Option<Point>;

    fn start_point(&self) -> (r: Point)
        ensures
            r == self.spec_start_point(),
    ;

    fn start_offset(&self) -> (r: Option<usize>)
        ensures
            r == self.spec_start_offset(),
    ;

    fn end_offset(&self) -> (r: Option<usize>)
        ensures
            r == self.spec_end_offset(),
    ;

    fn end_point(&self) -> (r: Option<Point>)
        ensures
            r == self.spec_end_point(),
    ;

    /// This location narrowed to a byte range on its line.
    fn within_offset_range(&self, range: std::ops::Range<usize>) -> (r: MinimalLocation)
        requires
            self.spec_start_point().column + range.start <= usize::MAX,
            opt_point_column_fits(self.spec_end_point(), range.end),
            opt_fits(self.spec_start_offset(), range.start),
            opt_fits(self.spec_end_offset(), range.end),
        ensures
            r == spec_within_offset_range(
                self.spec_start_point(),
                self.spec_end_point(),
                self.spec_start_offset(),
                self.spec_end_offset(),
                range.start,
                range.end,
            ),
    {
        let start = self.start_point();
        let end_point = match self.end_point() {
            Some(p) => Some(Point { row: p.row, column: p.column + range.end }),
            None => None,
        };
        let start_offset = match self.start_offset() {
            Some(o) => Some(o + range.start),
            None => None,
        };
        let end_offset = match self.end_offset() {
            Some(o) => Some(o + range.end),
            None => None,
        };
        MinimalLocation {
            start_point: Point { row: start.row, column: start.column + range.start },
            end_point,
            start_offset,
            end_offset,
        }
    }
}

impl EditorLocation for MinimalLocation {
    open spec fn spec_start_point(&self) -> Point {
        self.start_point
    }

    open spec fn spec_start_offset(&self) -> Option<usize> {
        self.start_offset
    }

    open spec fn spec_end_offset(&self) -> Option<usize> {
        self.end_offset
    }

    open spec fn spec_end_point(&self) -> Option<Point> {
        self.end_point
    }

    fn start_point(&self) -> (r: Point) {
        self.start_point
    }

    fn start_offset(&self) -> (r: Option<usize>) {
        self.start_offset
    }

    fn end_offset(&self) -> (r: Option<usize>) {
        self.end_offset
    }

    fn end_point(&self) -> (r: Option<Point>) {
        self.end_point
    }}

impl EditorLocation for Location {
    open spec fn spec_start_point(&self) -> Point {
        self.start_point
    }

    open spec fn spec_start_offset(&self) -> Option<usize> {
        Some(self.start_byte)
    }

    open spec fn spec_end_offset(&self) -> Option<usize> {
        Some(self.end_byte)
    }

    open spec fn spec_end_point(&self) -> Option<Point> {
        Some(self.end_point)
    }

    fn start_point(&self) -> (r: Point) {
        self.start_point
    }

    fn start_offset(&self) -> (r: Option<usize>) {
        Some(self.start_byte)
    }

    fn end_offset(&self) -> (r: Option<usize>) {
        Some(self.end_byte)
    }

    fn end_point(&self) -> (r: Option<Point>) {
        Some(self.end_point)
    }}


/// `loc` with its rows counted from the first row of `other`.
pub fn relative_to<S: EditorLocation, O: EditorLocation>(loc: &S, other: &O) -> (r: MinimalLocation)
    requires
        loc.spec_start_point().row + other.spec_start_point().row <= usize::MAX,
        opt_point_row_fits(loc.spec_end_point(), other.spec_start_point().row),
    ensures
        r == spec_relative_to(
            loc.spec_start_point(),
            loc.spec_end_point(),
            loc.spec_start_offset(),
            loc.spec_end_offset(),
            other.spec_start_point(),
        ),
    {
    let base = other.start_point();
    let start = loc.start_point();
    let end_point = match loc.end_point() {
        Some(p) => Some(Point { row: p.row + base.row, column: p.column }),
        None => None,
    };
    MinimalLocation {
        start_point: Point { row: start.row + base.row, column: start.column },
        end_point,
        start_offset: loc.start_offset(),
        end_offset: loc.end_offset(),
    }
}


/// How grave a diagnostic is.
#[derive(Clone, Copy, Debug, PartialEq, Eq, Structural)]
pub enum Severity {
    Error,
    Warning,
    Info,
    Debug,
}

/// The position of a severity in the order of declaration ranks: debug < info < warning < error.
pub open spec fn severity_rank(s: Severity) -> int {
    match s {
        Severity::Error => 2,
        Severity::Warning => 1,
        Severity::Info => 0,
        Severity::Debug => -1,
    }
}

impl Severity {
    /// The severity's rank read as an unsigned byte (so debug, ranked -1, reads 255).
    pub fn level(&self) -> (r: u8)
        ensures
            r as int == (if severity_rank(*self) < 0 { 256 + severity_rank(*self) } else { severity_rank(*self) }),
    {
        match self {
            Severity::Error => 2,
            Severity::Warning => 1,
            Severity::Info => 0,
            Severity::Debug => 255,
        }
    }

    /// Whether this severity ranks at least as high as `other`.
    pub fn is_at_least(&self, other: &Severity) -> (r: bool)
        ensures
            r == (severity_rank(*self) >= severity_rank(*other)),
    {
        let a: i8 = match self {
            Severity::Error => 2,
            Severity::Warning => 1,
            Severity::Info => 0,
            Severity::Debug => -1,
        };
        let b: i8 = match other {
            Severity::Error => 2,
            Severity::Warning => 1,
            Severity::Info => 0,
            Severity::Debug => -1,
        };
        a >= b
    }

    /// The name of the severity, as printed in front of a diagnostic.
    pub fn as_str(&self) -> (r: &'static str)
        ensures
            r@ == spec_severity_str(*self),
    {
        match self {
            Severity::Error => "error",
            Severity::Warning => "warning",
            Severity::Info => "info",
            Severity::Debug => "debug",
        }
    }

    /// The color in which the console prints the severity's name.
    pub fn color(&self) -> (r: TerminalColor)
        ensures
            r == spec_severity_color(*self),
    {
        match self {
            Severity::Error => TerminalColor::BrightRed,
            Severity::Warning => TerminalColor::BrightYellow,
            Severity::Info => TerminalColor::BrightBlue,
            Severity::Debug => TerminalColor::BrightWhite,
        }
    }

    /// The color in which the console prints the severity's name for an internal diagnostic.
    pub fn internal_color(&self) -> (r: TerminalColor)
        ensures
            r == spec_severity_internal_color(*self),
    {
        match self {
            Severity::Error => TerminalColor::BrightMagenta,
            Severity::Warning => TerminalColor::Yellow,
            Severity::Info => TerminalColor::Blue,
            Severity::Debug => TerminalColor::BrightWhite,
        }
    }
}

/// The colors that the console prints in.
#[derive(Clone, Copy, Debug, PartialEq, Eq, Structural)]
pub enum TerminalColor {
    Yellow,
    Blue,
    BrightRed,
    BrightYellow,
    BrightBlue,
    BrightMagenta,
    BrightWhite,
}

pub open spec fn spec_severity_color(s: Severity) -> TerminalColor {
    match s {
        Severity::Error => TerminalColor::BrightRed,
        Severity::Warning => TerminalColor::BrightYellow,
        Severity::Info => TerminalColor::BrightBlue,
        Severity::Debug => TerminalColor::BrightWhite,
    }
}

pub open spec fn spec_severity_internal_color(s: Severity) -> TerminalColor {
    match s {
        Severity::Error => TerminalColor::BrightMagenta,
        Severity::Warning => TerminalColor::Yellow,
        Severity::Info => TerminalColor::Blue,
        Severity::Debug => TerminalColor::BrightWhite,
    }
}

/// What the console prints in front of a diagnostic: nothing for one below a warning; otherwise
/// the severity's name, followed by `internal` for an internal diagnostic, and its color.
pub fn console_prefix(severity: Severity, internal: bool) -> (r: Option<(String, TerminalColor)>)
    ensures
        severity_rank(severity) < severity_rank(Severity::Warning) ==> r is None,
        severity_rank(severity) >= severity_rank(Severity::Warning) ==> (r matches Some((text, color)) && if internal {
            text@ == spec_severity_str(severity) + "internal"@ && color == spec_severity_internal_color(severity)
        } else {
            text@ == spec_severity_str(severity) && color == spec_severity_color(severity)
        }),
{
    if !severity.is_at_least(&Severity::Warning) {
        return None;
    }
    if internal {
        let mut text = String::from_str(severity.as_str());
        text.append("internal");
        Some((text, severity.internal_color()))
    } else {
        Some((String::from_str(severity.as_str()), severity.color()))
    }
}

pub open spec fn spec_severity_str(s: Severity) -> Seq<char> {
    match s {
        Severity::Error => "error"@,
        Severity::Warning => "warning"@,
        Severity::Info => "info"@,
        Severity::Debug => "debug"@,
    }
}

/// A problem found while compiling documentation.
pub trait Diagnostic<L: EditorLocation> {
    /// How grave the problem is; an error unless the diagnostic says otherwise.
    fn severity(&self) -> (r: Severity)
        default_ensures
            r == Severity::Error,
    {
        Severity::Error
    }

    /// Whether the problem lies in the compiler itself; not unless the diagnostic says so.
    fn is_internal(&self) -> (r: bool)
        default_ensures
            !r,
    {
        false
    }

    /// Where the problem stands; nowhere unless the diagnostic says so.
    fn location(&self) -> (r: Option<L>)
        default_ensures
            r is None,
    {
        None
    }

    /// The file the problem belongs to; none unless the diagnostic says so.
    fn file(&self) -> (r: Option<PathBuf>)
        default_ensures
            r is None,
    {
        None
    }
}

/// A diagnostic moved to another location.
pub struct LocatedDiagnostic<D, NewL, OgL>(pub D, pub NewL, pub PhantomData<OgL>);

impl<D: Diagnostic<OgL>, OgL: EditorLocation, NewL: EditorLocation + Copy> Diagnostic<NewL> for LocatedDiagnostic<D, NewL, OgL> {
    /// Internal where the moved diagnostic is.
    fn is_internal(&self) -> (r: bool)
        ensures
            call_ensures(D::is_internal, (&self.0,), r),
    {
        self.0.is_internal()
    }

    /// The severity of the moved diagnostic.
    fn severity(&self) -> (r: Severity)
        ensures
            call_ensures(D::severity, (&self.0,), r),
    {
        self.0.severity()
    }

    /// The new location.
    fn location(&self) -> (r: Option<NewL>)
        ensures
            r == Some(self.1),
    {
        Some(self.1)
    }
}

/// Diagnostics that can be moved to another location.
pub trait LocationAttachableDiagnostic<OgL: EditorLocation>: Diagnostic<OgL> + Sized {
    fn at<NewL: EditorLocation>(self, location: NewL) -> (r: LocatedDiagnostic<Self, NewL, OgL>)
        ensures
            r.0 == self,
            r.1 == location,
    {
        LocatedDiagnostic(self, location, PhantomData)
    }
}

/// Every diagnostic can be given a location.
impl<D: Diagnostic<L>, L: EditorLocation> LocationAttachableDiagnostic<L> for D {}

/// A diagnostic that belongs to a file.
pub struct FileDiagnostic<D, L>(pub D, pub PathBuf, pub PhantomData<L>);

impl<D: Diagnostic<L>, L: EditorLocation> Diagnostic<L> for FileDiagnostic<D, L> {
    /// Internal where the diagnostic in the file is.
    fn is_internal(&self) -> (r: bool)
        ensures
            call_ensures(D::is_internal, (&self.0,), r),
    {
        self.0.is_internal()
    }

    /// The severity of the diagnostic in the file.
    fn severity(&self) -> (r: Severity)
        ensures
            call_ensures(D::severity, (&self.0,), r),
    {
        self.0.severity()
    }

    /// The location of the diagnostic in the file.
    fn location(&self) -> (r: Option<L>)
        ensures
            call_ensures(D::location, (&self.0,), r),
    {
        self.0.location()
    }

    /// The file.
    fn file(&self) -> (r: Option<PathBuf>)
        ensures
            r == Some(self.1),
    {
        Some(self.1.clone())
    }
}

/// Diagnostics that can be attached to a file.
pub trait FileAttachableDiagnostic<L: EditorLocation>: Diagnostic<L> + Sized {
    fn inside(self, file: PathBuf) -> (r: FileDiagnostic<Self, L>)
        ensures
            r.0 == self,
            r.1 == file,
    {
        FileDiagnostic(self, file, PhantomData)
    }
}

/// Something that takes diagnostics and reports them.
pub trait DiagnosticReporter {
    fn diagnose<D: Diagnostic<L>, L: EditorLocation>(&self, diagnostic: D);
}

/// Reports diagnostics on the console.
#[derive(Clone, Copy)]
pub struct ConsoleDiagnostics;

/// A reporter that attaches a file to every diagnostic before passing it on.
pub struct FileDiagnostics<R>(pub R, pub PathBuf);

/// Reporters that can attach a file to the diagnostics they report.
pub trait FileDiagnosticsExtension: DiagnosticReporter + Sized {
    fn inside(self, file: PathBuf) -> (r: FileDiagnostics<Self>)
        ensures
            r.0 == self,
            r.1 == file,
    {
        FileDiagnostics(self, file)
    }
}

/// What went wrong when a version string was read leniently.
#[derive(Clone, Copy, Debug, PartialEq, Eq, Structural)]
pub enum VersionErrorKind {
    MissingMajorNumber,
    MissingMinorNumber,
    MissingPatchNumber,
    MissingPreRelease,
    MissingBuild,
    NumberOverflow,
    UnexpectedInput,
}

/// A version string that could not be read: what went wrong, and the part of the input at
/// fault.
#[derive(Clone, Debug)]
pub struct VersionError(pub VersionErrorKind, pub String);

/// The message of a version error.
pub open spec fn version_error_message(kind: VersionErrorKind, input: Seq<char>) -> Seq<char> {
    match kind {
        VersionErrorKind::MissingMajorNumber => "missing major version component"@,
        VersionErrorKind::MissingMinorNumber => "missing minor version component"@,
        VersionErrorKind::MissingPatchNumber => "missing patch version component"@,
        VersionErrorKind::MissingPreRelease => "missing pre-release version component"@,
        VersionErrorKind::MissingBuild => "mising build version component"@,
        VersionErrorKind::NumberOverflow => "value '"@ + input + "' overflows when stored in 64-bit integer"@,
        VersionErrorKind::UnexpectedInput => "Unexpected token '"@ + input + "'"@,
    }
}

impl VersionError {
    /// What went wrong, in words; the input at fault is quoted where it is the cause.
    pub fn message(&self) -> (r: String)
        ensures
            r@ == version_error_message(self.0, self.1@),
    {
        match self.0 {
            VersionErrorKind::MissingMajorNumber => String::from_str("missing major version component"),
            VersionErrorKind::MissingMinorNumber => String::from_str("missing minor version component"),
            VersionErrorKind::MissingPatchNumber => String::from_str("missing patch version component"),
            VersionErrorKind::MissingPreRelease => String::from_str("missing pre-release version component"),
            VersionErrorKind::MissingBuild => String::from_str("mising build version component"),
            VersionErrorKind::NumberOverflow =>
                crate::compiler::strings::concat3("value '", self.1.as_str(), "' overflows when stored in 64-bit integer"),
            VersionErrorKind::UnexpectedInput =>
                crate::compiler::strings::concat3("Unexpected token '", self.1.as_str(), "'"),
        }
    }
}

impl<R: DiagnosticReporter> DiagnosticReporter for FileDiagnostics<R> {
    /// Attaches the file to the diagnostic and hands it on.
    fn diagnose<D: Diagnostic<L>, L: EditorLocation>(&self, diagnostic: D) {
        self.0.diagnose(diagnostic.inside(self.1.clone()));
    }
}

impl<R: DiagnosticReporter + Sized> FileDiagnosticsExtension for R {}

impl<D: Diagnostic<L>, L: EditorLocation> FileAttachableDiagnostic<L> for D {}

} // verus!
