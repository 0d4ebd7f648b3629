use argon::compiler::diagnostics::{
    console_prefix, Diagnostic, FileDiagnostic, LocatedDiagnostic, MinimalLocation, Severity, TerminalColor,
};
use argon::compiler::diagnostics::LineResolver;
use argon::driver::TargetError;
use std::marker::PhantomData;
use std::path::PathBuf;
use tree_sitter::Point;

#[test]
fn severities_have_console_colors() {
    assert_eq!(Severity::Error.color(), TerminalColor::BrightRed);
    assert_eq!(Severity::Warning.color(), TerminalColor::BrightYellow);
    assert_eq!(Severity::Info.internal_color(), TerminalColor::Blue);
    assert_eq!(Severity::Error.internal_color(), TerminalColor::BrightMagenta);
}

#[test]
fn console_prints_warnings_and_errors_only() {
    assert_eq!(console_prefix(Severity::Error, false), Some(("error".to_string(), TerminalColor::BrightRed)));
    assert_eq!(
        console_prefix(Severity::Warning, true),
        Some(("warninginternal".to_string(), TerminalColor::Yellow))
    );
    assert_eq!(console_prefix(Severity::Info, false), None);
    assert_eq!(console_prefix(Severity::Debug, true), None);
}

#[test]
fn diagnostics_keep_what_they_wrap() {
    let loc = MinimalLocation { start_point: Point { row: 1, column: 2 }, start_offset: None, end_offset: None, end_point: None };
    let e = TargetError::InvalidTargetConfiguration("t".to_string());
    assert!(!<TargetError as Diagnostic<MinimalLocation>>::is_internal(&e));
    assert!(<TargetError as Diagnostic<MinimalLocation>>::location(&e).is_none());
    let located: LocatedDiagnostic<TargetError, MinimalLocation, MinimalLocation> = LocatedDiagnostic(e, loc, PhantomData);
    assert_eq!(located.severity(), Severity::Error);
    assert_eq!(located.location().map(|l| l.start_point.column), Some(2));
    let filed: FileDiagnostic<_, MinimalLocation> = FileDiagnostic(located, PathBuf::from("a.c"), PhantomData);
    assert_eq!(filed.file(), Some(PathBuf::from("a.c")));
    assert_eq!(filed.location().map(|l| l.start_point.row), Some(1));
    assert!(!filed.is_internal());
}

#[test]
fn lines_are_counted_by_the_newlines_before() {
    let r = LineResolver::new("a\nb\nc");
    let l = r.resolve(4..5);
    assert_eq!((l.start_byte, l.end_byte), (4, 5));
    assert_eq!((l.start_point.row, l.start_point.column), (2, 0));
    assert_eq!((l.end_point.row, l.end_point.column), (2, 1));
    let l = r.resolve(0..2);
    assert_eq!((l.start_point.row, l.start_point.column), (0, 0));
    assert_eq!((l.end_point.row, l.end_point.column), (1, 0));
}
