use xs_check::diagnostics::ErrorKind;
use xs_check::span::Span;
use xs_check::type_check::util::chk_int_lit;

#[test]
fn int_literal_of_nine_digits_is_accepted() {
    let span = Span { start: 0, end: 9 };
    assert!(chk_int_lit(&999_999_999, &span).is_empty());
    assert!(chk_int_lit(&-999_999_999, &span).is_empty());
}

#[test]
fn int_literal_of_ten_digits_is_a_type_error() {
    let span = Span { start: 3, end: 13 };
    let errs = chk_int_lit(&1_000_000_000, &span);
    assert_eq!(errs.len(), 1);
    assert_eq!(errs[0].kind, ErrorKind::Type);
    assert_eq!(errs[0].msg, "`int` literals cannot have more than 9 digits");
    assert_eq!(errs[0].span, span);
}
