use line_sum::{convert_vec, file_sum, split_lines, sum_lines, Error, ErrorCause};

const TRUE_TXT: &str = "1\n34\n332\n67\n9980\n";
const FAIL_TXT: &str = "1\n34\nabc\n67\n";

fn not_found() -> std::io::Error {
    std::io::Error::from_raw_os_error(2)
}

fn text(s: &str) -> Result<String, std::io::Error> {
    Ok(s.to_string())
}

#[test]
fn test_convert_vec() {
    let res = convert_vec(text(TRUE_TXT));

    assert_eq!(res.unwrap(), vec!["1", "34", "332", "67", "9980"]);
}

#[test]
fn test_convert_vec_notfile() {
    let res = file_sum(Err(not_found()));

    assert_eq!(
        format!("{:?}", res.unwrap_err()),
        r#"Io(Os { code: 2, kind: NotFound, message: "No such file or directory" })"#
    );
}

#[test]
fn test_convert_emptyfile() {
    let res = file_sum(text(""));

    let ans = res.unwrap_err();

    assert_eq!(ans.description(), "empty vectors not allowed");

    assert_eq!(format!("{:?}", ans), "EmptyVec")
}

#[test]
fn test_sum_true_file() {
    let res = file_sum(text(TRUE_TXT));

    assert_eq!(res.unwrap(), 10414);
}

#[test]
fn test_sum_fail_file() {
    let res = file_sum(text(FAIL_TXT));

    assert_eq!(
        format!("{:?}", res.unwrap_err()),
        "Parse(ParseIntError { kind: InvalidDigit })"
    );
}

#[test]
fn test_sum_notfile() {
    let res = file_sum(Err(not_found()));

    assert_eq!(
        format!("{:?}", res.unwrap_err()),
        r#"Io(Os { code: 2, kind: NotFound, message: "No such file or directory" })"#
    );
}

#[test]
fn sum_without_final_newline() {
    assert_eq!(file_sum(text("1\n34\n332\n67\n9980")).unwrap(), 10414);
}

#[test]
fn sum_with_signs_and_crlf() {
    assert_eq!(file_sum(text("-5\r\n+7\r\n10\r\n")).unwrap(), 12);
    assert_eq!(file_sum(text("0\n-0\n+0")).unwrap(), 0);
}

#[test]
fn sum_of_one_line() {
    assert_eq!(file_sum(text("42")).unwrap(), 42);
    assert_eq!(file_sum(text("-2147483648")).unwrap(), i32::MIN);
    assert_eq!(file_sum(text("2147483647\n")).unwrap(), i32::MAX);
}

#[test]
fn sum_wraps_on_overflow() {
    assert_eq!(file_sum(text("2147483647\n1")).unwrap(), i32::MIN);
    assert_eq!(file_sum(text("-2147483648\n-1")).unwrap(), i32::MAX);
    assert_eq!(file_sum(text("2147483647\n2147483647\n2")).unwrap(), 0);
}

#[test]
fn sum_stops_at_first_bad_line() {
    let err = file_sum(text("1\nx\n99999999999\n")).unwrap_err();
    assert_eq!(format!("{:?}", err), "Parse(ParseIntError { kind: InvalidDigit })");
    let err = file_sum(text("1\n99999999999\nx\n")).unwrap_err();
    assert_eq!(format!("{:?}", err), "Parse(ParseIntError { kind: PosOverflow })");
}

#[test]
fn sum_rejects_out_of_range_and_blank_lines() {
    let err = file_sum(text("2147483648")).unwrap_err();
    assert_eq!(format!("{:?}", err), "Parse(ParseIntError { kind: PosOverflow })");
    let err = file_sum(text("-2147483649")).unwrap_err();
    assert_eq!(format!("{:?}", err), "Parse(ParseIntError { kind: NegOverflow })");
    let err = file_sum(text("\n")).unwrap_err();
    assert_eq!(format!("{:?}", err), "Parse(ParseIntError { kind: Empty })");
    let err = file_sum(text(" 1")).unwrap_err();
    assert_eq!(format!("{:?}", err), "Parse(ParseIntError { kind: InvalidDigit })");
    let err = file_sum(text("-")).unwrap_err();
    assert_eq!(format!("{:?}", err), "Parse(ParseIntError { kind: InvalidDigit })");
    let err = file_sum(text("+-1")).unwrap_err();
    assert_eq!(format!("{:?}", err), "Parse(ParseIntError { kind: InvalidDigit })");
}

#[test]
fn split_lines_keeps_order_and_drops_endings() {
    assert_eq!(split_lines("a\r\nb\n"), vec!["a", "b"]);
    assert_eq!(split_lines("a\n\nb"), vec!["a", "", "b"]);
    assert_eq!(split_lines("a\r"), vec!["a\r"]);
    assert_eq!(split_lines("\n"), vec![""]);
    assert!(split_lines("").is_empty());
    assert_eq!(split_lines("x\ny\nz\n").len(), 3);
}

#[test]
fn convert_vec_errors() {
    let err = convert_vec(text("")).unwrap_err();
    assert!(matches!(err, Error::EmptyVec));
    let err = convert_vec(Err(not_found())).unwrap_err();
    match err {
        Error::Io(e) => assert_eq!(e.kind(), std::io::ErrorKind::NotFound),
        other => panic!("unexpected {:?}", other),
    }
    assert_eq!(convert_vec(text("\n")).unwrap(), vec![""]);
}

#[test]
fn sum_lines_on_vector() {
    let lines = vec!["3".to_string(), "-4".to_string(), "10".to_string()];
    assert_eq!(sum_lines(&lines).unwrap(), 9);
    assert_eq!(sum_lines(&Vec::new()).unwrap(), 0);
    let bad = vec!["3".to_string(), "4.5".to_string()];
    assert!(matches!(sum_lines(&bad), Err(Error::Parse(_))));
}

#[test]
fn error_messages() {
    assert_eq!(
        Error::EmptyVec.message(),
        "please use a vector with at least one element"
    );
    let parse = file_sum(text("abc")).unwrap_err();
    assert_eq!(parse.message(), "invalid digit found in string");
    let cause = "abc".parse::<i32>().unwrap_err();
    #[allow(deprecated)]
    let parse_description = std::error::Error::description(&cause).to_string();
    assert_eq!(parse.description(), parse_description);
    let io = Error::from(not_found());
    assert_eq!(io.message(), not_found().to_string());
    #[allow(deprecated)]
    let io_description = std::error::Error::description(&not_found()).to_string();
    assert_eq!(io.description(), io_description);
}

#[test]
fn error_causes() {
    assert!(Error::EmptyVec.cause().is_none());
    let parse = file_sum(text("abc")).unwrap_err();
    match parse.cause() {
        Some(ErrorCause::Parse(e)) => {
            assert_eq!(*e.kind(), std::num::IntErrorKind::InvalidDigit)
        }
        other => panic!("unexpected {:?}", other),
    }
    let io = Error::from(not_found());
    match io.cause() {
        Some(ErrorCause::Io(e)) => assert_eq!(e.raw_os_error(), Some(2)),
        other => panic!("unexpected {:?}", other),
    }
}

#[test]
fn conversions_wrap_causes() {
    let e = "12a".parse::<i32>().unwrap_err();
    assert!(matches!(Error::from(e), Error::Parse(_)));
    assert!(matches!(Error::from(not_found()), Error::Io(_)));
}
