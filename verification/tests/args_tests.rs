use rboy::args::parse_scale_var;
use rboy::util::handle_io;

#[test]
fn scale_in_range() {
    assert_eq!(parse_scale_var("1").ok(), Some(1));
    assert_eq!(parse_scale_var("8").ok(), Some(8));
    assert_eq!(parse_scale_var("+2").ok(), Some(2));
}

#[test]
fn scale_too_small() {
    match parse_scale_var("0") {
        Err(e) => assert_eq!(e.message, "Scale must be at least 1"),
        Ok(_) => panic!("accepted 0"),
    }
}

#[test]
fn scale_too_large() {
    match parse_scale_var("9") {
        Err(e) => assert_eq!(e.message, "Scale may be at most 8"),
        Ok(_) => panic!("accepted 9"),
    }
}

#[test]
fn scale_not_a_number() {
    for arg in ["", "x", "-1", "99999999999", " 3"] {
        match parse_scale_var(arg) {
            Err(e) => {
                let detail = arg.parse::<u32>().unwrap_err().to_string();
                assert_eq!(e.message, format!("Could not parse scale: {}", detail));
            },
            Ok(_) => panic!("accepted {:?}", arg),
        }
    }
}

#[test]
fn scale_error_carries_the_parse_error() {
    match parse_scale_var("x") {
        Err(e) => assert_eq!(e.message, "Could not parse scale: invalid digit found in string"),
        Ok(_) => panic!("accepted x"),
    }
}

#[test]
fn io_errors_become_messages() {
    let ok: std::io::Result<u32> = Ok(5);
    assert_eq!(handle_io(ok, "failed"), Ok(5));
    let err: std::io::Result<u32> = Err(std::io::Error::new(std::io::ErrorKind::Other, "boom"));
    assert_eq!(handle_io(err, "failed"), Err("failed"));
}
