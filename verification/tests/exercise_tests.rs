use rust_servers::exercises::async_workers::{Cruncher, Fetcher, Worker};
use rust_servers::exercises::employee::Employee;
use rust_servers::exercises::anyhow_errors;
use rust_servers::exercises::parsing::{parse_number, parse_trimmed, read_and_parse, AppError, ParseFailure};
use std::num::IntErrorKind;
use rust_servers::exercises::traffic_light::{instruction, TrafficLight};
use rust_servers::exercises::generic_bound::Greeter as BoundGreeter;
use rust_servers::exercises::trait_basic::Greeter as BasicGreeter;
use rust_servers::exercises::trait_multi_impl::Greeter as MultiGreeter;
use rust_servers::exercises::trait_objects::Greeter as ObjectGreeter;
use rust_servers::exercises::{generic_bound, trait_basic, trait_multi_impl, trait_objects};

#[test]
fn instructions_for_each_light() {
    assert_eq!(instruction(&TrafficLight::Red), "Stop");
    assert_eq!(instruction(&TrafficLight::Yellow), "Slow down");
    assert_eq!(instruction(&TrafficLight::Green), "Go");
    assert_eq!(instruction(&TrafficLight::FlashingYellow(5)), "Flashing yellow, 5s left");
}

#[test]
fn flashing_yellow_renders_all_digits() {
    assert_eq!(instruction(&TrafficLight::FlashingYellow(0)), "Flashing yellow, 0s left");
    assert_eq!(instruction(&TrafficLight::FlashingYellow(10)), "Flashing yellow, 10s left");
    assert_eq!(
        instruction(&TrafficLight::FlashingYellow(u32::MAX)),
        "Flashing yellow, 4294967295s left"
    );
}

#[test]
fn employee_description() {
    let e = Employee { name: "Alex".to_string(), age: 30 };
    assert_eq!(e.describe(), "Alex is 30 years old");
    let f = Employee { name: String::new(), age: 7 };
    assert_eq!(f.describe(), " is 7 years old");
}

#[test]
fn parse_accepts_signed_decimals() {
    assert_eq!(parse_number("42").unwrap(), 42);
    assert_eq!(parse_number("+7").unwrap(), 7);
    assert_eq!(parse_number("-15").unwrap(), -15);
    assert_eq!(parse_number("007").unwrap(), 7);
    assert_eq!(parse_number("2147483647").unwrap(), i32::MAX);
    assert_eq!(parse_number("-2147483648").unwrap(), i32::MIN);
}

#[test]
fn parse_rejects_everything_else() {
    assert!(parse_number("not a number").is_err());
    assert!(parse_number("").is_err());
    assert!(parse_number("-").is_err());
    assert!(parse_number("+").is_err());
    assert!(parse_number(" 42").is_err());
    assert!(parse_number("4 2").is_err());
    assert!(parse_number("2147483648").is_err());
    assert!(parse_number("-2147483649").is_err());
    assert!(parse_number("+-1").is_err());
}

#[test]
fn parse_trimmed_ignores_surrounding_white_space() {
    assert_eq!(parse_trimmed("  42\n").unwrap(), 42);
    assert_eq!(parse_trimmed("\t-3 \r\n").unwrap(), -3);
    assert_eq!(parse_trimmed("\u{3000}8\u{a0}").unwrap(), 8);
    assert!(parse_trimmed(" 4 2 ").is_err());
    assert!(parse_trimmed("   ").is_err());
}

#[test]
fn read_and_parse_reports_read_failure() {
    let err = std::io::Error::new(std::io::ErrorKind::NotFound, "no such file");
    match read_and_parse(Err(err)) {
        Err(AppError::Io(e)) => assert_eq!(e.kind(), std::io::ErrorKind::NotFound),
        other => panic!("unexpected {:?}", other),
    }
}

#[test]
fn read_and_parse_reports_parse_failure() {
    match read_and_parse(Ok("forty two\n".to_string())) {
        Err(AppError::Parse(e)) => {
            assert_eq!(e.kind, ParseFailure::InvalidDigit);
            assert_eq!(e.source.kind(), &IntErrorKind::InvalidDigit);
            assert_eq!(e.source.to_string(), "invalid digit found in string");
        }
        other => panic!("unexpected {:?}", other),
    }
}

#[test]
fn read_and_parse_reads_trimmed_number() {
    assert_eq!(read_and_parse(Ok("  123\n".to_string())).unwrap(), 123);
}

#[test]
fn basic_greeter() {
    let p = trait_basic::Person { name: "Manish".to_string() };
    assert_eq!(p.greet(), "Hello, my name is Manish");
}

#[test]
fn generic_bound_greeters() {
    let p = generic_bound::Person { name: "Manish".to_string() };
    let r = generic_bound::Robot { id: 123 };
    assert_eq!(p.name(), "Person:Manish");
    assert_eq!(p.greet(), "Hello, my name is Person:Manish");
    assert_eq!(r.name(), "Unit-123");
    assert_eq!(r.greet(), "BEEP BOOP I AM Unit-123");
}

#[test]
fn multi_impl_greeters() {
    let p = trait_multi_impl::Person { name: "manish".to_string() };
    let r = trait_multi_impl::Robot { id: 123 };
    assert_eq!(p.greet(), "Hello, my name is PersonName: manish");
    assert_eq!(r.greet(), "BEEP BOOP I AM Unit-123");
}

#[test]
fn trait_object_greeters() {
    let greeters: Vec<Box<dyn ObjectGreeter>> = vec![
        Box::new(trait_objects::Person { name: "Manish".to_string() }),
        Box::new(trait_objects::Robot { id: 123 }),
    ];
    let said: Vec<String> = greeters.iter().map(|g| g.greet()).collect();
    assert_eq!(said, vec!["Hello, my name is Person:Manish", "BEEP BOOP I AM Unit-123"]);
}

#[test]
fn workers_report_their_message() {
    assert_eq!(Fetcher {}.run(), "hello from Fetcher");
    assert_eq!(Cruncher {}.run(), "Hello from Cruncher");
}

fn kind(input: &str) -> ParseFailure {
    parse_number(input).unwrap_err().kind
}

#[test]
fn parse_error_kinds() {
    assert_eq!(kind(""), ParseFailure::Empty);
    assert_eq!(kind("not a number"), ParseFailure::InvalidDigit);
    assert_eq!(kind("-"), ParseFailure::InvalidDigit);
    assert_eq!(kind("+"), ParseFailure::InvalidDigit);
    assert_eq!(kind(" 42"), ParseFailure::InvalidDigit);
    assert_eq!(kind("42\n"), ParseFailure::InvalidDigit);
    assert_eq!(kind("2147483648"), ParseFailure::PosOverflow);
    assert_eq!(kind("-2147483649"), ParseFailure::NegOverflow);
}

#[test]
fn parse_error_kind_matches_std() {
    for input in ["", "x", "-", "12a", "99999999999", "-99999999999"] {
        let e = parse_number(input).unwrap_err();
        let expected = match e.source.kind() {
            IntErrorKind::Empty => ParseFailure::Empty,
            IntErrorKind::InvalidDigit => ParseFailure::InvalidDigit,
            IntErrorKind::PosOverflow => ParseFailure::PosOverflow,
            IntErrorKind::NegOverflow => ParseFailure::NegOverflow,
            _ => ParseFailure::Other,
        };
        assert_eq!(e.kind, expected);
    }
}

#[test]
fn parse_round_trip() {
    for n in [0, 1, -1, 42, i32::MAX, i32::MIN, 123456789] {
        assert_eq!(parse_number(&n.to_string()).unwrap(), n);
    }
}

#[test]
fn anyhow_read_failure_carries_context() {
    let err = std::io::Error::new(std::io::ErrorKind::NotFound, "no such file");
    let e = anyhow_errors::read_and_parse(Err(err)).unwrap_err();
    assert_eq!(e.to_string(), "failed to read input file");
    assert!(format!("{e:?}").contains("no such file"));
}

#[test]
fn anyhow_parse_failure() {
    let e = anyhow_errors::read_and_parse(Ok("abc".to_string())).unwrap_err();
    assert_eq!(e.to_string(), "invalid digit found in string");
}

#[test]
fn anyhow_reads_trimmed_number() {
    assert_eq!(anyhow_errors::read_and_parse(Ok("42\n".to_string())).unwrap(), 42);
    assert_eq!(anyhow_errors::read_and_parse(Ok("  42  ".to_string())).unwrap(), 42);
}

#[test]
fn same_trimmed_text_same_outcome() {
    assert_eq!(read_and_parse(Ok("42".to_string())).unwrap(), 42);
    assert_eq!(read_and_parse(Ok("  42\n".to_string())).unwrap(), 42);
}

#[test]
fn no_two_lights_share_an_instruction() {
    let lights = [
        TrafficLight::Red,
        TrafficLight::Yellow,
        TrafficLight::Green,
        TrafficLight::FlashingYellow(1),
        TrafficLight::FlashingYellow(10),
        TrafficLight::FlashingYellow(100),
    ];
    let texts: Vec<String> = lights.iter().map(instruction).collect();
    for i in 0..texts.len() {
        assert!(!texts[i].is_empty());
        for j in 0..i {
            assert_ne!(texts[i], texts[j]);
        }
    }
}

#[test]
fn same_trimmed_text_same_error() {
    let a = match read_and_parse(Ok("99999999999x".to_string())) {
        Err(AppError::Parse(e)) => e,
        other => panic!("unexpected {:?}", other),
    };
    let b = match read_and_parse(Ok("  99999999999x\n".to_string())) {
        Err(AppError::Parse(e)) => e,
        other => panic!("unexpected {:?}", other),
    };
    assert_eq!(a.kind, b.kind);
    assert_eq!(a.source, b.source);
    let c = anyhow_errors::read_and_parse(Ok("x".to_string())).unwrap_err();
    let d = anyhow_errors::read_and_parse(Ok(" x ".to_string())).unwrap_err();
    assert_eq!(c.to_string(), d.to_string());
}

#[test]
fn anyhow_read_failure_keeps_read_error_as_cause() {
    let err = std::io::Error::new(std::io::ErrorKind::NotFound, "no such file");
    let e = anyhow_errors::read_and_parse(Err(err)).unwrap_err();
    let chain: Vec<String> = e.chain().map(|c| c.to_string()).collect();
    assert_eq!(chain, vec!["failed to read input file".to_string(), "no such file".to_string()]);
    let cause = e.source().unwrap().downcast_ref::<std::io::Error>().unwrap();
    assert_eq!(cause.kind(), std::io::ErrorKind::NotFound);
}

#[test]
fn anyhow_parse_failure_is_the_parse_error_alone() {
    let e = anyhow_errors::read_and_parse(Ok(" 12x ".to_string())).unwrap_err();
    assert_eq!(e.chain().count(), 1);
    let pe = e.downcast_ref::<std::num::ParseIntError>().unwrap();
    assert_eq!(pe.kind(), &IntErrorKind::InvalidDigit);
    assert_eq!(e.to_string(), pe.to_string());
}
