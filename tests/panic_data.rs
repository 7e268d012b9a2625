use std::any::Any;
use std::backtrace::Backtrace;
use std::borrow::Cow;

use chillpill::{PanicData, PanicLocation, Payload};

type AnyPayload = Box<dyn Any + Send>;

/// Builds a record from a payload, a location and a backtrace.
fn make_panic_data(
    payload: Payload<AnyPayload>,
    location: Option<PanicLocation>,
    backtrace: Backtrace,
) -> PanicData<AnyPayload> {
    PanicData { payload, location, backtrace }
}

fn other(value: impl Any + Send) -> Payload<AnyPayload> {
    Payload::Other(Box::new(value))
}

#[test]
fn payload_as_string_str() {
    let panic_data = make_panic_data(Payload::Borrowed("static str"), None, Backtrace::disabled());

    assert_eq!(panic_data.payload_as_string(), Some("static str"));
}

#[test]
fn payload_as_string_string() {
    let panic_data = make_panic_data(
        Payload::Owned(String::from("owned string")),
        None,
        Backtrace::disabled(),
    );

    assert_eq!(panic_data.payload_as_string(), Some("owned string"));
}

#[test]
fn payload_as_string_non_string() {
    let panic_data = make_panic_data(other(42u8), None, Backtrace::disabled());

    assert_eq!(panic_data.payload_as_string(), None);
}

#[test]
fn payload_into_string_str() {
    let panic_data = make_panic_data(Payload::Borrowed("static str"), None, Backtrace::disabled());
    let result = panic_data.payload_into_string();

    assert!(matches!(result, Ok(Cow::Borrowed("static str"))));
}

#[test]
fn payload_into_string_string() {
    let panic_data = make_panic_data(
        Payload::Owned(String::from("owned string")),
        None,
        Backtrace::disabled(),
    );
    let result = panic_data.payload_into_string();

    assert!(matches!(result, Ok(Cow::Owned(ref s)) if s == "owned string"));
}

#[test]
fn payload_into_string_non_string() {
    let panic_data = make_panic_data(other(1234u32), None, Backtrace::disabled());
    let result = panic_data.payload_into_string().unwrap_err();

    match result.payload {
        Payload::Other(payload) => assert_eq!(*payload.downcast::<u32>().unwrap(), 1234u32),
        _ => panic!("the payload should have been handed back untouched"),
    }
}

#[test]
fn payload_into_string_non_string_keeps_location() {
    let location = Some(PanicLocation { file: String::from("example_file.rs"), line: 42, col: 7 });
    let panic_data = make_panic_data(other(vec![1, 2, 3]), location.clone(), Backtrace::disabled());
    let result = panic_data.payload_into_string().unwrap_err();

    assert_eq!(result.location, location);
    match result.payload {
        Payload::Other(payload) => {
            assert_eq!(*payload.downcast::<Vec<i32>>().unwrap(), vec![1, 2, 3]);
        }
        _ => panic!("the payload should have been handed back untouched"),
    }
}

#[test]
fn payload_text_of_empty_message() {
    let panic_data = make_panic_data(Payload::Borrowed(""), None, Backtrace::disabled());

    assert_eq!(panic_data.payload_as_string(), Some(""));
    assert!(matches!(panic_data.payload_into_string(), Ok(Cow::Borrowed(""))));
}

#[test]
fn location_is_written_file_line_col() {
    let location = PanicLocation { file: String::from("example_file.rs"), line: 42, col: 7 };
    assert_eq!(location.to_string(), "example_file.rs:42:7");

    let location = PanicLocation { file: String::from("src/lib.rs"), line: 0, col: 4_294_967_295 };
    assert_eq!(location.to_string(), "src/lib.rs:0:4294967295");
}
