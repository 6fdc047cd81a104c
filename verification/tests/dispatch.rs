use tgtb::clock::Instant;
use tgtb::dispatch::{
    respond, respond_with, shape, text_to_encode, Reply, Request, Response, ReturnType,
};
use tgtb::encoder::string_to_brainfuck;
use tgtb::resolver::{Resolution, Status};

/// Midnight UTC on 1 June 2021.
const WINTER: i64 = 1_622_505_600;

/// A draw that lets the request through, and one that fails it.
const PASS: u64 = 0;
const FAIL: u64 = 8_962_163_258_467_287;

const FAILURE_MESSAGE: &str = "unable to calculate time in four hours";

const ID: u128 = 0x67e5_5044_10b1_426f_9247_bb68_0e5f_e0c8;

fn now() -> Instant {
    Instant::new(WINTER, 0).unwrap()
}

fn request(offset: Option<i64>, return_type: Option<&str>) -> Request {
    Request { offset, return_type: return_type.map(|name| name.to_string()) }
}

fn failure_envelope() -> Reply {
    Reply::Json(Response {
        id: ID,
        message: FAILURE_MESSAGE.to_string(),
        status: "failure".to_string(),
        result: None,
    })
}

fn success_envelope(timestamp: &str) -> Reply {
    Reply::Json(Response {
        id: ID,
        message: "result".to_string(),
        status: "success".to_string(),
        result: Some(timestamp.to_string()),
    })
}

#[test]
fn json_success_without_offset_is_four_hours_ahead() {
    let reply = respond_with(&request(None, Some("json")), PASS, now(), ID);
    assert_eq!(reply, success_envelope("2021-06-01T14:00:00+10:00"));
}

#[test]
fn json_success_with_offset_two_is_sixteen_hours_ahead() {
    let reply = respond_with(&request(Some(2), Some("json")), PASS, now(), ID);
    assert_eq!(reply, success_envelope("2021-06-02T02:00:00+10:00"));
}

#[test]
fn absent_parameters_mean_offset_zero_and_json() {
    let reply = respond_with(&request(None, None), PASS, now(), ID);
    assert_eq!(reply, success_envelope("2021-06-01T14:00:00+10:00"));
    assert_eq!(request(None, None).offset_or_default(), 0);
    assert_eq!(request(Some(-4), None).offset_or_default(), -4);
}

#[test]
fn forced_failure_gives_the_failure_envelope_whatever_the_offset() {
    for offset in [None, Some(0), Some(2), Some(-9), Some(i64::MAX)] {
        for return_type in [None, Some("json"), Some("JSON"), Some("yaml")] {
            let reply = respond_with(&request(offset, return_type), FAIL, now(), ID);
            assert_eq!(reply, failure_envelope());
        }
    }
}

#[test]
fn forced_failure_as_brainfuck_encodes_massive_failure() {
    for offset in [None, Some(0), Some(2), Some(i64::MIN)] {
        let reply = respond_with(&request(offset, Some("brainfuck")), FAIL, now(), ID);
        assert_eq!(reply, Reply::Html(string_to_brainfuck("massive failure")));
    }
}

#[test]
fn brainfuck_success_encodes_the_timestamp() {
    let reply = respond_with(&request(Some(2), Some("brainfuck")), PASS, now(), ID);
    assert_eq!(reply, Reply::Html(string_to_brainfuck("2021-06-02T02:00:00+10:00")));
}

#[test]
fn format_name_is_matched_in_any_case() {
    for name in ["brainfuck", "BRAINFUCK", "BrainFuck", "bRAINfUCK"] {
        assert_eq!(ReturnType::select(&Some(name.to_string())), ReturnType::Brainfuck);
    }
    for name in ["json", "JSON", "Json"] {
        assert_eq!(ReturnType::select(&Some(name.to_string())), ReturnType::Json);
    }
}

#[test]
fn format_name_is_lowercased_by_unicode_rules() {
    // U+212A, the Kelvin sign, lowercases to the letter k.
    assert_eq!(ReturnType::select(&Some("brainfuc\u{212a}".to_string())), ReturnType::Brainfuck);
}

#[test]
fn unrecognised_format_falls_back_to_json() {
    let named_json = respond_with(&request(Some(1), Some("json")), PASS, now(), ID);
    for name in ["xml", "", " brainfuck", "brainfuck ", "brain fuck", "jsonp", "html", "bf"] {
        assert_eq!(ReturnType::select(&Some(name.to_string())), ReturnType::Json);
        let reply = respond_with(&request(Some(1), Some(name)), PASS, now(), ID);
        assert_eq!(reply, named_json, "return_type {:?}", name);
    }
    assert_eq!(ReturnType::select(&None), ReturnType::Json);
    assert_eq!(respond_with(&request(Some(1), None), PASS, now(), ID), named_json);
}

#[test]
fn lowercased_name_selects_the_format_exactly() {
    assert_eq!(ReturnType::from_lowercase("brainfuck"), ReturnType::Brainfuck);
    assert_eq!(ReturnType::from_lowercase("json"), ReturnType::Json);
    assert_eq!(ReturnType::from_lowercase("BRAINFUCK"), ReturnType::Json);
    assert_eq!(ReturnType::from_lowercase("brainfuc"), ReturnType::Json);
    assert_eq!(ReturnType::from_lowercase(""), ReturnType::Json);
}

#[test]
fn status_has_its_wire_text_and_message() {
    assert_eq!(Status::Success.as_str(), "success");
    assert_eq!(Status::Failure.as_str(), "failure");
    assert_eq!(Status::Success.message(), "result");
    assert_eq!(Status::Failure.message(), FAILURE_MESSAGE);
}

#[test]
fn envelope_is_built_from_a_resolution() {
    let response = Response::new(ID, Resolution::success("then".to_string()));
    assert_eq!(response.id, ID);
    assert_eq!(response.message, "result");
    assert_eq!(response.status, "success");
    assert_eq!(response.result.as_deref(), Some("then"));
    let response = Response::new(3, Resolution::failure());
    assert_eq!(response.id, 3);
    assert_eq!(response.message, FAILURE_MESSAGE);
    assert_eq!(response.status, "failure");
    assert_eq!(response.result, None);
}

#[test]
fn encoder_is_given_the_timestamp_or_massive_failure() {
    assert_eq!(text_to_encode(Resolution::success("soon".to_string())), "soon");
    assert_eq!(text_to_encode(Resolution::failure()), "massive failure");
}

#[test]
fn shape_follows_the_format() {
    assert_eq!(
        shape(ReturnType::Json, ID, Resolution::success("soon".to_string())),
        success_envelope("soon")
    );
    assert_eq!(
        shape(ReturnType::Brainfuck, ID, Resolution::success("soon".to_string())),
        Reply::Html(string_to_brainfuck("soon"))
    );
    assert_eq!(shape(ReturnType::Json, ID, Resolution::failure()), failure_envelope());
}

#[test]
fn envelope_has_a_result_exactly_on_success() {
    for draw in [PASS, FAIL, 8_917_127_262_193_582, 8_917_127_262_193_583] {
        for offset in [None, Some(3), Some(i64::MAX)] {
            match respond_with(&request(offset, None), draw, now(), ID) {
                Reply::Json(response) => {
                    assert!(response.status == "success" || response.status == "failure");
                    assert_eq!(response.result.is_some(), response.status == "success");
                }
                Reply::Html(program) => panic!("unexpected program {:?}", program),
            }
        }
    }
}

#[test]
fn respond_makes_a_fresh_random_identifier_each_time() {
    let mut seen = Vec::new();
    for _ in 0..50 {
        match respond(&request(None, None)) {
            Reply::Json(response) => {
                assert_eq!((response.id >> 76) & 0xf, 4, "version of {:032x}", response.id);
                assert_eq!((response.id >> 62) & 0x3, 2, "variant of {:032x}", response.id);
                assert!(!seen.contains(&response.id));
                seen.push(response.id);
                assert_eq!(response.result.is_some(), response.status == "success");
                assert_eq!(response.result.is_some(), response.message == "result");
                assert_eq!(response.result.is_none(), response.message == FAILURE_MESSAGE);
            }
            Reply::Html(program) => panic!("unexpected program {:?}", program),
        }
    }
}

#[test]
fn respond_as_brainfuck_gives_a_program_that_prints_a_timestamp_or_the_failure_text() {
    for _ in 0..50 {
        match respond(&request(Some(1), Some("Brainfuck"))) {
            Reply::Html(program) => {
                let mut cell: u8 = 0;
                let mut printed = Vec::new();
                for instruction in program.chars() {
                    match instruction {
                        '+' => cell = cell.wrapping_add(1),
                        '-' => cell = cell.wrapping_sub(1),
                        '.' => printed.push(cell),
                        other => panic!("unexpected instruction {:?}", other),
                    }
                }
                let text = String::from_utf8(printed).expect("ASCII text");
                assert!(
                    text == "massive failure"
                        || chrono::DateTime::parse_from_rfc3339(&text).is_ok(),
                    "printed {:?}",
                    text
                );
            }
            Reply::Json(response) => panic!("unexpected envelope {:?}", response),
        }
    }
}
