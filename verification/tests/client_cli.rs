use aurora::cli::{
    direct_apply_refusal, effect_name, lighting_for_set, list_lines, outcome, parse_brightness, parse_colors,
    parse_direction, parse_effect,
};
use aurora::client::{judge_handshake, line_refusal, reply_step, ClientError, HandshakeVerdict, ReplyStep};
use aurora::effects::{Brightness, Direction, Effects};
use aurora::ipc::{ErrorKind, Event, EventEnvelope, Response, ResponseEnvelope, ServerMessage, PROTOCOL_VERSION};

#[test]
fn colors_parse_as_four_triplets() {
    assert_eq!(
        parse_colors("255,0,0, 255,255,0,0,0,255,255,128,0"),
        Ok([255, 0, 0, 255, 255, 0, 0, 0, 255, 255, 128, 0])
    );
}

#[test]
fn a_bad_color_value_is_named_as_written() {
    assert_eq!(parse_colors("1,2, 300,4"), Err("' 300' is not a number between 0 and 255".to_string()));
    assert_eq!(parse_colors(""), Err("'' is not a number between 0 and 255".to_string()));
}

#[test]
fn the_wrong_number_of_colors_is_counted() {
    assert_eq!(
        parse_colors("1,2,3"),
        Err("expected 12 comma-separated values (4 RGB triplets), got 3".to_string())
    );
}

#[test]
fn effects_brightness_and_direction_parse_by_name() {
    assert!(matches!(parse_effect("Wave"), Ok(Effects::Wave)));
    assert!(matches!(parse_effect("AmbientLight"), Ok(Effects::AmbientLight { fps: 0, .. })));
    let refused = parse_effect("wave").unwrap_err();
    assert!(refused.starts_with("unknown effect 'wave', expected one of: Static, Breath, Smooth, Wave"));
    assert!(refused.ends_with("Ripple, Battery"));
    assert_eq!(parse_brightness("High"), Ok(Brightness::High));
    assert_eq!(parse_brightness("high"), Err("unknown brightness 'high', expected Low or High".to_string()));
    assert_eq!(parse_direction("Right"), Ok(Direction::Right));
    assert_eq!(parse_direction("Up"), Err("unknown direction 'Up', expected Left or Right".to_string()));
}

#[test]
fn set_needs_colors_only_for_effects_that_show_them() {
    let refused = lighting_for_set(Effects::Static, None, Brightness::Low, 1, None).unwrap_err();
    assert_eq!(refused, "the Static effect requires --colors");

    let wave = lighting_for_set(Effects::Wave, Some([9; 12]), Brightness::High, 2, None).expect("no colors needed");
    assert_eq!(wave.rgb_array(), [0; 12]);
    assert_eq!(wave.direction, Direction::Left);

    let colors = [1, 2, 3, 4, 5, 6, 7, 8, 9, 10, 11, 12];
    let lit = lighting_for_set(Effects::Breath, Some(colors), Brightness::Low, 3, Some(Direction::Right)).unwrap();
    assert_eq!(lit.rgb_array(), colors);
    assert_eq!(lit.speed, 3);
}

#[test]
fn the_effect_list_is_numbered_from_one() {
    let lines = list_lines();
    assert_eq!(lines[0], "List of available effects:");
    assert_eq!(lines[1], "1. Static");
    assert_eq!(lines[14], "14. Battery");
    assert_eq!(lines.len(), 15);
    assert_eq!(effect_name(Effects::Christmas), "Christmas");
}

#[test]
fn answers_read_as_outcomes() {
    assert_eq!(outcome(Ok(Response::Done), "done"), Ok("done".to_string()));
    assert_eq!(
        outcome(Ok(Response::Error { kind: ErrorKind::NoSuchProfile, message: "no".to_string() }), "done"),
        Err("NoSuchProfile: no".to_string())
    );
    assert_eq!(
        outcome(Err(ClientError::Protocol("bad".to_string())), "done"),
        Err("protocol error: bad".to_string())
    );
    assert_eq!(outcome(Ok(Response::Hello { protocol_version: 2, daemon_version: "x".to_string() }), "done"), Err("unexpected response type".to_string()));
}

#[test]
fn software_effects_need_a_daemon() {
    assert!(direct_apply_refusal(Effects::Wave).is_none());
    assert_eq!(
        direct_apply_refusal(Effects::Disco).as_deref(),
        Some("no daemon is running, and the Disco effect needs one (it is software-driven).")
    );
}

#[test]
fn the_handshake_agrees_refuses_or_tolerates() {
    let hello = Response::Hello { protocol_version: PROTOCOL_VERSION, daemon_version: "1.0".to_string() };
    assert!(matches!(judge_handshake(&hello), HandshakeVerdict::Agreed));

    let old = Response::Hello { protocol_version: 1, daemon_version: "0.9".to_string() };
    match judge_handshake(&old) {
        HandshakeVerdict::Refused(ClientError::Protocol(message)) => assert_eq!(
            message,
            "daemon 0.9 speaks protocol v1, this CLI speaks v2; update the older side"
        ),
        other => panic!("expected a refusal, got {other:?}"),
    }

    let predates = Response::Error { kind: ErrorKind::InvalidRequest, message: "?".to_string() };
    assert!(matches!(judge_handshake(&predates), HandshakeVerdict::DaemonPredatesHandshake));
    assert!(matches!(judge_handshake(&Response::Done), HandshakeVerdict::Unexpected));
}

#[test]
fn only_the_requests_own_response_is_taken() {
    let own = ServerMessage::Response(ResponseEnvelope { id: 7, resp: Response::Done });
    assert!(matches!(reply_step(7, false, own), ReplyStep::Take(Response::Done)));

    let other = ServerMessage::Response(ResponseEnvelope { id: 8, resp: Response::Done });
    match reply_step(7, false, other) {
        ReplyStep::Fail(ClientError::Protocol(message)) => {
            assert_eq!(message, "response id 8 does not match request id 7")
        },
        _ => panic!("a mismatched id must fail"),
    }

    let unattributed = ServerMessage::Response(ResponseEnvelope {
        id: 0,
        resp: Response::Error { kind: ErrorKind::InvalidRequest, message: "x".to_string() },
    });
    assert!(matches!(reply_step(7, true, unattributed), ReplyStep::Take(Response::Error { .. })));

    let core = aurora::daemon::Core::new(aurora::settings::Settings::default_settings(), false, "1".to_string());
    let event = ServerMessage::Event(EventEnvelope { event: Event::StateChanged { state: core.state_snapshot() } });
    assert!(matches!(reply_step(7, false, event), ReplyStep::Skip));
}

#[test]
fn empty_and_oversized_lines_end_the_wait() {
    assert!(matches!(line_refusal(0), Some(ClientError::Protocol(m)) if m == "daemon closed the connection"));
    assert!(matches!(line_refusal(1048577), Some(ClientError::Protocol(m)) if m == "daemon sent a line over 1048576 bytes"));
    assert!(line_refusal(10).is_none());
}
