use gopro_ble::{
    check_ack, check_command_response, check_query_response, check_setting_response,
    GoProCommand, GoProControlAndQueryCharacteristics, GoProSetting, Hero11Resolution,
    Notification, ParseError, ResponseError, Sendable, ToUUID,
};

fn from(c: GoProControlAndQueryCharacteristics, value: Vec<u8>) -> Option<Notification> {
    Some(Notification { uuid: c.to_uuid(), value })
}

#[test]
fn shutter_start_end_to_end() {
    let command = GoProCommand::ShutterStart;
    assert_eq!(command.as_bytes(), &[0x03, 0x01, 0x01, 0x01]);
    assert_eq!(
        GoProControlAndQueryCharacteristics::Command.to_uuid(),
        0xb5f90072_aa8d_11e3_9046_0002a5d5c51b
    );
    let accepted = check_command_response(
        &command,
        from(GoProControlAndQueryCharacteristics::CommandResponse, vec![0x02, 0x01, 0x00]),
    );
    assert!(accepted.is_ok());
    let refused = check_command_response(
        &command,
        from(GoProControlAndQueryCharacteristics::CommandResponse, vec![0x02, 0x01, 0x02]),
    );
    match refused {
        Err(ResponseError::WrongPayload { expected, actual }) => {
            assert_eq!(expected, vec![0x02, 0x01, 0x00]);
            assert_eq!(actual, vec![0x02, 0x01, 0x02]);
        },
        other => panic!("unexpected {:?}", other),
    }
}

#[test]
fn command_ack_from_wrong_characteristic() {
    let r = check_command_response(
        &GoProCommand::Sleep,
        from(GoProControlAndQueryCharacteristics::SettingsResponse, vec![0x02, 0x05, 0x00]),
    );
    match r {
        Err(ResponseError::WrongSource { expected_uuid, actual_uuid }) => {
            assert_eq!(expected_uuid, 0xb5f90073_aa8d_11e3_9046_0002a5d5c51b);
            assert_eq!(actual_uuid, 0xb5f90075_aa8d_11e3_9046_0002a5d5c51b);
        },
        other => panic!("unexpected {:?}", other),
    }
}

#[test]
fn command_without_notification() {
    let r = check_command_response(&GoProCommand::ShutterStop, None);
    assert!(matches!(r, Err(ResponseError::NoResponse)));
}

#[test]
fn every_command_accepts_its_own_ack() {
    for command in [
        GoProCommand::ShutterStart,
        GoProCommand::ShutterStop,
        GoProCommand::Sleep,
        GoProCommand::AddHilightDuringEncoding,
        GoProCommand::ApOff,
        GoProCommand::ApOn,
        GoProCommand::VideoMode,
        GoProCommand::PhotoMode,
        GoProCommand::TimelapseMode,
    ] {
        let ack = command.response_value_bytes().to_vec();
        let r = check_command_response(
            &command,
            from(GoProControlAndQueryCharacteristics::CommandResponse, ack),
        );
        assert!(r.is_ok());
    }
}

#[test]
fn setting_ack_checks() {
    let setting = GoProSetting::Resolution(Hero11Resolution::Res4K);
    let ok = check_setting_response(
        &setting,
        from(GoProControlAndQueryCharacteristics::SettingsResponse, vec![0x02, 0x02, 0x00]),
    );
    assert!(ok.is_ok());
    let wrong = check_setting_response(
        &setting,
        from(GoProControlAndQueryCharacteristics::CommandResponse, vec![0x02, 0x02, 0x00]),
    );
    assert!(matches!(wrong, Err(ResponseError::WrongSource { .. })));
    let short = check_setting_response(
        &setting,
        from(GoProControlAndQueryCharacteristics::SettingsResponse, vec![0x02, 0x02]),
    );
    assert!(matches!(short, Err(ResponseError::WrongPayload { .. })));
}

#[test]
fn ack_check_against_given_bytes() {
    let n = Some(Notification { uuid: 7, value: vec![1, 2, 3] });
    assert!(check_ack(7, &[1, 2, 3], n).is_ok());
    let n = Some(Notification { uuid: 7, value: vec![1, 2, 3, 4] });
    assert!(matches!(check_ack(7, &[1, 2, 3], n), Err(ResponseError::WrongPayload { .. })));
    let n = Some(Notification { uuid: 8, value: vec![1, 2, 3] });
    assert!(matches!(check_ack(7, &[1, 2, 3], n), Err(ResponseError::WrongSource { .. })));
}

#[test]
fn query_answer_checks() {
    let q = check_query_response(from(
        GoProControlAndQueryCharacteristics::QueryResponse,
        vec![0x05, 0x13, 0x00, 0x46, 0x01, 0x50],
    ))
    .unwrap();
    assert_eq!(q.status_id, 0x46);
    assert_eq!(q.status_value, vec![0x50]);
    let wrong = check_query_response(from(
        GoProControlAndQueryCharacteristics::CommandResponse,
        vec![0x05, 0x13, 0x00, 0x46, 0x01, 0x50],
    ));
    assert!(matches!(wrong, Err(ResponseError::WrongSource { .. })));
    let malformed = check_query_response(from(
        GoProControlAndQueryCharacteristics::QueryResponse,
        vec![0x05, 0x13],
    ));
    assert!(matches!(malformed, Err(ResponseError::Malformed(ParseError::TooShort))));
    assert!(matches!(check_query_response(None), Err(ResponseError::NoResponse)));
}
