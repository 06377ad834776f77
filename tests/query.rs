use gopro_ble::{
    query_builder, GoProQuery, InterpretError, InvalidStatusId, ParseError, QueryResponse,
    QueryResponseIntepretation, StatusID,
};

fn response(status_id: u8, value: Vec<u8>) -> QueryResponse {
    QueryResponse {
        message_length: 0,
        query_id: 0x13,
        command_status: 0,
        status_id,
        status_value_length: value.len() as u8,
        status_value: value,
    }
}

#[test]
fn test_query_builder() {
    let query = query_builder(
        0x01,
        vec![
            StatusID::InternalBatteryLevel,
            StatusID::InternalBatteryPresent,
        ],
    );
    assert_eq!(query, vec![0x03, 0x01, 0x02, 0x01]);
}

#[test]
fn query_builder_with_no_ids_is_kind_alone() {
    assert_eq!(query_builder(0x13, vec![]), vec![0x01, 0x13]);
}

#[test]
fn query_frame_body_gives_back_the_ids_in_order() {
    let ids = vec![
        StatusID::TotalSDSpaceKB,
        StatusID::SystemHot,
        StatusID::SystemHot,
        StatusID::ApSSID,
        StatusID::InternalBatteryPresent,
    ];
    let frame = query_builder(0x13, ids.clone());
    assert_eq!(frame.len(), ids.len() + 2);
    let back: Vec<StatusID> = frame[2..]
        .iter()
        .map(|b| StatusID::try_from(*b).unwrap())
        .collect();
    assert_eq!(back, ids);
}

#[test]
fn query_frame_length_field_reads_back_on_one_byte_path() {
    let frame = query_builder(
        0x13,
        vec![
            StatusID::SystemHot,
            StatusID::InternalBatteryPresent,
            StatusID::InternalBatteryPresent,
            StatusID::InternalBatteryLevel,
        ],
    );
    assert_eq!(frame, vec![0x05, 0x13, 6, 1, 1, 2]);
    assert!(frame[0] & 0x80 == 0);
    let parsed = QueryResponse::deserialize(&frame).unwrap();
    assert_eq!(parsed.message_length, 5);
    assert_eq!(parsed.query_id, 0x13);
    assert_eq!(parsed.command_status, 6);
    assert_eq!(parsed.status_id, 1);
    assert_eq!(parsed.status_value_length, 1);
    assert_eq!(parsed.status_value, vec![2]);
}

#[test]
fn query_as_bytes_for_each_kind() {
    let ids = vec![StatusID::InternalBatteryPercentage];
    assert_eq!(GoProQuery::GetSettingValue(ids.clone()).as_bytes(), vec![2, 0x12, 70]);
    assert_eq!(GoProQuery::GetAllSettingValues.as_bytes(), vec![0x01, 0x12]);
    assert_eq!(GoProQuery::GetStatusValue(ids.clone()).as_bytes(), vec![2, 0x13, 70]);
    assert_eq!(GoProQuery::GetAllStatusValues.as_bytes(), vec![0x01, 0x13]);
    assert_eq!(GoProQuery::GetAvailableOptionSettings(ids.clone()).as_bytes(), vec![2, 0x32, 70]);
    assert_eq!(GoProQuery::GetAvailableOptionAllSettings.as_bytes(), vec![0x01, 0x32]);
    assert_eq!(GoProQuery::RegisterSettingValueUpdates(ids.clone()).as_bytes(), vec![2, 0x52, 70]);
    assert_eq!(GoProQuery::RegisterStatusValueUpdates(ids.clone()).as_bytes(), vec![2, 0x53, 70]);
    assert_eq!(
        GoProQuery::RegisterAvailableOptionSettings(ids.clone()).as_bytes(),
        vec![2, 0x62, 70]
    );
    assert_eq!(GoProQuery::UnregisterSettingValueUpdates(ids.clone()).as_bytes(), vec![2, 0x72, 70]);
    assert_eq!(GoProQuery::UnregisterStatusValueUpdates(ids.clone()).as_bytes(), vec![2, 0x73, 70]);
    assert_eq!(
        GoProQuery::UnregisterAvailableOptionSettings(ids.clone()).as_bytes(),
        vec![2, 0x82, 70]
    );
    assert_eq!(GoProQuery::AsyncNotificationSettingChanged.as_bytes(), vec![0x01, 0x92]);
    assert_eq!(GoProQuery::AsyncNotificationStatusChanged.as_bytes(), vec![0x01, 0x93]);
    assert_eq!(GoProQuery::AsyncNotificationOptionSettingChanged.as_bytes(), vec![0x01, 0xA2]);
}

#[test]
fn query_with_largest_id_list() {
    let ids = vec![StatusID::SystemHot; 254];
    let frame = GoProQuery::GetStatusValue(ids).as_bytes();
    assert_eq!(frame.len(), 256);
    assert_eq!(frame[0], 255);
    assert_eq!(frame[1], 0x13);
    assert!(frame[2..].iter().all(|b| *b == 6));
}

#[test]
fn status_codes_and_their_inverse() {
    assert_eq!(StatusID::InternalBatteryPresent.as_byte(), 1);
    assert_eq!(StatusID::InternalBatteryPercentage.as_byte(), 70);
    assert_eq!(StatusID::TotalSDSpaceKB.as_byte(), 117);
    assert_eq!(StatusID::try_from(30u8), Ok(StatusID::ApSSID));
    assert_eq!(StatusID::try_from(117u8), Ok(StatusID::TotalSDSpaceKB));
    assert_eq!(StatusID::try_from(3u8), Err(InvalidStatusId(3)));
    assert_eq!(StatusID::try_from(0u8), Err(InvalidStatusId(0)));
    assert_eq!(StatusID::try_from(255u8), Err(InvalidStatusId(255)));
}

#[test]
fn parse_refuses_fewer_than_five_bytes() {
    for n in 0..5usize {
        let data = vec![0x80u8; n];
        assert_eq!(QueryResponse::deserialize(&data).unwrap_err(), ParseError::TooShort);
    }
}

#[test]
fn parse_refuses_short_extended_header() {
    let data = [0x80u8, 0x90, 0x13, 0x00, 0x46];
    assert_eq!(QueryResponse::deserialize(&data).unwrap_err(), ParseError::TooShortExtended);
}

#[test]
fn parse_refuses_value_past_the_end() {
    let data = [0x05u8, 0x13, 0x00, 0x46, 0x03, 0x01];
    assert_eq!(QueryResponse::deserialize(&data).unwrap_err(), ParseError::TooShortForValue);
}

#[test]
fn parse_two_byte_length_header() {
    let data = [0x80u8, 0x85, 0x13, 0x00, 0x46, 0x01, 0x55];
    let parsed = QueryResponse::deserialize(&data).unwrap();
    assert_eq!(parsed.message_length, 0x85);
    assert_eq!(parsed.query_id, 0x13);
    assert_eq!(parsed.command_status, 0x00);
    assert_eq!(parsed.status_id, 0x46);
    assert_eq!(parsed.status_value_length, 1);
    assert_eq!(parsed.status_value, vec![0x55]);
}

#[test]
fn parse_two_byte_length_of_small_value_uses_one_byte_offsets() {
    let data = [0x80u8, 0x02, 0x00, 0x46, 0x01, 0x07];
    let parsed = QueryResponse::deserialize(&data).unwrap();
    assert_eq!(parsed.message_length, 2);
    assert_eq!(parsed.query_id, 0x02);
    assert_eq!(parsed.command_status, 0x00);
    assert_eq!(parsed.status_id, 0x46);
    assert_eq!(parsed.status_value_length, 1);
    assert_eq!(parsed.status_value, vec![0x07]);
}

#[test]
fn parse_ignores_trailing_bytes_and_takes_empty_value() {
    let data = [0x04u8, 0x13, 0x00, 0x01, 0x00, 0xAA, 0xBB];
    let parsed = QueryResponse::deserialize(&data).unwrap();
    assert_eq!(parsed.status_value_length, 0);
    assert!(parsed.status_value.is_empty());
}

#[test]
fn interpret_flags() {
    for id in [StatusID::SystemHot, StatusID::InternalBatteryPresent, StatusID::UsbConnected] {
        let yes = response(id.as_byte(), vec![1]).interpret();
        assert!(matches!(yes, Ok(Some(QueryResponseIntepretation::Bool(true)))));
        let no = response(id.as_byte(), vec![0]).interpret();
        assert!(matches!(no, Ok(Some(QueryResponseIntepretation::Bool(false)))));
    }
    let two = response(StatusID::SystemHot.as_byte(), vec![2]).interpret();
    assert!(matches!(two, Ok(Some(QueryResponseIntepretation::Bool(false)))));
}

#[test]
fn interpret_percentages_verbatim() {
    for id in [
        StatusID::InternalBatteryPercentage,
        StatusID::DigitalZoom,
        StatusID::ExposureSelectX,
        StatusID::ExposureSelectY,
    ] {
        for n in [0u8, 57, 100] {
            let r = response(id.as_byte(), vec![n, 9]).interpret();
            assert!(matches!(r, Ok(Some(QueryResponseIntepretation::Percentage(v))) if v == n));
        }
    }
}

#[test]
fn interpret_single_byte() {
    let r = response(StatusID::ActualOrientation.as_byte(), vec![3]).interpret();
    assert!(matches!(r, Ok(Some(QueryResponseIntepretation::Byte(3)))));
}

#[test]
fn interpret_raw_bytes() {
    let r = response(StatusID::TotalSDSpaceKB.as_byte(), vec![0, 1, 2, 3]).interpret();
    match r {
        Ok(Some(QueryResponseIntepretation::ByteVec(v))) => assert_eq!(v, vec![0, 1, 2, 3]),
        other => panic!("unexpected {:?}", other),
    }
}

#[test]
fn interpret_text() {
    let r = response(StatusID::ApSSID.as_byte(), "GP2450".as_bytes().to_vec()).interpret();
    match r {
        Ok(Some(QueryResponseIntepretation::String(s))) => assert_eq!(s, "GP2450"),
        other => panic!("unexpected {:?}", other),
    }
    let r = response(StatusID::WlanSSID.as_byte(), "caf\u{e9}".as_bytes().to_vec()).interpret();
    match r {
        Ok(Some(QueryResponseIntepretation::String(s))) => assert_eq!(s, "caf\u{e9}"),
        other => panic!("unexpected {:?}", other),
    }
}

#[test]
fn interpret_invalid_text_is_an_error() {
    let r = response(StatusID::ApSSID.as_byte(), vec![0x47, 0xFF, 0x50]).interpret();
    assert!(matches!(r, Err(InterpretError::InvalidUtf8)));
}

#[test]
fn interpret_missing_byte_is_an_error() {
    let r = response(StatusID::SystemHot.as_byte(), vec![]).interpret();
    assert!(matches!(r, Err(InterpretError::MissingValue)));
    let r = response(StatusID::InternalBatteryPercentage.as_byte(), vec![]).interpret();
    assert!(matches!(r, Err(InterpretError::MissingValue)));
}

#[test]
fn interpret_unknown_status_is_none() {
    for code in [0u8, 3, 4, 118, 255] {
        let r = response(code, vec![1]).interpret();
        assert!(matches!(r, Ok(None)));
    }
}
