//! Encoding, decoding and response checking for the BLE control protocol of
//! GoPro cameras.
//!
//! - `services`: the 128-bit identifiers of services and characteristics.
//! - `command`, `settings`: the fixed frames of commands and settings, with
//!   the acknowledgments that the camera answers them with.
//! - `query`: the status catalog, query frames, response frames and the
//!   reading of status values.
//! - `exchange`: the checks that pair a write with the notification that
//!   answers it.
//! - `discovery`: how scanned peripherals are named and picked.

mod command;
mod discovery;
mod exchange;
mod query;
mod services;
mod settings;

pub use crate::command::GoProCommand;
pub use crate::discovery::{is_wanted_peripheral, listed_name, peripheral_name};
pub use crate::exchange::{
    ack_outcome, characteristic_uuid, check_ack, check_command_response, check_query_response,
    check_setting_response, lemma_command_ack_validation, query_outcome, Notification,
    ResponseError, ResponseErrorView,
};
pub use crate::query::{
    frame_header_start, frame_message_length, interpretation, lemma_interpretation_classes,
    lemma_query_frame_length_field, lemma_query_frame_round_trip, lemma_short_frame_refused,
    lemma_status_code_injective, lemma_status_with_code, parse_frame, query_builder, query_frame,
    status_code, status_from_byte, status_shape, status_with_code, GoProQuery, InterpretError,
    InterpretationView, InvalidStatusId, ParseError, QueryResponse, QueryResponseIntepretation,
    QueryResponseView, StatusID, StatusShape,
};
pub use crate::services::{
    expand, hex_digit_value, hex_value, is_hex_digit, is_hyphen_position, is_hyphenated,
    is_short_code, lemma_expand_substitutes, lemma_hex_value_append, uuid_text, uuid_value,
    GoProControlAndQueryCharacteristics, GoProManagementCharacteristics, GoProServices,
    GoProWifiApCharacteristics, Sendable, ToUUID,
};
pub use crate::settings::{
    AntiFlicker, GoProSetting, Hero11AutoPowerDown, Hero11Controls, Hero11FPS, Hero11Hindsight,
    Hero11HorizonLeveling, Hero11Hypersmooth, Hero11MaxLense, Hero11MediaFormat,
    Hero11NightPhoto, Hero11PhotoDigitalLense, Hero11Resolution, Hero11Speed,
    Hero11TimeLapseDigitalLense, Hero11TrailLength, Hero11VideoDigitalLense, Hero11VideoMode,
    Hero11WirelessBand,
};
