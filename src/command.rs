//! The commands of the camera, with their frames and acknowledgments.

use crate::services::Sendable;
use vstd::prelude::*;

verus! {

/// A command that can be sent to the camera.
pub enum GoProCommand {
    ShutterStart,
    ShutterStop,
    Sleep,
    AddHilightDuringEncoding,
    ApOff,
    ApOn,
    VideoMode,
    PhotoMode,
    TimelapseMode,
}

impl Sendable for GoProCommand {
    open spec fn wire_bytes(&self) -> Seq<u8> {
        match self {
            GoProCommand::ShutterStart => seq![0x03, 0x01, 0x01, 0x01],
            GoProCommand::ShutterStop => seq![0x03, 0x01, 0x01, 0x00],
            GoProCommand::Sleep => seq![0x01, 0x05],
            GoProCommand::AddHilightDuringEncoding => seq![0x01, 0x18],
            GoProCommand::ApOff => seq![0x03, 0x17, 0x01, 0x00],
            GoProCommand::ApOn => seq![0x03, 0x17, 0x01, 0x01],
            GoProCommand::VideoMode => seq![0x04, 0x3E, 0x02, 0x03, 0xE8],
            GoProCommand::PhotoMode => seq![0x04, 0x3E, 0x02, 0x03, 0xE9],
            GoProCommand::TimelapseMode => seq![0x04, 0x3E, 0x02, 0x03, 0xEA],
        }
    }

    open spec fn ack_bytes(&self) -> Seq<u8> {
        match self {
            GoProCommand::ShutterStart => seq![0x02, 0x01, 0x00],
            GoProCommand::ShutterStop => seq![0x02, 0x01, 0x00],
            GoProCommand::Sleep => seq![0x02, 0x05, 0x00],
            GoProCommand::AddHilightDuringEncoding => seq![0x02, 0x18, 0x00],
            GoProCommand::ApOff => seq![0x02, 0x17, 0x00],
            GoProCommand::ApOn => seq![0x02, 0x17, 0x00],
            GoProCommand::VideoMode => seq![0x02, 0x3E, 0x00],
            GoProCommand::PhotoMode => seq![0x02, 0x3E, 0x00],
            GoProCommand::TimelapseMode => seq![0x02, 0x3E, 0x00],
        }
    }

    fn as_bytes(&self) -> (r: &'static [u8]) {
        match self {
            GoProCommand::ShutterStart => &[0x03, 0x01, 0x01, 0x01],
            GoProCommand::ShutterStop => &[0x03, 0x01, 0x01, 0x00],
            GoProCommand::Sleep => &[0x01, 0x05],
            GoProCommand::AddHilightDuringEncoding => &[0x01, 0x18],
            GoProCommand::ApOff => &[0x03, 0x17, 0x01, 0x00],
            GoProCommand::ApOn => &[0x03, 0x17, 0x01, 0x01],
            GoProCommand::VideoMode => &[0x04, 0x3E, 0x02, 0x03, 0xE8],
            GoProCommand::PhotoMode => &[0x04, 0x3E, 0x02, 0x03, 0xE9],
            GoProCommand::TimelapseMode => &[0x04, 0x3E, 0x02, 0x03, 0xEA],
        }
    }

    fn response_value_bytes(&self) -> (r: &'static [u8]) {
        match self {
            GoProCommand::ShutterStart => &[0x02, 0x01, 0x00],
            GoProCommand::ShutterStop => &[0x02, 0x01, 0x00],
            GoProCommand::Sleep => &[0x02, 0x05, 0x00],
            GoProCommand::AddHilightDuringEncoding => &[0x02, 0x18, 0x00],
            GoProCommand::ApOff => &[0x02, 0x17, 0x00],
            GoProCommand::ApOn => &[0x02, 0x17, 0x00],
            GoProCommand::VideoMode => &[0x02, 0x3E, 0x00],
            GoProCommand::PhotoMode => &[0x02, 0x3E, 0x00],
            GoProCommand::TimelapseMode => &[0x02, 0x3E, 0x00],
        }
    }
}

} // verus!
