//! The settings of the camera: each setting is a family of options, and each
//! option has one frame `[0x03, setting, 0x01, option]` and the acknowledgment
//! that the camera sends when it takes the option.

use crate::services::Sendable;
use vstd::prelude::*;

verus! {

/// A setting of the camera, with the option chosen for it.
pub enum GoProSetting {
    Resolution(Hero11Resolution),
    Fps(Hero11FPS),
    AutoPowerDown(Hero11AutoPowerDown),
    VideoDigitalLense(Hero11VideoDigitalLense),
    PhotoDigitalLense(Hero11PhotoDigitalLense),
    TimeLapseDigitalLense(Hero11TimeLapseDigitalLense),
    MediaFormat(Hero11MediaFormat),
    AntiFlicker(AntiFlicker),
    Hypersmooth(Hero11Hypersmooth),
    HorizonLeveling(Hero11HorizonLeveling),
    MaxLense(Hero11MaxLense),
    Hindsight(Hero11Hindsight),
    Controls(Hero11Controls),
    Speed(Hero11Speed),
    NightPhoto(Hero11NightPhoto),
    WirelessBand(Hero11WirelessBand),
    TrailLength(Hero11TrailLength),
    VideoMode(Hero11VideoMode),
}

impl Sendable for GoProSetting {
    open spec fn wire_bytes(&self) -> Seq<u8> {
        match self {
            GoProSetting::Resolution(option) => option.wire_bytes(),
            GoProSetting::Fps(option) => option.wire_bytes(),
            GoProSetting::AutoPowerDown(option) => option.wire_bytes(),
            GoProSetting::VideoDigitalLense(option) => option.wire_bytes(),
            GoProSetting::PhotoDigitalLense(option) => option.wire_bytes(),
            GoProSetting::TimeLapseDigitalLense(option) => option.wire_bytes(),
            GoProSetting::MediaFormat(option) => option.wire_bytes(),
            GoProSetting::AntiFlicker(option) => option.wire_bytes(),
            GoProSetting::Hypersmooth(option) => option.wire_bytes(),
            GoProSetting::HorizonLeveling(option) => option.wire_bytes(),
            GoProSetting::MaxLense(option) => option.wire_bytes(),
            GoProSetting::Hindsight(option) => option.wire_bytes(),
            GoProSetting::Controls(option) => option.wire_bytes(),
            GoProSetting::Speed(option) => option.wire_bytes(),
            GoProSetting::NightPhoto(option) => option.wire_bytes(),
            GoProSetting::WirelessBand(option) => option.wire_bytes(),
            GoProSetting::TrailLength(option) => option.wire_bytes(),
            GoProSetting::VideoMode(option) => option.wire_bytes(),
        }
    }

    open spec fn ack_bytes(&self) -> Seq<u8> {
        match self {
            GoProSetting::Resolution(option) => option.ack_bytes(),
            GoProSetting::Fps(option) => option.ack_bytes(),
            GoProSetting::AutoPowerDown(option) => option.ack_bytes(),
            GoProSetting::VideoDigitalLense(option) => option.ack_bytes(),
            GoProSetting::PhotoDigitalLense(option) => option.ack_bytes(),
            GoProSetting::TimeLapseDigitalLense(option) => option.ack_bytes(),
            GoProSetting::MediaFormat(option) => option.ack_bytes(),
            GoProSetting::AntiFlicker(option) => option.ack_bytes(),
            GoProSetting::Hypersmooth(option) => option.ack_bytes(),
            GoProSetting::HorizonLeveling(option) => option.ack_bytes(),
            GoProSetting::MaxLense(option) => option.ack_bytes(),
            GoProSetting::Hindsight(option) => option.ack_bytes(),
            GoProSetting::Controls(option) => option.ack_bytes(),
            GoProSetting::Speed(option) => option.ack_bytes(),
            GoProSetting::NightPhoto(option) => option.ack_bytes(),
            GoProSetting::WirelessBand(option) => option.ack_bytes(),
            GoProSetting::TrailLength(option) => option.ack_bytes(),
            GoProSetting::VideoMode(option) => option.ack_bytes(),
        }
    }

    fn as_bytes(&self) -> (r: &'static [u8]) {
        match self {
            GoProSetting::Resolution(option) => option.as_bytes(),
            GoProSetting::Fps(option) => option.as_bytes(),
            GoProSetting::AutoPowerDown(option) => option.as_bytes(),
            GoProSetting::VideoDigitalLense(option) => option.as_bytes(),
            GoProSetting::PhotoDigitalLense(option) => option.as_bytes(),
            GoProSetting::TimeLapseDigitalLense(option) => option.as_bytes(),
            GoProSetting::MediaFormat(option) => option.as_bytes(),
            GoProSetting::AntiFlicker(option) => option.as_bytes(),
            GoProSetting::Hypersmooth(option) => option.as_bytes(),
            GoProSetting::HorizonLeveling(option) => option.as_bytes(),
            GoProSetting::MaxLense(option) => option.as_bytes(),
            GoProSetting::Hindsight(option) => option.as_bytes(),
            GoProSetting::Controls(option) => option.as_bytes(),
            GoProSetting::Speed(option) => option.as_bytes(),
            GoProSetting::NightPhoto(option) => option.as_bytes(),
            GoProSetting::WirelessBand(option) => option.as_bytes(),
            GoProSetting::TrailLength(option) => option.as_bytes(),
            GoProSetting::VideoMode(option) => option.as_bytes(),
        }
    }

    fn response_value_bytes(&self) -> (r: &'static [u8]) {
        match self {
            GoProSetting::Resolution(option) => option.response_value_bytes(),
            GoProSetting::Fps(option) => option.response_value_bytes(),
            GoProSetting::AutoPowerDown(option) => option.response_value_bytes(),
            GoProSetting::VideoDigitalLense(option) => option.response_value_bytes(),
            GoProSetting::PhotoDigitalLense(option) => option.response_value_bytes(),
            GoProSetting::TimeLapseDigitalLense(option) => option.response_value_bytes(),
            GoProSetting::MediaFormat(option) => option.response_value_bytes(),
            GoProSetting::AntiFlicker(option) => option.response_value_bytes(),
            GoProSetting::Hypersmooth(option) => option.response_value_bytes(),
            GoProSetting::HorizonLeveling(option) => option.response_value_bytes(),
            GoProSetting::MaxLense(option) => option.response_value_bytes(),
            GoProSetting::Hindsight(option) => option.response_value_bytes(),
            GoProSetting::Controls(option) => option.response_value_bytes(),
            GoProSetting::Speed(option) => option.response_value_bytes(),
            GoProSetting::NightPhoto(option) => option.response_value_bytes(),
            GoProSetting::WirelessBand(option) => option.response_value_bytes(),
            GoProSetting::TrailLength(option) => option.response_value_bytes(),
            GoProSetting::VideoMode(option) => option.response_value_bytes(),
        }
    }
}

#[allow(non_camel_case_types)]
pub enum Hero11Resolution {
    Res4K,
    Res2_7K,
    Res2_7K_4x3,
    Res1080,
    Res4K_4x3,
    Res5_3K_8x7,
    Res5_3K_4x3,
    Res4K_8x7,
    Res5_3K,
}

impl Sendable for Hero11Resolution {
    open spec fn wire_bytes(&self) -> Seq<u8> {
        match self {
            Hero11Resolution::Res4K => seq![0x03, 0x02, 0x01, 0x01],
            Hero11Resolution::Res2_7K => seq![0x03, 0x02, 0x01, 0x04],
            Hero11Resolution::Res2_7K_4x3 => seq![0x03, 0x02, 0x01, 0x06],
            Hero11Resolution::Res1080 => seq![0x03, 0x02, 0x01, 0x09],
            Hero11Resolution::Res4K_4x3 => seq![0x03, 0x02, 0x01, 0x12],
            Hero11Resolution::Res5_3K_8x7 => seq![0x03, 0x02, 0x01, 0x1A],
            Hero11Resolution::Res5_3K_4x3 => seq![0x03, 0x02, 0x01, 0x1B],
            Hero11Resolution::Res4K_8x7 => seq![0x03, 0x02, 0x01, 0x1C],
            Hero11Resolution::Res5_3K => seq![0x03, 0x02, 0x01, 0x64],
        }
    }

    open spec fn ack_bytes(&self) -> Seq<u8> {
        seq![0x02, 0x02, 0x00]
    }

    fn as_bytes(&self) -> (r: &'static [u8]) {
        match self {
            Hero11Resolution::Res4K => &[0x03, 0x02, 0x01, 0x01],
            Hero11Resolution::Res2_7K => &[0x03, 0x02, 0x01, 0x04],
            Hero11Resolution::Res2_7K_4x3 => &[0x03, 0x02, 0x01, 0x06],
            Hero11Resolution::Res1080 => &[0x03, 0x02, 0x01, 0x09],
            Hero11Resolution::Res4K_4x3 => &[0x03, 0x02, 0x01, 0x12],
            Hero11Resolution::Res5_3K_8x7 => &[0x03, 0x02, 0x01, 0x1A],
            Hero11Resolution::Res5_3K_4x3 => &[0x03, 0x02, 0x01, 0x1B],
            Hero11Resolution::Res4K_8x7 => &[0x03, 0x02, 0x01, 0x1C],
            Hero11Resolution::Res5_3K => &[0x03, 0x02, 0x01, 0x64],
        }
    }

    fn response_value_bytes(&self) -> (r: &'static [u8]) {
        &[0x02, 0x02, 0x00]
    }
}

pub enum Hero11FPS {
    Fps240,
    Fps120,
    Fps100,
    Fps60,
    Fps50,
    Fps30,
    Fps25,
    Fps24,
    Fps200,
}

impl Sendable for Hero11FPS {
    open spec fn wire_bytes(&self) -> Seq<u8> {
        match self {
            Hero11FPS::Fps240 => seq![0x03, 0x03, 0x01, 0x00],
            Hero11FPS::Fps120 => seq![0x03, 0x03, 0x01, 0x01],
            Hero11FPS::Fps100 => seq![0x03, 0x03, 0x01, 0x02],
            Hero11FPS::Fps60 => seq![0x03, 0x03, 0x01, 0x05],
            Hero11FPS::Fps50 => seq![0x03, 0x03, 0x01, 0x06],
            Hero11FPS::Fps30 => seq![0x03, 0x03, 0x01, 0x08],
            Hero11FPS::Fps25 => seq![0x03, 0x03, 0x01, 0x09],
            Hero11FPS::Fps24 => seq![0x03, 0x03, 0x01, 0x0A],
            Hero11FPS::Fps200 => seq![0x03, 0x03, 0x01, 0x0D],
        }
    }

    open spec fn ack_bytes(&self) -> Seq<u8> {
        seq![0x02, 0x02, 0x00]
    }

    fn as_bytes(&self) -> (r: &'static [u8]) {
        match self {
            Hero11FPS::Fps240 => &[0x03, 0x03, 0x01, 0x00],
            Hero11FPS::Fps120 => &[0x03, 0x03, 0x01, 0x01],
            Hero11FPS::Fps100 => &[0x03, 0x03, 0x01, 0x02],
            Hero11FPS::Fps60 => &[0x03, 0x03, 0x01, 0x05],
            Hero11FPS::Fps50 => &[0x03, 0x03, 0x01, 0x06],
            Hero11FPS::Fps30 => &[0x03, 0x03, 0x01, 0x08],
            Hero11FPS::Fps25 => &[0x03, 0x03, 0x01, 0x09],
            Hero11FPS::Fps24 => &[0x03, 0x03, 0x01, 0x0A],
            Hero11FPS::Fps200 => &[0x03, 0x03, 0x01, 0x0D],
        }
    }

    fn response_value_bytes(&self) -> (r: &'static [u8]) {
        &[0x02, 0x02, 0x00]
    }
}

pub enum Hero11AutoPowerDown {
    Never,
    OneMinute,
    FiveMinutes,
    FifteenMinutes,
    ThirtyMinutes,
}

impl Sendable for Hero11AutoPowerDown {
    open spec fn wire_bytes(&self) -> Seq<u8> {
        match self {
            Hero11AutoPowerDown::Never => seq![0x03, 0x3B, 0x01, 0x00],
            Hero11AutoPowerDown::OneMinute => seq![0x03, 0x3B, 0x01, 0x01],
            Hero11AutoPowerDown::FiveMinutes => seq![0x03, 0x3B, 0x01, 0x04],
            Hero11AutoPowerDown::FifteenMinutes => seq![0x03, 0x3B, 0x01, 0x06],
            Hero11AutoPowerDown::ThirtyMinutes => seq![0x03, 0x3B, 0x01, 0x07],
        }
    }

    open spec fn ack_bytes(&self) -> Seq<u8> {
        seq![0x02, 0x02, 0x00]
    }

    fn as_bytes(&self) -> (r: &'static [u8]) {
        match self {
            Hero11AutoPowerDown::Never => &[0x03, 0x3B, 0x01, 0x00],
            Hero11AutoPowerDown::OneMinute => &[0x03, 0x3B, 0x01, 0x01],
            Hero11AutoPowerDown::FiveMinutes => &[0x03, 0x3B, 0x01, 0x04],
            Hero11AutoPowerDown::FifteenMinutes => &[0x03, 0x3B, 0x01, 0x06],
            Hero11AutoPowerDown::ThirtyMinutes => &[0x03, 0x3B, 0x01, 0x07],
        }
    }

    fn response_value_bytes(&self) -> (r: &'static [u8]) {
        &[0x02, 0x02, 0x00]
    }
}

pub enum Hero11VideoDigitalLense {
    Wide,
    Superview,
    Linear,
    MaxSuperview,
    LinearHorizonLeveling,
    Hyperview,
    LinearHorizonLock,
}

impl Sendable for Hero11VideoDigitalLense {
    open spec fn wire_bytes(&self) -> Seq<u8> {
        match self {
            Hero11VideoDigitalLense::Wide => seq![0x03, 0x79, 0x01, 0x00],
            Hero11VideoDigitalLense::Superview => seq![0x03, 0x79, 0x01, 0x03],
            Hero11VideoDigitalLense::Linear => seq![0x03, 0x79, 0x01, 0x04],
            Hero11VideoDigitalLense::MaxSuperview => seq![0x03, 0x79, 0x01, 0x07],
            Hero11VideoDigitalLense::LinearHorizonLeveling => seq![0x03, 0x79, 0x01, 0x08],
            Hero11VideoDigitalLense::Hyperview => seq![0x03, 0x79, 0x01, 0x09],
            Hero11VideoDigitalLense::LinearHorizonLock => seq![0x03, 0x79, 0x01, 0x0A],
        }
    }

    open spec fn ack_bytes(&self) -> Seq<u8> {
        seq![0x02, 0x02, 0x00]
    }

    fn as_bytes(&self) -> (r: &'static [u8]) {
        match self {
            Hero11VideoDigitalLense::Wide => &[0x03, 0x79, 0x01, 0x00],
            Hero11VideoDigitalLense::Superview => &[0x03, 0x79, 0x01, 0x03],
            Hero11VideoDigitalLense::Linear => &[0x03, 0x79, 0x01, 0x04],
            Hero11VideoDigitalLense::MaxSuperview => &[0x03, 0x79, 0x01, 0x07],
            Hero11VideoDigitalLense::LinearHorizonLeveling => &[0x03, 0x79, 0x01, 0x08],
            Hero11VideoDigitalLense::Hyperview => &[0x03, 0x79, 0x01, 0x09],
            Hero11VideoDigitalLense::LinearHorizonLock => &[0x03, 0x79, 0x01, 0x0A],
        }
    }

    fn response_value_bytes(&self) -> (r: &'static [u8]) {
        &[0x02, 0x02, 0x00]
    }
}

pub enum Hero11PhotoDigitalLense {
    MaxSuperview,
    Wide,
    Linear,
}

impl Sendable for Hero11PhotoDigitalLense {
    open spec fn wire_bytes(&self) -> Seq<u8> {
        match self {
            Hero11PhotoDigitalLense::MaxSuperview => seq![0x03, 0x7A, 0x01, 0x64],
            Hero11PhotoDigitalLense::Wide => seq![0x03, 0x7A, 0x01, 0x65],
            Hero11PhotoDigitalLense::Linear => seq![0x03, 0x7A, 0x01, 0x66],
        }
    }

    open spec fn ack_bytes(&self) -> Seq<u8> {
        seq![0x02, 0x02, 0x00]
    }

    fn as_bytes(&self) -> (r: &'static [u8]) {
        match self {
            Hero11PhotoDigitalLense::MaxSuperview => &[0x03, 0x7A, 0x01, 0x64],
            Hero11PhotoDigitalLense::Wide => &[0x03, 0x7A, 0x01, 0x65],
            Hero11PhotoDigitalLense::Linear => &[0x03, 0x7A, 0x01, 0x66],
        }
    }

    fn response_value_bytes(&self) -> (r: &'static [u8]) {
        &[0x02, 0x02, 0x00]
    }
}

pub enum Hero11TimeLapseDigitalLense {
    MaxSuperview,
    Wide,
    Linear,
}

impl Sendable for Hero11TimeLapseDigitalLense {
    open spec fn wire_bytes(&self) -> Seq<u8> {
        match self {
            Hero11TimeLapseDigitalLense::MaxSuperview => seq![0x03, 0x7B, 0x01, 0x64],
            Hero11TimeLapseDigitalLense::Wide => seq![0x03, 0x7B, 0x01, 0x65],
            Hero11TimeLapseDigitalLense::Linear => seq![0x03, 0x7B, 0x01, 0x66],
        }
    }

    open spec fn ack_bytes(&self) -> Seq<u8> {
        seq![0x02, 0x02, 0x00]
    }

    fn as_bytes(&self) -> (r: &'static [u8]) {
        match self {
            Hero11TimeLapseDigitalLense::MaxSuperview => &[0x03, 0x7B, 0x01, 0x64],
            Hero11TimeLapseDigitalLense::Wide => &[0x03, 0x7B, 0x01, 0x65],
            Hero11TimeLapseDigitalLense::Linear => &[0x03, 0x7B, 0x01, 0x66],
        }
    }

    fn response_value_bytes(&self) -> (r: &'static [u8]) {
        &[0x02, 0x02, 0x00]
    }
}

pub enum Hero11MediaFormat {
    TimeLapseVideo,
    TimeLapsePhoto,
    NightLapsePhoto,
    NightLapseVideo,
}

impl Sendable for Hero11MediaFormat {
    open spec fn wire_bytes(&self) -> Seq<u8> {
        match self {
            Hero11MediaFormat::TimeLapseVideo => seq![0x03, 0x80, 0x01, 0x0D],
            Hero11MediaFormat::TimeLapsePhoto => seq![0x03, 0x80, 0x01, 0x14],
            Hero11MediaFormat::NightLapsePhoto => seq![0x03, 0x80, 0x01, 0x15],
            Hero11MediaFormat::NightLapseVideo => seq![0x03, 0x80, 0x01, 0x1A],
        }
    }

    open spec fn ack_bytes(&self) -> Seq<u8> {
        seq![0x02, 0x02, 0x00]
    }

    fn as_bytes(&self) -> (r: &'static [u8]) {
        match self {
            Hero11MediaFormat::TimeLapseVideo => &[0x03, 0x80, 0x01, 0x0D],
            Hero11MediaFormat::TimeLapsePhoto => &[0x03, 0x80, 0x01, 0x14],
            Hero11MediaFormat::NightLapsePhoto => &[0x03, 0x80, 0x01, 0x15],
            Hero11MediaFormat::NightLapseVideo => &[0x03, 0x80, 0x01, 0x1A],
        }
    }

    fn response_value_bytes(&self) -> (r: &'static [u8]) {
        &[0x02, 0x02, 0x00]
    }
}

pub enum AntiFlicker {
    SixtyHertz,
    FiftyHertz,
}

impl Sendable for AntiFlicker {
    open spec fn wire_bytes(&self) -> Seq<u8> {
        match self {
            AntiFlicker::SixtyHertz => seq![0x03, 0x86, 0x01, 0x02],
            AntiFlicker::FiftyHertz => seq![0x03, 0x86, 0x01, 0x03],
        }
    }

    open spec fn ack_bytes(&self) -> Seq<u8> {
        seq![0x02, 0x02, 0x00]
    }

    fn as_bytes(&self) -> (r: &'static [u8]) {
        match self {
            AntiFlicker::SixtyHertz => &[0x03, 0x86, 0x01, 0x02],
            AntiFlicker::FiftyHertz => &[0x03, 0x86, 0x01, 0x03],
        }
    }

    fn response_value_bytes(&self) -> (r: &'static [u8]) {
        &[0x02, 0x02, 0x00]
    }
}

pub enum Hero11Hypersmooth {
    Off,
    Low,
    Boost,
    Auto,
}

impl Sendable for Hero11Hypersmooth {
    open spec fn wire_bytes(&self) -> Seq<u8> {
        match self {
            Hero11Hypersmooth::Off => seq![0x03, 0x87, 0x01, 0x00],
            Hero11Hypersmooth::Low => seq![0x03, 0x87, 0x01, 0x01],
            Hero11Hypersmooth::Boost => seq![0x03, 0x87, 0x01, 0x03],
            Hero11Hypersmooth::Auto => seq![0x03, 0x87, 0x01, 0x04],
        }
    }

    open spec fn ack_bytes(&self) -> Seq<u8> {
        seq![0x02, 0x02, 0x00]
    }

    fn as_bytes(&self) -> (r: &'static [u8]) {
        match self {
            Hero11Hypersmooth::Off => &[0x03, 0x87, 0x01, 0x00],
            Hero11Hypersmooth::Low => &[0x03, 0x87, 0x01, 0x01],
            Hero11Hypersmooth::Boost => &[0x03, 0x87, 0x01, 0x03],
            Hero11Hypersmooth::Auto => &[0x03, 0x87, 0x01, 0x04],
        }
    }

    fn response_value_bytes(&self) -> (r: &'static [u8]) {
        &[0x02, 0x02, 0x00]
    }
}

pub enum Hero11HorizonLeveling {
    VideoOff,
    VideoLocked,
    PhotoOff,
    PhotoLocked,
}

impl Sendable for Hero11HorizonLeveling {
    open spec fn wire_bytes(&self) -> Seq<u8> {
        match self {
            Hero11HorizonLeveling::VideoOff => seq![0x03, 0x96, 0x01, 0x00],
            Hero11HorizonLeveling::VideoLocked => seq![0x03, 0x96, 0x01, 0x02],
            Hero11HorizonLeveling::PhotoOff => seq![0x03, 0x97, 0x01, 0x00],
            Hero11HorizonLeveling::PhotoLocked => seq![0x03, 0x97, 0x01, 0x02],
        }
    }

    open spec fn ack_bytes(&self) -> Seq<u8> {
        match self {
            Hero11HorizonLeveling::VideoOff => seq![0x02, 0x02, 0x00],
            Hero11HorizonLeveling::VideoLocked => seq![0x02, 0x02, 0x00],
            Hero11HorizonLeveling::PhotoOff => seq![0x02, 0x02, 0x00],
            Hero11HorizonLeveling::PhotoLocked => seq![0x02, 0x97, 0x00],
        }
    }

    fn as_bytes(&self) -> (r: &'static [u8]) {
        match self {
            Hero11HorizonLeveling::VideoOff => &[0x03, 0x96, 0x01, 0x00],
            Hero11HorizonLeveling::VideoLocked => &[0x03, 0x96, 0x01, 0x02],
            Hero11HorizonLeveling::PhotoOff => &[0x03, 0x97, 0x01, 0x00],
            Hero11HorizonLeveling::PhotoLocked => &[0x03, 0x97, 0x01, 0x02],
        }
    }

    fn response_value_bytes(&self) -> (r: &'static [u8]) {
        match self {
            Hero11HorizonLeveling::VideoOff => &[0x02, 0x02, 0x00],
            Hero11HorizonLeveling::VideoLocked => &[0x02, 0x02, 0x00],
            Hero11HorizonLeveling::PhotoOff => &[0x02, 0x02, 0x00],
            Hero11HorizonLeveling::PhotoLocked => &[0x02, 0x97, 0x00],
        }
    }
}

pub enum Hero11MaxLense {
    Off,
    On,
}

impl Sendable for Hero11MaxLense {
    open spec fn wire_bytes(&self) -> Seq<u8> {
        match self {
            Hero11MaxLense::Off => seq![0x03, 0xA2, 0x01, 0x00],
            Hero11MaxLense::On => seq![0x03, 0xA2, 0x01, 0x01],
        }
    }

    open spec fn ack_bytes(&self) -> Seq<u8> {
        seq![0x02, 0x02, 0x00]
    }

    fn as_bytes(&self) -> (r: &'static [u8]) {
        match self {
            Hero11MaxLense::Off => &[0x03, 0xA2, 0x01, 0x00],
            Hero11MaxLense::On => &[0x03, 0xA2, 0x01, 0x01],
        }
    }

    fn response_value_bytes(&self) -> (r: &'static [u8]) {
        &[0x02, 0x02, 0x00]
    }
}

pub enum Hero11Hindsight {
    FifteenSeconds,
    ThirtySeconds,
    Off,
}

impl Sendable for Hero11Hindsight {
    open spec fn wire_bytes(&self) -> Seq<u8> {
        match self {
            Hero11Hindsight::FifteenSeconds => seq![0x03, 0xA7, 0x01, 0x02],
            Hero11Hindsight::ThirtySeconds => seq![0x03, 0xA7, 0x01, 0x03],
            Hero11Hindsight::Off => seq![0x03, 0xA7, 0x01, 0x04],
        }
    }

    open spec fn ack_bytes(&self) -> Seq<u8> {
        seq![0x02, 0x02, 0x00]
    }

    fn as_bytes(&self) -> (r: &'static [u8]) {
        match self {
            Hero11Hindsight::FifteenSeconds => &[0x03, 0xA7, 0x01, 0x02],
            Hero11Hindsight::ThirtySeconds => &[0x03, 0xA7, 0x01, 0x03],
            Hero11Hindsight::Off => &[0x03, 0xA7, 0x01, 0x04],
        }
    }

    fn response_value_bytes(&self) -> (r: &'static [u8]) {
        &[0x02, 0x02, 0x00]
    }
}

pub enum Hero11Controls {
    Easy,
    Pro,
}

impl Sendable for Hero11Controls {
    open spec fn wire_bytes(&self) -> Seq<u8> {
        match self {
            Hero11Controls::Easy => seq![0x03, 0xAF, 0x01, 0x00],
            Hero11Controls::Pro => seq![0x03, 0xAF, 0x01, 0x01],
        }
    }

    open spec fn ack_bytes(&self) -> Seq<u8> {
        seq![0x02, 0x02, 0x00]
    }

    fn as_bytes(&self) -> (r: &'static [u8]) {
        match self {
            Hero11Controls::Easy => &[0x03, 0xAF, 0x01, 0x00],
            Hero11Controls::Pro => &[0x03, 0xAF, 0x01, 0x01],
        }
    }

    fn response_value_bytes(&self) -> (r: &'static [u8]) {
        &[0x02, 0x02, 0x00]
    }
}

#[allow(non_camel_case_types)]
pub enum Hero11Speed {
    UltraSlowMo8X,
    SuperSlowMo4X,
    SlowMo2X,
    Normal1X,
    SuperSlowMo4XExtBatt,
    SlowMo2XExtBatt,
    Normal1XExtBatt,
    UltraSlowMo8X50Hz,
    SuperSlowMo4X50Hz,
    SlowMo2X50Hz,
    Normal1X50Hz,
    SuperSlowMo4XExtBatt50Hz,
    SlowMo2XExtBatt50Hz,
    Normal1XExtBatt50Hz,
    UltraSlowMo8XExtBatt,
    UltraSlowMo8XExtBatt50Hz,
    UltraSlowMo8XLongBatt,
    SuperSlowMo4XLongBatt,
    SlowMo2XLongBatt,
    Normal1XLongBatt,
    UltraSlowMo8XLongBatt50Hz,
    SuperSlowMo4XLongBatt50Hz,
    SlowMo2XLongBatt50Hz,
    Normal1XLongBatt50Hz,
    SlowMo2X4K,
    SuperSlowMo4x2_7K,
    SlowMo2X4K50Hz,
    SuperSlowMo4x2_7K50Hz,
}

impl Sendable for Hero11Speed {
    open spec fn wire_bytes(&self) -> Seq<u8> {
        match self {
            Hero11Speed::UltraSlowMo8X => seq![0x03, 0xB0, 0x01, 0x00],
            Hero11Speed::SuperSlowMo4X => seq![0x03, 0xB0, 0x01, 0x01],
            Hero11Speed::SlowMo2X => seq![0x03, 0xB0, 0x01, 0x02],
            Hero11Speed::Normal1X => seq![0x03, 0xB0, 0x01, 0x03],
            Hero11Speed::SuperSlowMo4XExtBatt => seq![0x03, 0xB0, 0x01, 0x04],
            Hero11Speed::SlowMo2XExtBatt => seq![0x03, 0xB0, 0x01, 0x05],
            Hero11Speed::Normal1XExtBatt => seq![0x03, 0xB0, 0x01, 0x06],
            Hero11Speed::UltraSlowMo8X50Hz => seq![0x03, 0xB0, 0x01, 0x07],
            Hero11Speed::SuperSlowMo4X50Hz => seq![0x03, 0xB0, 0x01, 0x08],
            Hero11Speed::SlowMo2X50Hz => seq![0x03, 0xB0, 0x01, 0x09],
            Hero11Speed::Normal1X50Hz => seq![0x03, 0xB0, 0x01, 0x0A],
            Hero11Speed::SuperSlowMo4XExtBatt50Hz => seq![0x03, 0xB0, 0x01, 0x0B],
            Hero11Speed::SlowMo2XExtBatt50Hz => seq![0x03, 0xB0, 0x01, 0x0C],
            Hero11Speed::Normal1XExtBatt50Hz => seq![0x03, 0xB0, 0x01, 0x0D],
            Hero11Speed::UltraSlowMo8XExtBatt => seq![0x03, 0xB0, 0x01, 0x0E],
            Hero11Speed::UltraSlowMo8XExtBatt50Hz => seq![0x03, 0xB0, 0x01, 0x0F],
            Hero11Speed::UltraSlowMo8XLongBatt => seq![0x03, 0xB0, 0x01, 0x10],
            Hero11Speed::SuperSlowMo4XLongBatt => seq![0x03, 0xB0, 0x01, 0x11],
            Hero11Speed::SlowMo2XLongBatt => seq![0x03, 0xB0, 0x01, 0x12],
            Hero11Speed::Normal1XLongBatt => seq![0x03, 0xB0, 0x01, 0x13],
            Hero11Speed::UltraSlowMo8XLongBatt50Hz => seq![0x03, 0xB0, 0x01, 0x14],
            Hero11Speed::SuperSlowMo4XLongBatt50Hz => seq![0x03, 0xB0, 0x01, 0x15],
            Hero11Speed::SlowMo2XLongBatt50Hz => seq![0x03, 0xB0, 0x01, 0x16],
            Hero11Speed::Normal1XLongBatt50Hz => seq![0x03, 0xB0, 0x01, 0x17],
            Hero11Speed::SlowMo2X4K => seq![0x03, 0xB0, 0x01, 0x18],
            Hero11Speed::SuperSlowMo4x2_7K => seq![0x03, 0xB0, 0x01, 0x19],
            Hero11Speed::SlowMo2X4K50Hz => seq![0x03, 0xB0, 0x01, 0x1A],
            Hero11Speed::SuperSlowMo4x2_7K50Hz => seq![0x03, 0xB0, 0x01, 0x1B],
        }
    }

    open spec fn ack_bytes(&self) -> Seq<u8> {
        seq![0x02, 0x02, 0x00]
    }

    fn as_bytes(&self) -> (r: &'static [u8]) {
        match self {
            Hero11Speed::UltraSlowMo8X => &[0x03, 0xB0, 0x01, 0x00],
            Hero11Speed::SuperSlowMo4X => &[0x03, 0xB0, 0x01, 0x01],
            Hero11Speed::SlowMo2X => &[0x03, 0xB0, 0x01, 0x02],
            Hero11Speed::Normal1X => &[0x03, 0xB0, 0x01, 0x03],
            Hero11Speed::SuperSlowMo4XExtBatt => &[0x03, 0xB0, 0x01, 0x04],
            Hero11Speed::SlowMo2XExtBatt => &[0x03, 0xB0, 0x01, 0x05],
            Hero11Speed::Normal1XExtBatt => &[0x03, 0xB0, 0x01, 0x06],
            Hero11Speed::UltraSlowMo8X50Hz => &[0x03, 0xB0, 0x01, 0x07],
            Hero11Speed::SuperSlowMo4X50Hz => &[0x03, 0xB0, 0x01, 0x08],
            Hero11Speed::SlowMo2X50Hz => &[0x03, 0xB0, 0x01, 0x09],
            Hero11Speed::Normal1X50Hz => &[0x03, 0xB0, 0x01, 0x0A],
            Hero11Speed::SuperSlowMo4XExtBatt50Hz => &[0x03, 0xB0, 0x01, 0x0B],
            Hero11Speed::SlowMo2XExtBatt50Hz => &[0x03, 0xB0, 0x01, 0x0C],
            Hero11Speed::Normal1XExtBatt50Hz => &[0x03, 0xB0, 0x01, 0x0D],
            Hero11Speed::UltraSlowMo8XExtBatt => &[0x03, 0xB0, 0x01, 0x0E],
            Hero11Speed::UltraSlowMo8XExtBatt50Hz => &[0x03, 0xB0, 0x01, 0x0F],
            Hero11Speed::UltraSlowMo8XLongBatt => &[0x03, 0xB0, 0x01, 0x10],
            Hero11Speed::SuperSlowMo4XLongBatt => &[0x03, 0xB0, 0x01, 0x11],
            Hero11Speed::SlowMo2XLongBatt => &[0x03, 0xB0, 0x01, 0x12],
            Hero11Speed::Normal1XLongBatt => &[0x03, 0xB0, 0x01, 0x13],
            Hero11Speed::UltraSlowMo8XLongBatt50Hz => &[0x03, 0xB0, 0x01, 0x14],
            Hero11Speed::SuperSlowMo4XLongBatt50Hz => &[0x03, 0xB0, 0x01, 0x15],
            Hero11Speed::SlowMo2XLongBatt50Hz => &[0x03, 0xB0, 0x01, 0x16],
            Hero11Speed::Normal1XLongBatt50Hz => &[0x03, 0xB0, 0x01, 0x17],
            Hero11Speed::SlowMo2X4K => &[0x03, 0xB0, 0x01, 0x18],
            Hero11Speed::SuperSlowMo4x2_7K => &[0x03, 0xB0, 0x01, 0x19],
            Hero11Speed::SlowMo2X4K50Hz => &[0x03, 0xB0, 0x01, 0x1A],
            Hero11Speed::SuperSlowMo4x2_7K50Hz => &[0x03, 0xB0, 0x01, 0x1B],
        }
    }

    fn response_value_bytes(&self) -> (r: &'static [u8]) {
        &[0x02, 0x02, 0x00]
    }
}

pub enum Hero11NightPhoto {
    Off,
    On,
}

impl Sendable for Hero11NightPhoto {
    open spec fn wire_bytes(&self) -> Seq<u8> {
        match self {
            Hero11NightPhoto::Off => seq![0x03, 0xB1, 0x01, 0x00],
            Hero11NightPhoto::On => seq![0x03, 0xB1, 0x01, 0x01],
        }
    }

    open spec fn ack_bytes(&self) -> Seq<u8> {
        seq![0x02, 0xB1, 0x00]
    }

    fn as_bytes(&self) -> (r: &'static [u8]) {
        match self {
            Hero11NightPhoto::Off => &[0x03, 0xB1, 0x01, 0x00],
            Hero11NightPhoto::On => &[0x03, 0xB1, 0x01, 0x01],
        }
    }

    fn response_value_bytes(&self) -> (r: &'static [u8]) {
        &[0x02, 0xB1, 0x00]
    }
}

pub enum Hero11WirelessBand {
    TwoPointFourGhz,
    FiveGhz,
}

impl Sendable for Hero11WirelessBand {
    open spec fn wire_bytes(&self) -> Seq<u8> {
        match self {
            Hero11WirelessBand::TwoPointFourGhz => seq![0x03, 0xB2, 0x01, 0x00],
            Hero11WirelessBand::FiveGhz => seq![0x03, 0xB2, 0x01, 0x01],
        }
    }

    open spec fn ack_bytes(&self) -> Seq<u8> {
        seq![0x02, 0xB2, 0x00]
    }

    fn as_bytes(&self) -> (r: &'static [u8]) {
        match self {
            Hero11WirelessBand::TwoPointFourGhz => &[0x03, 0xB2, 0x01, 0x00],
            Hero11WirelessBand::FiveGhz => &[0x03, 0xB2, 0x01, 0x01],
        }
    }

    fn response_value_bytes(&self) -> (r: &'static [u8]) {
        &[0x02, 0xB2, 0x00]
    }
}

pub enum Hero11TrailLength {
    Short,
    Long,
    Max,
}

impl Sendable for Hero11TrailLength {
    open spec fn wire_bytes(&self) -> Seq<u8> {
        match self {
            Hero11TrailLength::Short => seq![0x03, 0xB3, 0x01, 0x01],
            Hero11TrailLength::Long => seq![0x03, 0xB3, 0x01, 0x02],
            Hero11TrailLength::Max => seq![0x03, 0xB3, 0x01, 0x03],
        }
    }

    open spec fn ack_bytes(&self) -> Seq<u8> {
        seq![0x02, 0xB3, 0x00]
    }

    fn as_bytes(&self) -> (r: &'static [u8]) {
        match self {
            Hero11TrailLength::Short => &[0x03, 0xB3, 0x01, 0x01],
            Hero11TrailLength::Long => &[0x03, 0xB3, 0x01, 0x02],
            Hero11TrailLength::Max => &[0x03, 0xB3, 0x01, 0x03],
        }
    }

    fn response_value_bytes(&self) -> (r: &'static [u8]) {
        &[0x02, 0xB3, 0x00]
    }
}

pub enum Hero11VideoMode {
    HighestQuality,
    ExtendedBattery,
    ExtendedBatteryGreenIcon,
    LongestBatteryGreenIcon,
}

impl Sendable for Hero11VideoMode {
    open spec fn wire_bytes(&self) -> Seq<u8> {
        match self {
            Hero11VideoMode::HighestQuality => seq![0x03, 0xB4, 0x01, 0x00],
            Hero11VideoMode::ExtendedBattery => seq![0x03, 0xB4, 0x01, 0x01],
            Hero11VideoMode::ExtendedBatteryGreenIcon => seq![0x03, 0xB4, 0x01, 0x65],
            Hero11VideoMode::LongestBatteryGreenIcon => seq![0x03, 0xB4, 0x01, 0x66],
        }
    }

    open spec fn ack_bytes(&self) -> Seq<u8> {
        seq![0x02, 0xB4, 0x00]
    }

    fn as_bytes(&self) -> (r: &'static [u8]) {
        match self {
            Hero11VideoMode::HighestQuality => &[0x03, 0xB4, 0x01, 0x00],
            Hero11VideoMode::ExtendedBattery => &[0x03, 0xB4, 0x01, 0x01],
            Hero11VideoMode::ExtendedBatteryGreenIcon => &[0x03, 0xB4, 0x01, 0x65],
            Hero11VideoMode::LongestBatteryGreenIcon => &[0x03, 0xB4, 0x01, 0x66],
        }
    }

    fn response_value_bytes(&self) -> (r: &'static [u8]) {
        &[0x02, 0xB4, 0x00]
    }
}
} // verus!
