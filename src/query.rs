//! The status catalog and the query frames: building the frames that ask the
//! camera for status values, parsing the frames that answer them, and reading
//! the reported value according to its status identifier.

use vstd::prelude::*;
use vstd::slice::slice_to_vec;
use vstd::utf8::{decode_utf8, valid_utf8};

verus! {

/// The five shapes that a reported status value can take.
#[derive(Clone, Copy, Debug, PartialEq, Eq, Structural)]
pub enum StatusShape {
    /// A flag: the first byte is 1 for true.
    Bool,
    /// A single byte, such as a state or a level.
    Byte,
    /// A single byte from 0 to 100.
    Percentage,
    /// Raw bytes, such as a counter or a time.
    ByteVec,
    /// UTF-8 text, such as a network name.
    Text,
}

/// The status identifiers of the camera, each a one-byte code.
#[derive(Clone, Copy, Debug, PartialEq, Eq, Structural)]
pub enum StatusID {
    /// Indicates if the system's internal battery is present.
    InternalBatteryPresent,

    /// Approximate level of the internal battery in bars.
    InternalBatteryLevel,

    /// Indicates if the system is currently overheating.
    SystemHot,

    /// Indicates if the camera is busy.
    SystemBusy,

    /// Indicates if Quick Capture feature is enabled.
    QuickCaptureActive,

    /// Indicates if the system is currently encoding.
    EncodingActive,

    /// Indicates if LCD lock is active.
    LCDLockActive,

    /// Duration (in seconds) of the video encoding; 0 otherwise.
    VideoProgressCounter,

    /// Are Wireless Connections enabled?
    WirelessConnectionsEnabled,

    /// The pairing state of the camera.
    PairingState,

    /// The last type of pairing the camera engaged in.
    LastPairingType,

    /// Time (milliseconds) since boot of last successful pairing complete action.
    PairTime,

    /// State of current scan for WiFi Access Points.
    WiFiScanState,

    /// The time, in milliseconds since boot, that the WiFi Access Point scan completed.
    WiFiScanTimeMsec,

    /// WiFi AP provisioning state.
    WiFiProvisionStatus,

    /// Wireless remote control version.
    RemoteControlVersion,

    /// Indicates if a wireless remote control is connected.
    RemoteControlConnected,

    /// Wireless Pairing State.
    WirelessPairingState,

    /// Provisioned WIFI AP SSID.
    WlanSSID,

    /// Camera's WIFI SSID.
    ApSSID,

    /// The number of wireless devices connected to the camera.
    AppCount,

    /// Indicates if Preview Stream is enabled.
    PreviewStreamEnabled,

    /// Primary Storage Status.
    SdStatus,

    /// How many photos can be taken before sdcard is full.
    RemainingPhotos,

    /// How many minutes of video can be captured before sdcard is full.
    RemainingVideoTime,

    /// How many group photos can be taken before sdcard is full.
    NumGroupPhotos,

    /// Total number of group videos on sdcard.
    NumGroupVideos,

    /// Total number of photos on sdcard.
    NumTotalPhotos,

    /// Total number of videos on sdcard.
    NumTotalVideos,

    /// The current status of Over The Air (OTA) update.
    OtaStatus,

    /// Indicates if there is a pending request to cancel a firmware update download.
    DownloadCancelRequestPending,

    /// Indicates if the locate camera feature is active.
    CameraLocateActive,

    /// The current timelapse interval countdown value.
    MultiShotCountDown,

    /// Remaining space on the sdcard in Kilobytes.
    RemainingSpace,

    /// Indicates if preview stream is supported in current mode.
    PreviewStreamSupported,

    /// WiFi signal strength in bars.
    WiFiBars,

    /// The number of hilights in encoding video.
    NumHilights,

    /// Time since boot (msec) of most recent hilight in encoding video.
    LastHilightTimeMsec,

    /// The min time between camera status updates (msec).
    NextPollMsec,

    /// How many minutes of Timelapse video can be captured before sdcard is full.
    RemainingTimelapseTime,

    /// Liveview Exposure Select Mode.
    ExposureSelectType,

    /// Liveview Exposure Select: x-coordinate (percent).
    ExposureSelectX,

    /// Liveview Exposure Select: y-coordinate (percent).
    ExposureSelectY,

    /// Indicates if the camera currently has a GPS lock.
    GpsStatus,

    /// Indicates if the camera is in AP Mode.
    ApState,

    /// Internal battery level (percent).
    InternalBatteryPercentage,

    /// Microphone Accessory status.
    AccMicStatus,

    /// Digital Zoom level (percent).
    DigitalZoom,

    /// Wireless Band.
    WirelessBand,

    /// Indicates if Digital Zoom feature is available.
    DigitalZoomActive,

    /// Indicates if current video settings are mobile friendly.
    MobileFriendlyVideo,

    /// Indicates if the camera is in First Time Use (FTU) UI flow.
    FirstTimeUse,

    /// Indicates if 5GHz wireless band is available.
    Band5ghzAvailable,

    /// Indicates if the system is ready to accept commands.
    SystemReady,

    /// Indicates if the internal battery is charged sufficiently for OTA update.
    BattOkayForOta,

    /// Indicates if the camera is getting too cold to continue recording.
    VideoLowTempAlert,

    /// The rotational orientation of the camera.
    ActualOrientation,

    /// Indicates if the camera can zoom while encoding.
    ZoomWhileEncoding,

    /// Current flatmode ID.
    CurrentMode,

    /// Current Video Preset (ID).
    ActiveVideoPresets,

    /// Current Photo Preset (ID).
    ActivePhotoPresets,

    /// Current Timelapse Preset (ID).
    ActiveTimelapsePresets,

    /// Current Preset Group (ID).
    ActivePresetsGroup,

    /// Current Preset (ID).
    ActivePreset,

    /// Preset Modified Status.
    PresetModified,

    /// How many Live Bursts can be captured before sdcard is full.
    RemainingLiveBursts,

    /// Total number of Live Bursts on sdcard.
    NumTotalLiveBursts,

    /// Indicates if Capture Delay is currently active.
    CaptureDelayActive,

    /// Media mod State.
    MediaModMicStatus,

    /// Time Warp Speed.
    TimewarpSpeedRampActive,

    /// Indicates if the system's Linux core is active.
    LinuxCoreActive,

    /// Camera lens type.
    CameraLensType,

    /// Indicates if Video Hindsight Capture is Active.
    VideoHindsightCaptureActive,

    /// Scheduled Capture Preset ID.
    ScheduledPreset,

    /// Indicates if Scheduled Capture is set.
    ScheduledEnabled,

    /// Media Mode Status.
    MediaModStatus,

    /// Indicates if sdcard meets specified minimum write speed.
    SdRatingCheckError,

    /// Number of sdcard write speed errors since device booted.
    SdWriteSpeedError,

    /// Indicates if Turbo Transfer is active.
    TurboTransfer,

    /// Camera control status ID.
    CameraControlStatus,

    /// Indicates if the camera is connected to a PC via USB.
    UsbConnected,

    /// Camera control over USB state.
    AllowControlOverUsb,

    /// Total SD card capacity in Kilobytes.
    TotalSDSpaceKB,
}

/// The one-byte code of a status identifier.
pub open spec fn status_code(id: StatusID) -> u8 {
    match id {
        StatusID::InternalBatteryPresent => 1,
        StatusID::InternalBatteryLevel => 2,
        StatusID::SystemHot => 6,
        StatusID::SystemBusy => 8,
        StatusID::QuickCaptureActive => 9,
        StatusID::EncodingActive => 10,
        StatusID::LCDLockActive => 11,
        StatusID::VideoProgressCounter => 13,
        StatusID::WirelessConnectionsEnabled => 17,
        StatusID::PairingState => 19,
        StatusID::LastPairingType => 20,
        StatusID::PairTime => 21,
        StatusID::WiFiScanState => 22,
        StatusID::WiFiScanTimeMsec => 23,
        StatusID::WiFiProvisionStatus => 24,
        StatusID::RemoteControlVersion => 26,
        StatusID::RemoteControlConnected => 27,
        StatusID::WirelessPairingState => 28,
        StatusID::WlanSSID => 29,
        StatusID::ApSSID => 30,
        StatusID::AppCount => 31,
        StatusID::PreviewStreamEnabled => 32,
        StatusID::SdStatus => 33,
        StatusID::RemainingPhotos => 34,
        StatusID::RemainingVideoTime => 35,
        StatusID::NumGroupPhotos => 36,
        StatusID::NumGroupVideos => 37,
        StatusID::NumTotalPhotos => 38,
        StatusID::NumTotalVideos => 39,
        StatusID::OtaStatus => 41,
        StatusID::DownloadCancelRequestPending => 42,
        StatusID::CameraLocateActive => 45,
        StatusID::MultiShotCountDown => 49,
        StatusID::RemainingSpace => 54,
        StatusID::PreviewStreamSupported => 55,
        StatusID::WiFiBars => 56,
        StatusID::NumHilights => 58,
        StatusID::LastHilightTimeMsec => 59,
        StatusID::NextPollMsec => 60,
        StatusID::RemainingTimelapseTime => 64,
        StatusID::ExposureSelectType => 65,
        StatusID::ExposureSelectX => 66,
        StatusID::ExposureSelectY => 67,
        StatusID::GpsStatus => 68,
        StatusID::ApState => 69,
        StatusID::InternalBatteryPercentage => 70,
        StatusID::AccMicStatus => 74,
        StatusID::DigitalZoom => 75,
        StatusID::WirelessBand => 76,
        StatusID::DigitalZoomActive => 77,
        StatusID::MobileFriendlyVideo => 78,
        StatusID::FirstTimeUse => 79,
        StatusID::Band5ghzAvailable => 81,
        StatusID::SystemReady => 82,
        StatusID::BattOkayForOta => 83,
        StatusID::VideoLowTempAlert => 85,
        StatusID::ActualOrientation => 86,
        StatusID::ZoomWhileEncoding => 88,
        StatusID::CurrentMode => 89,
        StatusID::ActiveVideoPresets => 93,
        StatusID::ActivePhotoPresets => 94,
        StatusID::ActiveTimelapsePresets => 95,
        StatusID::ActivePresetsGroup => 96,
        StatusID::ActivePreset => 97,
        StatusID::PresetModified => 98,
        StatusID::RemainingLiveBursts => 99,
        StatusID::NumTotalLiveBursts => 100,
        StatusID::CaptureDelayActive => 101,
        StatusID::MediaModMicStatus => 102,
        StatusID::TimewarpSpeedRampActive => 103,
        StatusID::LinuxCoreActive => 104,
        StatusID::CameraLensType => 105,
        StatusID::VideoHindsightCaptureActive => 106,
        StatusID::ScheduledPreset => 107,
        StatusID::ScheduledEnabled => 108,
        StatusID::MediaModStatus => 110,
        StatusID::SdRatingCheckError => 111,
        StatusID::SdWriteSpeedError => 112,
        StatusID::TurboTransfer => 113,
        StatusID::CameraControlStatus => 114,
        StatusID::UsbConnected => 115,
        StatusID::AllowControlOverUsb => 116,
        StatusID::TotalSDSpaceKB => 117,
    }
}

/// The shape of the value that the camera reports for a status identifier.
pub open spec fn status_shape(id: StatusID) -> StatusShape {
    match id {
        StatusID::InternalBatteryPresent => StatusShape::Bool,
        StatusID::InternalBatteryLevel => StatusShape::Byte,
        StatusID::SystemHot => StatusShape::Bool,
        StatusID::SystemBusy => StatusShape::Bool,
        StatusID::QuickCaptureActive => StatusShape::Bool,
        StatusID::EncodingActive => StatusShape::Bool,
        StatusID::LCDLockActive => StatusShape::Bool,
        StatusID::VideoProgressCounter => StatusShape::ByteVec,
        StatusID::WirelessConnectionsEnabled => StatusShape::Bool,
        StatusID::PairingState => StatusShape::Byte,
        StatusID::LastPairingType => StatusShape::Byte,
        StatusID::PairTime => StatusShape::ByteVec,
        StatusID::WiFiScanState => StatusShape::Byte,
        StatusID::WiFiScanTimeMsec => StatusShape::ByteVec,
        StatusID::WiFiProvisionStatus => StatusShape::Byte,
        StatusID::RemoteControlVersion => StatusShape::ByteVec,
        StatusID::RemoteControlConnected => StatusShape::Bool,
        StatusID::WirelessPairingState => StatusShape::ByteVec,
        StatusID::WlanSSID => StatusShape::Text,
        StatusID::ApSSID => StatusShape::Text,
        StatusID::AppCount => StatusShape::ByteVec,
        StatusID::PreviewStreamEnabled => StatusShape::Bool,
        StatusID::SdStatus => StatusShape::Byte,
        StatusID::RemainingPhotos => StatusShape::ByteVec,
        StatusID::RemainingVideoTime => StatusShape::ByteVec,
        StatusID::NumGroupPhotos => StatusShape::ByteVec,
        StatusID::NumGroupVideos => StatusShape::ByteVec,
        StatusID::NumTotalPhotos => StatusShape::ByteVec,
        StatusID::NumTotalVideos => StatusShape::ByteVec,
        StatusID::OtaStatus => StatusShape::Byte,
        StatusID::DownloadCancelRequestPending => StatusShape::Bool,
        StatusID::CameraLocateActive => StatusShape::Bool,
        StatusID::MultiShotCountDown => StatusShape::ByteVec,
        StatusID::RemainingSpace => StatusShape::ByteVec,
        StatusID::PreviewStreamSupported => StatusShape::Bool,
        StatusID::WiFiBars => StatusShape::ByteVec,
        StatusID::NumHilights => StatusShape::ByteVec,
        StatusID::LastHilightTimeMsec => StatusShape::ByteVec,
        StatusID::NextPollMsec => StatusShape::ByteVec,
        StatusID::RemainingTimelapseTime => StatusShape::ByteVec,
        StatusID::ExposureSelectType => StatusShape::Byte,
        StatusID::ExposureSelectX => StatusShape::Percentage,
        StatusID::ExposureSelectY => StatusShape::Percentage,
        StatusID::GpsStatus => StatusShape::Bool,
        StatusID::ApState => StatusShape::Bool,
        StatusID::InternalBatteryPercentage => StatusShape::Percentage,
        StatusID::AccMicStatus => StatusShape::Byte,
        StatusID::DigitalZoom => StatusShape::Percentage,
        StatusID::WirelessBand => StatusShape::Byte,
        StatusID::DigitalZoomActive => StatusShape::Bool,
        StatusID::MobileFriendlyVideo => StatusShape::Bool,
        StatusID::FirstTimeUse => StatusShape::Bool,
        StatusID::Band5ghzAvailable => StatusShape::Bool,
        StatusID::SystemReady => StatusShape::Bool,
        StatusID::BattOkayForOta => StatusShape::Bool,
        StatusID::VideoLowTempAlert => StatusShape::Bool,
        StatusID::ActualOrientation => StatusShape::Byte,
        StatusID::ZoomWhileEncoding => StatusShape::Bool,
        StatusID::CurrentMode => StatusShape::ByteVec,
        StatusID::ActiveVideoPresets => StatusShape::ByteVec,
        StatusID::ActivePhotoPresets => StatusShape::ByteVec,
        StatusID::ActiveTimelapsePresets => StatusShape::ByteVec,
        StatusID::ActivePresetsGroup => StatusShape::ByteVec,
        StatusID::ActivePreset => StatusShape::ByteVec,
        StatusID::PresetModified => StatusShape::ByteVec,
        StatusID::RemainingLiveBursts => StatusShape::ByteVec,
        StatusID::NumTotalLiveBursts => StatusShape::ByteVec,
        StatusID::CaptureDelayActive => StatusShape::Bool,
        StatusID::MediaModMicStatus => StatusShape::Byte,
        StatusID::TimewarpSpeedRampActive => StatusShape::Byte,
        StatusID::LinuxCoreActive => StatusShape::Bool,
        StatusID::CameraLensType => StatusShape::Byte,
        StatusID::VideoHindsightCaptureActive => StatusShape::Bool,
        StatusID::ScheduledPreset => StatusShape::ByteVec,
        StatusID::ScheduledEnabled => StatusShape::Bool,
        StatusID::MediaModStatus => StatusShape::Byte,
        StatusID::SdRatingCheckError => StatusShape::Bool,
        StatusID::SdWriteSpeedError => StatusShape::ByteVec,
        StatusID::TurboTransfer => StatusShape::Bool,
        StatusID::CameraControlStatus => StatusShape::Byte,
        StatusID::UsbConnected => StatusShape::Bool,
        StatusID::AllowControlOverUsb => StatusShape::Bool,
        StatusID::TotalSDSpaceKB => StatusShape::ByteVec,
    }
}

impl StatusID {
    /// The one-byte code of this identifier.
    pub fn as_byte(self) -> (r: u8)
        ensures
            r == status_code(self),
    {
        match self {
            StatusID::InternalBatteryPresent => 1,
            StatusID::InternalBatteryLevel => 2,
            StatusID::SystemHot => 6,
            StatusID::SystemBusy => 8,
            StatusID::QuickCaptureActive => 9,
            StatusID::EncodingActive => 10,
            StatusID::LCDLockActive => 11,
            StatusID::VideoProgressCounter => 13,
            StatusID::WirelessConnectionsEnabled => 17,
            StatusID::PairingState => 19,
            StatusID::LastPairingType => 20,
            StatusID::PairTime => 21,
            StatusID::WiFiScanState => 22,
            StatusID::WiFiScanTimeMsec => 23,
            StatusID::WiFiProvisionStatus => 24,
            StatusID::RemoteControlVersion => 26,
            StatusID::RemoteControlConnected => 27,
            StatusID::WirelessPairingState => 28,
            StatusID::WlanSSID => 29,
            StatusID::ApSSID => 30,
            StatusID::AppCount => 31,
            StatusID::PreviewStreamEnabled => 32,
            StatusID::SdStatus => 33,
            StatusID::RemainingPhotos => 34,
            StatusID::RemainingVideoTime => 35,
            StatusID::NumGroupPhotos => 36,
            StatusID::NumGroupVideos => 37,
            StatusID::NumTotalPhotos => 38,
            StatusID::NumTotalVideos => 39,
            StatusID::OtaStatus => 41,
            StatusID::DownloadCancelRequestPending => 42,
            StatusID::CameraLocateActive => 45,
            StatusID::MultiShotCountDown => 49,
            StatusID::RemainingSpace => 54,
            StatusID::PreviewStreamSupported => 55,
            StatusID::WiFiBars => 56,
            StatusID::NumHilights => 58,
            StatusID::LastHilightTimeMsec => 59,
            StatusID::NextPollMsec => 60,
            StatusID::RemainingTimelapseTime => 64,
            StatusID::ExposureSelectType => 65,
            StatusID::ExposureSelectX => 66,
            StatusID::ExposureSelectY => 67,
            StatusID::GpsStatus => 68,
            StatusID::ApState => 69,
            StatusID::InternalBatteryPercentage => 70,
            StatusID::AccMicStatus => 74,
            StatusID::DigitalZoom => 75,
            StatusID::WirelessBand => 76,
            StatusID::DigitalZoomActive => 77,
            StatusID::MobileFriendlyVideo => 78,
            StatusID::FirstTimeUse => 79,
            StatusID::Band5ghzAvailable => 81,
            StatusID::SystemReady => 82,
            StatusID::BattOkayForOta => 83,
            StatusID::VideoLowTempAlert => 85,
            StatusID::ActualOrientation => 86,
            StatusID::ZoomWhileEncoding => 88,
            StatusID::CurrentMode => 89,
            StatusID::ActiveVideoPresets => 93,
            StatusID::ActivePhotoPresets => 94,
            StatusID::ActiveTimelapsePresets => 95,
            StatusID::ActivePresetsGroup => 96,
            StatusID::ActivePreset => 97,
            StatusID::PresetModified => 98,
            StatusID::RemainingLiveBursts => 99,
            StatusID::NumTotalLiveBursts => 100,
            StatusID::CaptureDelayActive => 101,
            StatusID::MediaModMicStatus => 102,
            StatusID::TimewarpSpeedRampActive => 103,
            StatusID::LinuxCoreActive => 104,
            StatusID::CameraLensType => 105,
            StatusID::VideoHindsightCaptureActive => 106,
            StatusID::ScheduledPreset => 107,
            StatusID::ScheduledEnabled => 108,
            StatusID::MediaModStatus => 110,
            StatusID::SdRatingCheckError => 111,
            StatusID::SdWriteSpeedError => 112,
            StatusID::TurboTransfer => 113,
            StatusID::CameraControlStatus => 114,
            StatusID::UsbConnected => 115,
            StatusID::AllowControlOverUsb => 116,
            StatusID::TotalSDSpaceKB => 117,
        }
    }

    /// The shape of the value reported for this identifier.
    pub fn shape(self) -> (r: StatusShape)
        ensures
            r == status_shape(self),
    {
        match self {
            StatusID::InternalBatteryPresent => StatusShape::Bool,
            StatusID::InternalBatteryLevel => StatusShape::Byte,
            StatusID::SystemHot => StatusShape::Bool,
            StatusID::SystemBusy => StatusShape::Bool,
            StatusID::QuickCaptureActive => StatusShape::Bool,
            StatusID::EncodingActive => StatusShape::Bool,
            StatusID::LCDLockActive => StatusShape::Bool,
            StatusID::VideoProgressCounter => StatusShape::ByteVec,
            StatusID::WirelessConnectionsEnabled => StatusShape::Bool,
            StatusID::PairingState => StatusShape::Byte,
            StatusID::LastPairingType => StatusShape::Byte,
            StatusID::PairTime => StatusShape::ByteVec,
            StatusID::WiFiScanState => StatusShape::Byte,
            StatusID::WiFiScanTimeMsec => StatusShape::ByteVec,
            StatusID::WiFiProvisionStatus => StatusShape::Byte,
            StatusID::RemoteControlVersion => StatusShape::ByteVec,
            StatusID::RemoteControlConnected => StatusShape::Bool,
            StatusID::WirelessPairingState => StatusShape::ByteVec,
            StatusID::WlanSSID => StatusShape::Text,
            StatusID::ApSSID => StatusShape::Text,
            StatusID::AppCount => StatusShape::ByteVec,
            StatusID::PreviewStreamEnabled => StatusShape::Bool,
            StatusID::SdStatus => StatusShape::Byte,
            StatusID::RemainingPhotos => StatusShape::ByteVec,
            StatusID::RemainingVideoTime => StatusShape::ByteVec,
            StatusID::NumGroupPhotos => StatusShape::ByteVec,
            StatusID::NumGroupVideos => StatusShape::ByteVec,
            StatusID::NumTotalPhotos => StatusShape::ByteVec,
            StatusID::NumTotalVideos => StatusShape::ByteVec,
            StatusID::OtaStatus => StatusShape::Byte,
            StatusID::DownloadCancelRequestPending => StatusShape::Bool,
            StatusID::CameraLocateActive => StatusShape::Bool,
            StatusID::MultiShotCountDown => StatusShape::ByteVec,
            StatusID::RemainingSpace => StatusShape::ByteVec,
            StatusID::PreviewStreamSupported => StatusShape::Bool,
            StatusID::WiFiBars => StatusShape::ByteVec,
            StatusID::NumHilights => StatusShape::ByteVec,
            StatusID::LastHilightTimeMsec => StatusShape::ByteVec,
            StatusID::NextPollMsec => StatusShape::ByteVec,
            StatusID::RemainingTimelapseTime => StatusShape::ByteVec,
            StatusID::ExposureSelectType => StatusShape::Byte,
            StatusID::ExposureSelectX => StatusShape::Percentage,
            StatusID::ExposureSelectY => StatusShape::Percentage,
            StatusID::GpsStatus => StatusShape::Bool,
            StatusID::ApState => StatusShape::Bool,
            StatusID::InternalBatteryPercentage => StatusShape::Percentage,
            StatusID::AccMicStatus => StatusShape::Byte,
            StatusID::DigitalZoom => StatusShape::Percentage,
            StatusID::WirelessBand => StatusShape::Byte,
            StatusID::DigitalZoomActive => StatusShape::Bool,
            StatusID::MobileFriendlyVideo => StatusShape::Bool,
            StatusID::FirstTimeUse => StatusShape::Bool,
            StatusID::Band5ghzAvailable => StatusShape::Bool,
            StatusID::SystemReady => StatusShape::Bool,
            StatusID::BattOkayForOta => StatusShape::Bool,
            StatusID::VideoLowTempAlert => StatusShape::Bool,
            StatusID::ActualOrientation => StatusShape::Byte,
            StatusID::ZoomWhileEncoding => StatusShape::Bool,
            StatusID::CurrentMode => StatusShape::ByteVec,
            StatusID::ActiveVideoPresets => StatusShape::ByteVec,
            StatusID::ActivePhotoPresets => StatusShape::ByteVec,
            StatusID::ActiveTimelapsePresets => StatusShape::ByteVec,
            StatusID::ActivePresetsGroup => StatusShape::ByteVec,
            StatusID::ActivePreset => StatusShape::ByteVec,
            StatusID::PresetModified => StatusShape::ByteVec,
            StatusID::RemainingLiveBursts => StatusShape::ByteVec,
            StatusID::NumTotalLiveBursts => StatusShape::ByteVec,
            StatusID::CaptureDelayActive => StatusShape::Bool,
            StatusID::MediaModMicStatus => StatusShape::Byte,
            StatusID::TimewarpSpeedRampActive => StatusShape::Byte,
            StatusID::LinuxCoreActive => StatusShape::Bool,
            StatusID::CameraLensType => StatusShape::Byte,
            StatusID::VideoHindsightCaptureActive => StatusShape::Bool,
            StatusID::ScheduledPreset => StatusShape::ByteVec,
            StatusID::ScheduledEnabled => StatusShape::Bool,
            StatusID::MediaModStatus => StatusShape::Byte,
            StatusID::SdRatingCheckError => StatusShape::Bool,
            StatusID::SdWriteSpeedError => StatusShape::ByteVec,
            StatusID::TurboTransfer => StatusShape::Bool,
            StatusID::CameraControlStatus => StatusShape::Byte,
            StatusID::UsbConnected => StatusShape::Bool,
            StatusID::AllowControlOverUsb => StatusShape::Bool,
            StatusID::TotalSDSpaceKB => StatusShape::ByteVec,
        }
    }
}

/// The identifier whose code is `id`, if any has it.
pub open spec fn status_with_code(id: u8) -> Option<StatusID> {
    if exists|s: StatusID| status_code(s) == id {
        Some(choose|s: StatusID| status_code(s) == id)
    } else {
        None
    }
}

/// A byte that is no status identifier's code.
#[derive(Clone, Copy, Debug, PartialEq, Eq, Structural)]
pub struct InvalidStatusId(pub u8);

/// The identifier whose code is `id`, or the error that names `id`.
pub open spec fn status_from_byte(id: u8) -> Result<StatusID, InvalidStatusId> {
    match status_with_code(id) {
        Some(s) => Ok(s),
        None => Err(InvalidStatusId(id)),
    }
}

impl TryFrom<u8> for StatusID {
    type Error = InvalidStatusId;

    fn try_from(id: u8) -> (r: Result<StatusID, InvalidStatusId>) {
        let r = match id {
            1 => Ok(StatusID::InternalBatteryPresent),
            2 => Ok(StatusID::InternalBatteryLevel),
            6 => Ok(StatusID::SystemHot),
            8 => Ok(StatusID::SystemBusy),
            9 => Ok(StatusID::QuickCaptureActive),
            10 => Ok(StatusID::EncodingActive),
            11 => Ok(StatusID::LCDLockActive),
            13 => Ok(StatusID::VideoProgressCounter),
            17 => Ok(StatusID::WirelessConnectionsEnabled),
            19 => Ok(StatusID::PairingState),
            20 => Ok(StatusID::LastPairingType),
            21 => Ok(StatusID::PairTime),
            22 => Ok(StatusID::WiFiScanState),
            23 => Ok(StatusID::WiFiScanTimeMsec),
            24 => Ok(StatusID::WiFiProvisionStatus),
            26 => Ok(StatusID::RemoteControlVersion),
            27 => Ok(StatusID::RemoteControlConnected),
            28 => Ok(StatusID::WirelessPairingState),
            29 => Ok(StatusID::WlanSSID),
            30 => Ok(StatusID::ApSSID),
            31 => Ok(StatusID::AppCount),
            32 => Ok(StatusID::PreviewStreamEnabled),
            33 => Ok(StatusID::SdStatus),
            34 => Ok(StatusID::RemainingPhotos),
            35 => Ok(StatusID::RemainingVideoTime),
            36 => Ok(StatusID::NumGroupPhotos),
            37 => Ok(StatusID::NumGroupVideos),
            38 => Ok(StatusID::NumTotalPhotos),
            39 => Ok(StatusID::NumTotalVideos),
            41 => Ok(StatusID::OtaStatus),
            42 => Ok(StatusID::DownloadCancelRequestPending),
            45 => Ok(StatusID::CameraLocateActive),
            49 => Ok(StatusID::MultiShotCountDown),
            54 => Ok(StatusID::RemainingSpace),
            55 => Ok(StatusID::PreviewStreamSupported),
            56 => Ok(StatusID::WiFiBars),
            58 => Ok(StatusID::NumHilights),
            59 => Ok(StatusID::LastHilightTimeMsec),
            60 => Ok(StatusID::NextPollMsec),
            64 => Ok(StatusID::RemainingTimelapseTime),
            65 => Ok(StatusID::ExposureSelectType),
            66 => Ok(StatusID::ExposureSelectX),
            67 => Ok(StatusID::ExposureSelectY),
            68 => Ok(StatusID::GpsStatus),
            69 => Ok(StatusID::ApState),
            70 => Ok(StatusID::InternalBatteryPercentage),
            74 => Ok(StatusID::AccMicStatus),
            75 => Ok(StatusID::DigitalZoom),
            76 => Ok(StatusID::WirelessBand),
            77 => Ok(StatusID::DigitalZoomActive),
            78 => Ok(StatusID::MobileFriendlyVideo),
            79 => Ok(StatusID::FirstTimeUse),
            81 => Ok(StatusID::Band5ghzAvailable),
            82 => Ok(StatusID::SystemReady),
            83 => Ok(StatusID::BattOkayForOta),
            85 => Ok(StatusID::VideoLowTempAlert),
            86 => Ok(StatusID::ActualOrientation),
            88 => Ok(StatusID::ZoomWhileEncoding),
            89 => Ok(StatusID::CurrentMode),
            93 => Ok(StatusID::ActiveVideoPresets),
            94 => Ok(StatusID::ActivePhotoPresets),
            95 => Ok(StatusID::ActiveTimelapsePresets),
            96 => Ok(StatusID::ActivePresetsGroup),
            97 => Ok(StatusID::ActivePreset),
            98 => Ok(StatusID::PresetModified),
            99 => Ok(StatusID::RemainingLiveBursts),
            100 => Ok(StatusID::NumTotalLiveBursts),
            101 => Ok(StatusID::CaptureDelayActive),
            102 => Ok(StatusID::MediaModMicStatus),
            103 => Ok(StatusID::TimewarpSpeedRampActive),
            104 => Ok(StatusID::LinuxCoreActive),
            105 => Ok(StatusID::CameraLensType),
            106 => Ok(StatusID::VideoHindsightCaptureActive),
            107 => Ok(StatusID::ScheduledPreset),
            108 => Ok(StatusID::ScheduledEnabled),
            110 => Ok(StatusID::MediaModStatus),
            111 => Ok(StatusID::SdRatingCheckError),
            112 => Ok(StatusID::SdWriteSpeedError),
            113 => Ok(StatusID::TurboTransfer),
            114 => Ok(StatusID::CameraControlStatus),
            115 => Ok(StatusID::UsbConnected),
            116 => Ok(StatusID::AllowControlOverUsb),
            117 => Ok(StatusID::TotalSDSpaceKB),
            _ => Err(InvalidStatusId(id)),
        };
        proof {
            lemma_status_code_injective();
            if let Ok(found) = r {
                assert(status_code(found) == id);
            }
        }
        r
    }
}

impl vstd::std_specs::convert::TryFromSpecImpl<u8> for StatusID {
    open spec fn obeys_try_from_spec() -> bool {
        true
    }

    open spec fn try_from_spec(id: u8) -> Result<StatusID, InvalidStatusId> {
        status_from_byte(id)
    }
}

/// No two status identifiers share a code.
pub proof fn lemma_status_code_injective()
    ensures
        forall|a: StatusID, b: StatusID|
            status_code(a) == status_code(b) ==> a == b,
{
}

// ---------------------------------------------------------------------------
// Query frames

/// The frame `[length, kind, id_0, ..., id_n]` that asks about `ids`, where
/// `length` counts the kind byte and the identifiers.
pub open spec fn query_frame(kind: u8, ids: Seq<StatusID>) -> Seq<u8> {
    seq![(ids.len() + 1) as u8, kind] + ids.map_values(|id: StatusID| status_code(id))
}

/// Builds the query frame of kind `query_id` over `status_ids`, in their order.
pub fn query_builder(query_id: u8, status_ids: Vec<StatusID>) -> (r: Vec<u8>)
    requires
        status_ids.len() < 255,
    ensures
        r@ == query_frame(query_id, status_ids@),
{
    let mut frame: Vec<u8> = Vec::new();
    frame.push(status_ids.len() as u8 + 1);
    frame.push(query_id);
    let mut i: usize = 0;
    while i < status_ids.len()
        invariant
            i <= status_ids.len(),
            frame@ == seq![(status_ids@.len() + 1) as u8, query_id] + status_ids@.subrange(
                0,
                i as int,
            ).map_values(|id: StatusID| status_code(id)),
        decreases status_ids.len() - i,
    {
        frame.push(status_ids[i].as_byte());
        i += 1;
        proof {
            assert(status_ids@.subrange(0, i as int) =~= status_ids@.subrange(0, i - 1)
                + seq![status_ids@[i - 1]]);
        }
        assert(frame@ =~= seq![(status_ids@.len() + 1) as u8, query_id] + status_ids@.subrange(
            0,
            i as int,
        ).map_values(|id: StatusID| status_code(id)));
    }
    assert(status_ids@.subrange(0, status_ids@.len() as int) =~= status_ids@);
    frame
}

/// A query: a request for setting or status values, or a registration for
/// (or cancellation of) updates of them.
pub enum GoProQuery {
    GetSettingValue(Vec<StatusID>),
    GetAllSettingValues,
    GetStatusValue(Vec<StatusID>),
    GetAllStatusValues,
    GetAvailableOptionSettings(Vec<StatusID>),
    GetAvailableOptionAllSettings,
    RegisterSettingValueUpdates(Vec<StatusID>),
    RegisterStatusValueUpdates(Vec<StatusID>),
    RegisterAvailableOptionSettings(Vec<StatusID>),
    UnregisterSettingValueUpdates(Vec<StatusID>),
    UnregisterStatusValueUpdates(Vec<StatusID>),
    UnregisterAvailableOptionSettings(Vec<StatusID>),
    /// Its frame is fixed and does not follow the pattern of the others.
    AsyncNotificationSettingChanged,
    /// Its frame is fixed and does not follow the pattern of the others.
    AsyncNotificationStatusChanged,
    /// Its frame is fixed and does not follow the pattern of the others.
    AsyncNotificationOptionSettingChanged,
}

impl GoProQuery {
    /// The kind byte of the query.
    pub open spec fn kind(&self) -> u8 {
        match self {
            GoProQuery::GetSettingValue(_) => 0x12,
            GoProQuery::GetAllSettingValues => 0x12,
            GoProQuery::GetStatusValue(_) => 0x13,
            GoProQuery::GetAllStatusValues => 0x13,
            GoProQuery::GetAvailableOptionSettings(_) => 0x32,
            GoProQuery::GetAvailableOptionAllSettings => 0x32,
            GoProQuery::RegisterSettingValueUpdates(_) => 0x52,
            GoProQuery::RegisterStatusValueUpdates(_) => 0x53,
            GoProQuery::RegisterAvailableOptionSettings(_) => 0x62,
            GoProQuery::UnregisterSettingValueUpdates(_) => 0x72,
            GoProQuery::UnregisterStatusValueUpdates(_) => 0x73,
            GoProQuery::UnregisterAvailableOptionSettings(_) => 0x82,
            GoProQuery::AsyncNotificationSettingChanged => 0x92,
            GoProQuery::AsyncNotificationStatusChanged => 0x93,
            GoProQuery::AsyncNotificationOptionSettingChanged => 0xA2,
        }
    }

    /// The identifiers that the query lists, for the kinds that list any.
    pub open spec fn ids(&self) -> Option<Seq<StatusID>> {
        match self {
            GoProQuery::GetSettingValue(ids) => Some(ids@),
            GoProQuery::GetStatusValue(ids) => Some(ids@),
            GoProQuery::GetAvailableOptionSettings(ids) => Some(ids@),
            GoProQuery::RegisterSettingValueUpdates(ids) => Some(ids@),
            GoProQuery::RegisterStatusValueUpdates(ids) => Some(ids@),
            GoProQuery::RegisterAvailableOptionSettings(ids) => Some(ids@),
            GoProQuery::UnregisterSettingValueUpdates(ids) => Some(ids@),
            GoProQuery::UnregisterStatusValueUpdates(ids) => Some(ids@),
            GoProQuery::UnregisterAvailableOptionSettings(ids) => Some(ids@),
            _ => None,
        }
    }

    /// The identifier list, if any, is short enough for the one-byte length
    /// field of a frame.
    pub open spec fn fits_frame(&self) -> bool {
        self.ids() matches Some(ids) ==> ids.len() < 255
    }

    /// The frame of the query: a query frame over its identifiers, or
    /// `[0x01, kind]` for a query that lists none.
    pub open spec fn wire_bytes(&self) -> Seq<u8> {
        match self.ids() {
            Some(ids) => query_frame(self.kind(), ids),
            None => seq![0x01, self.kind()],
        }
    }

    /// Whether the query's frame can be built: its identifier list, if any,
    /// fits the one-byte length field.
    pub fn is_encodable(&self) -> (r: bool)
        ensures
            r == self.fits_frame(),
    {
        match self {
            GoProQuery::GetSettingValue(ids) => ids.len() < 255,
            GoProQuery::GetStatusValue(ids) => ids.len() < 255,
            GoProQuery::GetAvailableOptionSettings(ids) => ids.len() < 255,
            GoProQuery::RegisterSettingValueUpdates(ids) => ids.len() < 255,
            GoProQuery::RegisterStatusValueUpdates(ids) => ids.len() < 255,
            GoProQuery::RegisterAvailableOptionSettings(ids) => ids.len() < 255,
            GoProQuery::UnregisterSettingValueUpdates(ids) => ids.len() < 255,
            GoProQuery::UnregisterStatusValueUpdates(ids) => ids.len() < 255,
            GoProQuery::UnregisterAvailableOptionSettings(ids) => ids.len() < 255,
            _ => true,
        }
    }

    /// The frame to write to the query characteristic.
    pub fn as_bytes(&self) -> (r: Vec<u8>)
        requires
            self.fits_frame(),
        ensures
            r@ == self.wire_bytes(),
    {
        match self {
            GoProQuery::GetSettingValue(ids) => query_builder(0x12, ids.clone()),
            GoProQuery::GetAllSettingValues => vec![0x01, 0x12],
            GoProQuery::GetStatusValue(ids) => query_builder(0x13, ids.clone()),
            GoProQuery::GetAllStatusValues => vec![0x01, 0x13],
            GoProQuery::GetAvailableOptionSettings(ids) => query_builder(0x32, ids.clone()),
            GoProQuery::GetAvailableOptionAllSettings => vec![0x01, 0x32],
            GoProQuery::RegisterSettingValueUpdates(ids) => query_builder(0x52, ids.clone()),
            GoProQuery::RegisterStatusValueUpdates(ids) => query_builder(0x53, ids.clone()),
            GoProQuery::RegisterAvailableOptionSettings(ids) => query_builder(0x62, ids.clone()),
            GoProQuery::UnregisterSettingValueUpdates(ids) => query_builder(0x72, ids.clone()),
            GoProQuery::UnregisterStatusValueUpdates(ids) => query_builder(0x73, ids.clone()),
            GoProQuery::UnregisterAvailableOptionSettings(ids) => query_builder(
                0x82,
                ids.clone(),
            ),
            GoProQuery::AsyncNotificationSettingChanged => vec![0x01, 0x92],
            GoProQuery::AsyncNotificationStatusChanged => vec![0x01, 0x93],
            GoProQuery::AsyncNotificationOptionSettingChanged => vec![0x01, 0xA2],
        }
    }
}

// ---------------------------------------------------------------------------
// Response frames

/// What a response frame can fail on.
#[derive(Clone, Copy, Debug, PartialEq, Eq, Structural)]
pub enum ParseError {
    /// Fewer than five bytes: not even a header.
    TooShort,
    /// A two-byte length field, but fewer than six bytes.
    TooShortExtended,
    /// The declared status value runs past the end of the frame.
    TooShortForValue,
}

/// The answer of the camera to a query.
#[derive(Debug)]
pub struct QueryResponse {
    pub message_length: u16,
    /// The kind of the query that is answered.
    pub query_id: u8,
    pub command_status: u8,
    /// The status identifier that the value belongs to.
    pub status_id: u8,
    pub status_value_length: u8,
    /// The value itself.
    pub status_value: Vec<u8>,
}

/// The mathematical content of a `QueryResponse`.
pub struct QueryResponseView {
    pub message_length: u16,
    pub query_id: u8,
    pub command_status: u8,
    pub status_id: u8,
    pub status_value_length: u8,
    pub status_value: Seq<u8>,
}

impl View for QueryResponse {
    type V = QueryResponseView;

    open spec fn view(&self) -> QueryResponseView {
        QueryResponseView {
            message_length: self.message_length,
            query_id: self.query_id,
            command_status: self.command_status,
            status_id: self.status_id,
            status_value_length: self.status_value_length,
            status_value: self.status_value@,
        }
    }
}

/// The message length of a frame: the first byte when its top bit is clear,
/// else the 15-bit big-endian number formed by the first two bytes without
/// that bit.
pub open spec fn frame_message_length(data: Seq<u8>) -> u16 {
    if data[0] < 0x80 {
        data[0] as u16
    } else {
        ((data[0] - 0x80) * 256 + data[1]) as u16
    }
}

/// Where the fields after the length start: after two bytes when the message
/// length read is above `0x7F`, else after one.
pub open spec fn frame_header_start(data: Seq<u8>) -> int {
    if frame_message_length(data) > 0x7F {
        2
    } else {
        1
    }
}

/// The response that `data` holds, or why it holds none.
pub open spec fn parse_frame(data: Seq<u8>) -> Result<QueryResponseView, ParseError> {
    if data.len() < 5 {
        Err(ParseError::TooShort)
    } else if data[0] >= 0x80 && data.len() < 6 {
        Err(ParseError::TooShortExtended)
    } else {
        let b = frame_header_start(data);
        let n = data[b + 3];
        if data.len() < b + 4 + n {
            Err(ParseError::TooShortForValue)
        } else {
            Ok(
                QueryResponseView {
                    message_length: frame_message_length(data),
                    query_id: data[b],
                    command_status: data[b + 1],
                    status_id: data[b + 2],
                    status_value_length: n,
                    status_value: data.subrange(b + 4, b + 4 + n),
                },
            )
        }
    }
}

/// A status value read according to the shape of its identifier.
#[derive(Debug)]
pub enum QueryResponseIntepretation {
    /// A single byte.
    Byte(u8),
    Bool(bool),
    /// Like a byte, but the value is 0..=100.
    Percentage(u8),
    ByteVec(Vec<u8>),
    /// UTF-8 text.
    String(String),
}

/// The mathematical content of a `QueryResponseIntepretation`.
pub enum InterpretationView {
    Byte(u8),
    Bool(bool),
    Percentage(u8),
    ByteVec(Seq<u8>),
    String(Seq<char>),
}

impl View for QueryResponseIntepretation {
    type V = InterpretationView;

    open spec fn view(&self) -> InterpretationView {
        match self {
            QueryResponseIntepretation::Byte(b) => InterpretationView::Byte(*b),
            QueryResponseIntepretation::Bool(b) => InterpretationView::Bool(*b),
            QueryResponseIntepretation::Percentage(p) => InterpretationView::Percentage(*p),
            QueryResponseIntepretation::ByteVec(v) => InterpretationView::ByteVec(v@),
            QueryResponseIntepretation::String(t) => InterpretationView::String(t@),
        }
    }
}

/// Why a status value of a known identifier could not be read.
#[derive(Clone, Copy, Debug, PartialEq, Eq, Structural)]
pub enum InterpretError {
    /// The shape needs a first byte and the value is empty.
    MissingValue,
    /// The shape is text and the value is not UTF-8.
    InvalidUtf8,
}

/// How the value `value` reported for the status code `status_id` reads:
/// nothing for an unknown code, else by the shape of the identifier.
pub open spec fn interpretation(status_id: u8, value: Seq<u8>) -> Result<
    Option<InterpretationView>,
    InterpretError,
> {
    match status_with_code(status_id) {
        None => Ok(None),
        Some(id) => match status_shape(id) {
            StatusShape::ByteVec => Ok(Some(InterpretationView::ByteVec(value))),
            StatusShape::Text => if valid_utf8(value) {
                Ok(Some(InterpretationView::String(decode_utf8(value))))
            } else {
                Err(InterpretError::InvalidUtf8)
            },
            StatusShape::Bool => if value.len() == 0 {
                Err(InterpretError::MissingValue)
            } else {
                Ok(Some(InterpretationView::Bool(value[0] == 1)))
            },
            StatusShape::Byte => if value.len() == 0 {
                Err(InterpretError::MissingValue)
            } else {
                Ok(Some(InterpretationView::Byte(value[0])))
            },
            StatusShape::Percentage => if value.len() == 0 {
                Err(InterpretError::MissingValue)
            } else {
                Ok(Some(InterpretationView::Percentage(value[0])))
            },
        },
    }
}

/// Relies on `String::from_utf8`: it succeeds exactly on valid UTF-8, and the
/// string then holds the characters that the bytes encode.
#[verifier::external_body]
fn utf8_string(bytes: Vec<u8>) -> (r: Option<String>)
    ensures
        r is Some <==> valid_utf8(bytes@),
        r is Some ==> r.unwrap()@ == decode_utf8(bytes@),
{
    String::from_utf8(bytes).ok()
}

impl QueryResponse {
    /// Parses one response frame.
    pub fn deserialize(data: &[u8]) -> (r: Result<QueryResponse, ParseError>)
        ensures
            match r {
                Ok(q) => parse_frame(data@) == Ok::<QueryResponseView, ParseError>(q@),
                Err(e) => parse_frame(data@) == Err::<QueryResponseView, ParseError>(e),
            },
    {
        if data.len() < 5 {
            return Err(ParseError::TooShort);
        }
        let first = data[0];
        proof {
            assert((first & 0x80 == 0) <==> first < 0x80) by (bit_vector);
            assert(first >= 0x80 ==> first & 0x7F == first - 0x80) by (bit_vector);
        }
        let message_length: u16 = if first & 0x80 == 0 {
            first as u16
        } else {
            if data.len() < 6 {
                return Err(ParseError::TooShortExtended);
            }
            ((first & 0x7F) as u16) * 256 + data[1] as u16
        };
        let base_index: usize = if message_length > 0x7F {
            2
        } else {
            1
        };
        let query_id = data[base_index];
        let command_status = data[base_index + 1];
        let status_id = data[base_index + 2];
        let status_value_length = data[base_index + 3];
        if data.len() < base_index + 4 + status_value_length as usize {
            return Err(ParseError::TooShortForValue);
        }
        let status_value_start = base_index + 4;
        let status_value_end = status_value_start + status_value_length as usize;
        let status_value = slice_to_vec(&data[status_value_start..status_value_end]);
        Ok(
            QueryResponse {
                message_length,
                query_id,
                command_status,
                status_id,
                status_value_length,
                status_value,
            },
        )
    }

    /// Reads the status value according to the shape of its identifier:
    /// `Ok(None)` when the identifier is unknown.
    pub fn interpret(&self) -> (r: Result<Option<QueryResponseIntepretation>, InterpretError>)
        ensures
            match r {
                Ok(Some(i)) => interpretation(self.status_id, self.status_value@) == Ok::<
                    Option<InterpretationView>,
                    InterpretError,
                >(Some(i@)),
                Ok(None) => interpretation(self.status_id, self.status_value@) == Ok::<
                    Option<InterpretationView>,
                    InterpretError,
                >(None),
                Err(e) => interpretation(self.status_id, self.status_value@) == Err::<
                    Option<InterpretationView>,
                    InterpretError,
                >(e),
            },
    {
        let status_id = match StatusID::try_from(self.status_id) {
            Ok(id) => id,
            Err(_) => return Ok(None),
        };
        match status_id.shape() {
            StatusShape::ByteVec => Ok(
                Some(QueryResponseIntepretation::ByteVec(slice_to_vec(self.status_value.as_slice()))),
            ),
            StatusShape::Text => match utf8_string(slice_to_vec(self.status_value.as_slice())) {
                Some(text) => Ok(Some(QueryResponseIntepretation::String(text))),
                None => Err(InterpretError::InvalidUtf8),
            },
            StatusShape::Bool => if self.status_value.len() == 0 {
                Err(InterpretError::MissingValue)
            } else {
                Ok(Some(QueryResponseIntepretation::Bool(self.status_value[0] == 1)))
            },
            StatusShape::Byte => if self.status_value.len() == 0 {
                Err(InterpretError::MissingValue)
            } else {
                Ok(Some(QueryResponseIntepretation::Byte(self.status_value[0])))
            },
            StatusShape::Percentage => if self.status_value.len() == 0 {
                Err(InterpretError::MissingValue)
            } else {
                Ok(Some(QueryResponseIntepretation::Percentage(self.status_value[0])))
            },
        }
    }
}

// ---------------------------------------------------------------------------
// Laws of the codec

/// Each status identifier is found again from its code.
pub proof fn lemma_status_with_code(id: StatusID)
    ensures
        status_with_code(status_code(id)) == Some(id),
{
    lemma_status_code_injective();
    let found = choose|s: StatusID| status_code(s) == status_code(id);
    assert(status_code(found) == status_code(id));
}

/// Taking a query frame apart again (dropping the length and kind bytes and
/// reading each remaining byte as a status code) gives back the identifiers,
/// all of them and in their order.
pub proof fn lemma_query_frame_round_trip(kind: u8, ids: Seq<StatusID>)
    requires
        ids.len() < 255,
    ensures
        query_frame(kind, ids).len() == ids.len() + 2,
        query_frame(kind, ids)[1] == kind,
        forall|i: int|
            0 <= i < ids.len() ==> status_with_code(#[trigger] query_frame(kind, ids)[i + 2])
                == Some(ids[i]),
{
    let frame = query_frame(kind, ids);
    assert forall|i: int| 0 <= i < ids.len() implies status_with_code(
        #[trigger] query_frame(kind, ids)[i + 2],
    ) == Some(ids[i]) by {
        assert(frame[i + 2] == status_code(ids[i]));
        lemma_status_with_code(ids[i]);
    }
}

/// A query frame whose body is at most `0x7F` bytes long starts with its body
/// length, top bit clear; a parser reads that byte as the message length and
/// takes the one-byte header path.
pub proof fn lemma_query_frame_length_field(kind: u8, ids: Seq<StatusID>)
    requires
        ids.len() + 1 <= 0x7F,
    ensures
        query_frame(kind, ids)[0] == ids.len() + 1,
        query_frame(kind, ids)[0] < 0x80,
        frame_message_length(query_frame(kind, ids)) == ids.len() + 1,
        frame_header_start(query_frame(kind, ids)) == 1,
        parse_frame(query_frame(kind, ids)) matches Ok(q) ==> q.message_length == ids.len() + 1,
{
}

/// Fewer than five bytes are always refused as too short.
pub proof fn lemma_short_frame_refused(data: Seq<u8>)
    requires
        data.len() < 5,
    ensures
        parse_frame(data) == Err::<QueryResponseView, ParseError>(ParseError::TooShort),
{
}

/// Flags read as `true` from `[1]` and `false` from `[0]`, percentages read
/// back the byte they hold, and an unknown code reads as nothing.
pub proof fn lemma_interpretation_classes(id: StatusID, n: u8, unknown: u8)
    requires
        status_with_code(unknown) is None,
    ensures
        status_shape(id) == StatusShape::Bool ==> interpretation(status_code(id), seq![1u8])
            == Ok::<Option<InterpretationView>, InterpretError>(
            Some(InterpretationView::Bool(true)),
        ),
        status_shape(id) == StatusShape::Bool ==> interpretation(status_code(id), seq![0u8])
            == Ok::<Option<InterpretationView>, InterpretError>(
            Some(InterpretationView::Bool(false)),
        ),
        status_shape(id) == StatusShape::Percentage && n <= 100 ==> interpretation(
            status_code(id),
            seq![n],
        ) == Ok::<Option<InterpretationView>, InterpretError>(
            Some(InterpretationView::Percentage(n)),
        ),
        forall|value: Seq<u8>|
            interpretation(unknown, value) == Ok::<Option<InterpretationView>, InterpretError>(
                None,
            ),
{
    lemma_status_with_code(id);
}

} // verus!
