//! The emulation of the XAudio 2.7 interfaces on top of the current
//! implementation.
pub mod details;
pub mod dispatch;
pub mod engine;
pub mod sends;
pub mod table;
pub mod voice;

pub use self::details::{XAudio27DeviceDetails, XAudio27VoiceDetails};
pub use self::engine::{IXAudio27, XAudio27Wrapper};
pub use self::sends::{XAudio27SendDescriptor, XAudio27VoiceSends};
pub use self::voice::{
    IXAudio27Callbacks, IXAudio27MasteringVoice, IXAudio27SourceVoice, IXAudio27SubmixVoice,
    IXAudio27Voice,
};
