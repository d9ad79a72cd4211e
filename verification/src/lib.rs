//! Buffer ownership and callback bridging between an application and a host
//! audio subsystem.
//!
//! The host delivers and consumes audio on its own threads and reports every
//! operation with an integer status. This crate holds the rules of that
//! exchange as plain, verified state: which buffer of a pool is free, how an
//! owned buffer list is laid out, in which order a unit may be initialized,
//! started, stopped and disposed, and which typed error a status stands for.
//! The calls into the host themselves are made by the caller, who hands the
//! status of each call back.

pub mod error;
pub mod format;
pub mod queue;
pub mod stream_format;
pub mod timestamp;
pub mod unit;

pub use error::{AudioCodecError, AudioError, AudioFormatError, AudioUnitError, CAError, OSStatus};
pub use format::{LinearPcmFlags, SampleFormat};
pub use queue::{
    AudioQueueBuffer, AudioQueueInput, AudioQueueOutput, BorrowedAudioQueueBuffer, InputCallback,
};
pub use stream_format::{StreamDescription, StreamFormat};
pub use timestamp::TimeStamp;
pub use unit::{
    ActionFlags, AudioBuffer, AudioBufferList, AudioUnit, Description, Element, RenderCallback,
    Scope, Version,
};
