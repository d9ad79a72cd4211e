//! Typed errors for the status codes that host operations return.
//!
//! Every host operation answers with an integer status. Zero means success;
//! any other value is looked up in four fixed tables, one per kind of error.
//! A status that no table holds still becomes a typed error, `Unknown`.

use vstd::prelude::*;
use vstd::string::StringExecFns;

verus! {

/// The status every host operation returns; zero means success.
pub type OSStatus = i32;

/// General audio failures: files, permissions, memory and parameters.
#[derive(Copy, Clone, Debug, PartialEq, Eq, Structural)]
pub enum AudioError {
    Unimplemented,
    FileNotFound,
    FilePermission,
    TooManyFilesOpen,
    BadFilePath,
    Param,
    MemFull,
}

impl AudioError {
    /// The status code that stands for this error.
    pub open spec fn code(self) -> int {
        match self {
            AudioError::Unimplemented => -4,
            AudioError::FileNotFound => -43,
            AudioError::FilePermission => -54,
            AudioError::TooManyFilesOpen => -42,
            AudioError::BadFilePath => 561017960,
            AudioError::Param => -50,
            AudioError::MemFull => -108,
        }
    }

    /// The text that describes this error.
    pub open spec fn text(self) -> Seq<char> {
        match self {
            AudioError::Unimplemented => "unimplemented"@,
            AudioError::FileNotFound => "file not found"@,
            AudioError::FilePermission => "file permission problem"@,
            AudioError::TooManyFilesOpen => "too many open files"@,
            AudioError::BadFilePath => "bad file path"@,
            AudioError::Param => "parameter error"@,
            AudioError::MemFull => "memory full"@,
        }
    }

    /// The error of this kind that `status` stands for, if there is one.
    pub fn from_os_status(status: OSStatus) -> (r: Option<Self>)
        ensures
            match r {
                Some(e) => e.code() == status,
                None => forall|e: AudioError| e.code() != status,
            },
    {
        match status {
            -4 => Some(AudioError::Unimplemented),
            -43 => Some(AudioError::FileNotFound),
            -54 => Some(AudioError::FilePermission),
            -42 => Some(AudioError::TooManyFilesOpen),
            561017960 => Some(AudioError::BadFilePath),
            -50 => Some(AudioError::Param),
            -108 => Some(AudioError::MemFull),
            _ => None,
        }
    }

    /// The status code of this error.
    pub fn os_status(self) -> (r: OSStatus)
        ensures
            r == self.code(),
    {
        match self {
            AudioError::Unimplemented => -4,
            AudioError::FileNotFound => -43,
            AudioError::FilePermission => -54,
            AudioError::TooManyFilesOpen => -42,
            AudioError::BadFilePath => 561017960,
            AudioError::Param => -50,
            AudioError::MemFull => -108,
        }
    }

    /// A short description for people.
    pub fn message(self) -> (r: &'static str)
        ensures
            r@ == self.text(),
    {
        match self {
            AudioError::Unimplemented => "unimplemented",
            AudioError::FileNotFound => "file not found",
            AudioError::FilePermission => "file permission problem",
            AudioError::TooManyFilesOpen => "too many open files",
            AudioError::BadFilePath => "bad file path",
            AudioError::Param => "parameter error",
            AudioError::MemFull => "memory full",
        }
    }
}

/// Failures of a codec.
#[derive(Copy, Clone, Debug, PartialEq, Eq, Structural)]
pub enum AudioCodecError {
    Unspecified,
    UnknownProperty,
    BadPropertySize,
    IllegalOperation,
    UnsupportedFormat,
    State,
    NotEnoughBufferSpace,
}

impl AudioCodecError {
    /// The status code that stands for this error.
    pub open spec fn code(self) -> int {
        match self {
            AudioCodecError::Unspecified => 2003329396,
            AudioCodecError::UnknownProperty => 2003332927,
            AudioCodecError::BadPropertySize => 561211770,
            AudioCodecError::IllegalOperation => 1852797029,
            AudioCodecError::UnsupportedFormat => 560226676,
            AudioCodecError::State => 561214580,
            AudioCodecError::NotEnoughBufferSpace => 560100710,
        }
    }

    /// The text that describes this error.
    pub open spec fn text(self) -> Seq<char> {
        match self {
            AudioCodecError::Unspecified => "unspecified"@,
            AudioCodecError::UnknownProperty => "unknown property"@,
            AudioCodecError::BadPropertySize => "bad property size"@,
            AudioCodecError::IllegalOperation => "illegal operation"@,
            AudioCodecError::UnsupportedFormat => "unsupported format"@,
            AudioCodecError::State => "state error"@,
            AudioCodecError::NotEnoughBufferSpace => "not enough buffer space"@,
        }
    }

    /// The error of this kind that `status` stands for, if there is one.
    pub fn from_os_status(status: OSStatus) -> (r: Option<Self>)
        ensures
            match r {
                Some(e) => e.code() == status,
                None => forall|e: AudioCodecError| e.code() != status,
            },
    {
        match status {
            2003329396 => Some(AudioCodecError::Unspecified),
            2003332927 => Some(AudioCodecError::UnknownProperty),
            561211770 => Some(AudioCodecError::BadPropertySize),
            1852797029 => Some(AudioCodecError::IllegalOperation),
            560226676 => Some(AudioCodecError::UnsupportedFormat),
            561214580 => Some(AudioCodecError::State),
            560100710 => Some(AudioCodecError::NotEnoughBufferSpace),
            _ => None,
        }
    }

    /// The status code of this error.
    pub fn os_status(self) -> (r: OSStatus)
        ensures
            r == self.code(),
    {
        match self {
            AudioCodecError::Unspecified => 2003329396,
            AudioCodecError::UnknownProperty => 2003332927,
            AudioCodecError::BadPropertySize => 561211770,
            AudioCodecError::IllegalOperation => 1852797029,
            AudioCodecError::UnsupportedFormat => 560226676,
            AudioCodecError::State => 561214580,
            AudioCodecError::NotEnoughBufferSpace => 560100710,
        }
    }

    /// A short description for people.
    pub fn message(self) -> (r: &'static str)
        ensures
            r@ == self.text(),
    {
        match self {
            AudioCodecError::Unspecified => "unspecified",
            AudioCodecError::UnknownProperty => "unknown property",
            AudioCodecError::BadPropertySize => "bad property size",
            AudioCodecError::IllegalOperation => "illegal operation",
            AudioCodecError::UnsupportedFormat => "unsupported format",
            AudioCodecError::State => "state error",
            AudioCodecError::NotEnoughBufferSpace => "not enough buffer space",
        }
    }
}

/// Failures of a format query.
#[derive(Copy, Clone, Debug, PartialEq, Eq, Structural)]
pub enum AudioFormatError {
    Unspecified,
    UnsupportedProperty,
    BadPropertySize,
    BadSpecifierSize,
    UnsupportedDataFormat,
    UnknownFormat,
}

impl AudioFormatError {
    /// The status code that stands for this error. Only the unsupported data
    /// format has a code of its own in the lookup: the codes of the other
    /// variants are either shared with the codec table or not reported as a
    /// status.
    pub open spec fn code(self) -> Option<int> {
        match self {
            AudioFormatError::UnsupportedDataFormat => Some(1718449215),
            _ => None,
        }
    }

    /// The text that describes this error.
    pub open spec fn text(self) -> Seq<char> {
        match self {
            AudioFormatError::Unspecified => "unspecified"@,
            AudioFormatError::UnsupportedProperty => "unsupported property"@,
            AudioFormatError::BadPropertySize => "bad property size"@,
            AudioFormatError::BadSpecifierSize => "bad specifier size"@,
            AudioFormatError::UnsupportedDataFormat => "unsupported data format"@,
            AudioFormatError::UnknownFormat => "unknown format"@,
        }
    }

    /// The error of this kind that `status` stands for, if there is one.
    pub fn from_os_status(status: OSStatus) -> (r: Option<Self>)
        ensures
            match r {
                Some(e) => e.code() == Some(status as int),
                None => forall|e: AudioFormatError| e.code() != Some(status as int),
            },
    {
        match status {
            1718449215 => Some(AudioFormatError::UnsupportedDataFormat),
            _ => None,
        }
    }

    /// The status code of this error, where it has one.
    pub fn os_status(self) -> (r: Option<OSStatus>)
        ensures
            match r {
                Some(s) => self.code() == Some(s as int),
                None => self.code() is None,
            },
    {
        match self {
            AudioFormatError::UnsupportedDataFormat => Some(1718449215),
            _ => None,
        }
    }

    /// A short description for people.
    pub fn message(self) -> (r: &'static str)
        ensures
            r@ == self.text(),
    {
        match self {
            AudioFormatError::Unspecified => "unspecified",
            AudioFormatError::UnsupportedProperty => "unsupported property",
            AudioFormatError::BadPropertySize => "bad property size",
            AudioFormatError::BadSpecifierSize => "bad specifier size",
            AudioFormatError::UnsupportedDataFormat => "unsupported data format",
            AudioFormatError::UnknownFormat => "unknown format",
        }
    }
}

/// Failures of a processing unit.
#[derive(Copy, Clone, Debug, PartialEq, Eq, Structural)]
pub enum AudioUnitError {
    InvalidProperty,
    InvalidParameter,
    InvalidElement,
    NoConnection,
    FailedInitialization,
    TooManyFramesToProcess,
    InvalidFile,
    FormatNotSupported,
    Uninitialized,
    InvalidScope,
    PropertyNotWritable,
    CannotDoInCurrentContext,
    InvalidPropertyValue,
    PropertyNotInUse,
    Initialized,
    InvalidOfflineRender,
    Unauthorized,
}

impl AudioUnitError {
    /// The status code that stands for this error.
    pub open spec fn code(self) -> int {
        match self {
            AudioUnitError::InvalidProperty => -10879,
            AudioUnitError::InvalidParameter => -10878,
            AudioUnitError::InvalidElement => -10877,
            AudioUnitError::NoConnection => -10876,
            AudioUnitError::FailedInitialization => -10875,
            AudioUnitError::TooManyFramesToProcess => -10874,
            AudioUnitError::InvalidFile => -10871,
            AudioUnitError::FormatNotSupported => -10868,
            AudioUnitError::Uninitialized => -10867,
            AudioUnitError::InvalidScope => -10866,
            AudioUnitError::PropertyNotWritable => -10865,
            AudioUnitError::CannotDoInCurrentContext => -10863,
            AudioUnitError::InvalidPropertyValue => -10851,
            AudioUnitError::PropertyNotInUse => -10850,
            AudioUnitError::Initialized => -10849,
            AudioUnitError::InvalidOfflineRender => -10848,
            AudioUnitError::Unauthorized => -10847,
        }
    }

    /// The text that describes this error.
    pub open spec fn text(self) -> Seq<char> {
        match self {
            AudioUnitError::InvalidProperty => "invalid property"@,
            AudioUnitError::InvalidParameter => "invalid parameter"@,
            AudioUnitError::InvalidElement => "invalid element"@,
            AudioUnitError::NoConnection => "no connection"@,
            AudioUnitError::FailedInitialization => "failed initialization"@,
            AudioUnitError::TooManyFramesToProcess => "too many frames to process"@,
            AudioUnitError::InvalidFile => "invalid file"@,
            AudioUnitError::FormatNotSupported => "format not supported"@,
            AudioUnitError::Uninitialized => "uninitialized"@,
            AudioUnitError::InvalidScope => "invalid scope"@,
            AudioUnitError::PropertyNotWritable => "property not writable"@,
            AudioUnitError::CannotDoInCurrentContext => "cannot do in current context"@,
            AudioUnitError::InvalidPropertyValue => "invalid property value"@,
            AudioUnitError::PropertyNotInUse => "property not in use"@,
            AudioUnitError::Initialized => "initialized"@,
            AudioUnitError::InvalidOfflineRender => "invalid offline render"@,
            AudioUnitError::Unauthorized => "unauthorized"@,
        }
    }

    /// The error of this kind that `status` stands for, if there is one.
    pub fn from_os_status(status: OSStatus) -> (r: Option<Self>)
        ensures
            match r {
                Some(e) => e.code() == status,
                None => forall|e: AudioUnitError| e.code() != status,
            },
    {
        match status {
            -10879 => Some(AudioUnitError::InvalidProperty),
            -10878 => Some(AudioUnitError::InvalidParameter),
            -10877 => Some(AudioUnitError::InvalidElement),
            -10876 => Some(AudioUnitError::NoConnection),
            -10875 => Some(AudioUnitError::FailedInitialization),
            -10874 => Some(AudioUnitError::TooManyFramesToProcess),
            -10871 => Some(AudioUnitError::InvalidFile),
            -10868 => Some(AudioUnitError::FormatNotSupported),
            -10867 => Some(AudioUnitError::Uninitialized),
            -10866 => Some(AudioUnitError::InvalidScope),
            -10865 => Some(AudioUnitError::PropertyNotWritable),
            -10863 => Some(AudioUnitError::CannotDoInCurrentContext),
            -10851 => Some(AudioUnitError::InvalidPropertyValue),
            -10850 => Some(AudioUnitError::PropertyNotInUse),
            -10849 => Some(AudioUnitError::Initialized),
            -10848 => Some(AudioUnitError::InvalidOfflineRender),
            -10847 => Some(AudioUnitError::Unauthorized),
            _ => None,
        }
    }

    /// The status code of this error.
    pub fn os_status(self) -> (r: OSStatus)
        ensures
            r == self.code(),
    {
        match self {
            AudioUnitError::InvalidProperty => -10879,
            AudioUnitError::InvalidParameter => -10878,
            AudioUnitError::InvalidElement => -10877,
            AudioUnitError::NoConnection => -10876,
            AudioUnitError::FailedInitialization => -10875,
            AudioUnitError::TooManyFramesToProcess => -10874,
            AudioUnitError::InvalidFile => -10871,
            AudioUnitError::FormatNotSupported => -10868,
            AudioUnitError::Uninitialized => -10867,
            AudioUnitError::InvalidScope => -10866,
            AudioUnitError::PropertyNotWritable => -10865,
            AudioUnitError::CannotDoInCurrentContext => -10863,
            AudioUnitError::InvalidPropertyValue => -10851,
            AudioUnitError::PropertyNotInUse => -10850,
            AudioUnitError::Initialized => -10849,
            AudioUnitError::InvalidOfflineRender => -10848,
            AudioUnitError::Unauthorized => -10847,
        }
    }

    /// A short description for people.
    pub fn message(self) -> (r: &'static str)
        ensures
            r@ == self.text(),
    {
        match self {
            AudioUnitError::InvalidProperty => "invalid property",
            AudioUnitError::InvalidParameter => "invalid parameter",
            AudioUnitError::InvalidElement => "invalid element",
            AudioUnitError::NoConnection => "no connection",
            AudioUnitError::FailedInitialization => "failed initialization",
            AudioUnitError::TooManyFramesToProcess => "too many frames to process",
            AudioUnitError::InvalidFile => "invalid file",
            AudioUnitError::FormatNotSupported => "format not supported",
            AudioUnitError::Uninitialized => "uninitialized",
            AudioUnitError::InvalidScope => "invalid scope",
            AudioUnitError::PropertyNotWritable => "property not writable",
            AudioUnitError::CannotDoInCurrentContext => "cannot do in current context",
            AudioUnitError::InvalidPropertyValue => "invalid property value",
            AudioUnitError::PropertyNotInUse => "property not in use",
            AudioUnitError::Initialized => "initialized",
            AudioUnitError::InvalidOfflineRender => "invalid offline render",
            AudioUnitError::Unauthorized => "unauthorized",
        }
    }
}

/// Any error this crate reports.
#[derive(Clone, Debug, PartialEq, Eq)]
pub enum CAError {
    AudioError(AudioError),
    AudioCodecError(AudioCodecError),
    AudioFormatError(AudioFormatError),
    AudioUnitError(AudioUnitError),
    /// A nonzero status that none of the tables holds.
    Unknown(OSStatus),
    /// A message that is not tied to a status code.
    Other(String),
}

/// Whether one of the four tables holds `status`.
pub open spec fn is_known_status(status: int) -> bool {
    ||| exists|e: AudioError| e.code() == status
    ||| exists|e: AudioCodecError| e.code() == status
    ||| exists|e: AudioFormatError| e.code() == Some(status)
    ||| exists|e: AudioUnitError| e.code() == status
}

impl CAError {
    /// The status code that stands for this error, where it has one.
    pub open spec fn code(self) -> Option<int> {
        match self {
            CAError::AudioError(e) => Some(e.code()),
            CAError::AudioCodecError(e) => Some(e.code()),
            CAError::AudioFormatError(e) => e.code(),
            CAError::AudioUnitError(e) => Some(e.code()),
            CAError::Unknown(status) => Some(status as int),
            CAError::Other(_) => None,
        }
    }

    /// Whether this error is the one that the status `status` stands for:
    /// `status` is its code, and it is `Unknown` only where no table holds
    /// `status`.
    pub open spec fn stands_for(self, status: int) -> bool {
        &&& self.code() == Some(status)
        &&& self is Unknown ==> !is_known_status(status)
    }

    /// The status code of this error, where it has one.
    pub fn os_status(&self) -> (r: Option<OSStatus>)
        ensures
            match r {
                Some(status) => self.code() == Some(status as int),
                None => self.code() is None,
            },
    {
        match self {
            CAError::AudioError(e) => Some(e.os_status()),
            CAError::AudioCodecError(e) => Some(e.os_status()),
            CAError::AudioFormatError(e) => e.os_status(),
            CAError::AudioUnitError(e) => Some(e.os_status()),
            CAError::Unknown(status) => Some(*status),
            CAError::Other(_) => None,
        }
    }

    /// What a host status means: success for zero, else the typed error that
    /// the tables give for it, and `Unknown` where they give none.
    pub fn from_os_status(status: OSStatus) -> (r: Result<(), CAError>)
        ensures
            r is Ok <==> status == 0,
            r matches Err(e) ==> e.stands_for(status as int),
    {
        if status == 0 {
            return Ok(());
        }
        if let Some(e) = AudioError::from_os_status(status) {
            return Err(CAError::AudioError(e));
        }
        if let Some(e) = AudioCodecError::from_os_status(status) {
            return Err(CAError::AudioCodecError(e));
        }
        if let Some(e) = AudioFormatError::from_os_status(status) {
            return Err(CAError::AudioFormatError(e));
        }
        if let Some(e) = AudioUnitError::from_os_status(status) {
            return Err(CAError::AudioUnitError(e));
        }
        Err(CAError::Unknown(status))
    }

    /// The text that describes this error.
    pub open spec fn text(self) -> Seq<char> {
        match self {
            CAError::AudioError(e) => "audio error: "@ + e.text(),
            CAError::AudioCodecError(e) => "audio codec error: "@ + e.text(),
            CAError::AudioFormatError(e) => "audio format error: "@ + e.text(),
            CAError::AudioUnitError(e) => "audio unit error: "@ + e.text(),
            CAError::Unknown(_) => "unknown status"@,
            CAError::Other(s) => "other: "@ + s@,
        }
    }

    /// A description for people: the kind of the error, then its own text.
    pub fn message(&self) -> (r: String)
        ensures
            r@ == self.text(),
    {
        match self {
            CAError::AudioError(e) => String::from_str("audio error: ").concat(e.message()),
            CAError::AudioCodecError(e) => String::from_str("audio codec error: ").concat(
                e.message(),
            ),
            CAError::AudioFormatError(e) => String::from_str("audio format error: ").concat(
                e.message(),
            ),
            CAError::AudioUnitError(e) => String::from_str("audio unit error: ").concat(
                e.message(),
            ),
            CAError::Unknown(_) => String::from_str("unknown status"),
            CAError::Other(s) => String::from_str("other: ").concat(s.as_str()),
        }
    }
}

impl From<AudioError> for CAError {
    fn from(value: AudioError) -> (r: CAError) {
        CAError::AudioError(value)
    }
}

impl vstd::std_specs::convert::FromSpecImpl<AudioError> for CAError {
    open spec fn obeys_from_spec() -> bool {
        true
    }

    open spec fn from_spec(value: AudioError) -> CAError {
        CAError::AudioError(value)
    }
}

impl From<AudioCodecError> for CAError {
    fn from(value: AudioCodecError) -> (r: CAError) {
        CAError::AudioCodecError(value)
    }
}

impl vstd::std_specs::convert::FromSpecImpl<AudioCodecError> for CAError {
    open spec fn obeys_from_spec() -> bool {
        true
    }

    open spec fn from_spec(value: AudioCodecError) -> CAError {
        CAError::AudioCodecError(value)
    }
}

impl From<AudioFormatError> for CAError {
    fn from(value: AudioFormatError) -> (r: CAError) {
        CAError::AudioFormatError(value)
    }
}

impl vstd::std_specs::convert::FromSpecImpl<AudioFormatError> for CAError {
    open spec fn obeys_from_spec() -> bool {
        true
    }

    open spec fn from_spec(value: AudioFormatError) -> CAError {
        CAError::AudioFormatError(value)
    }
}

impl From<AudioUnitError> for CAError {
    fn from(value: AudioUnitError) -> (r: CAError) {
        CAError::AudioUnitError(value)
    }
}

impl vstd::std_specs::convert::FromSpecImpl<AudioUnitError> for CAError {
    open spec fn obeys_from_spec() -> bool {
        true
    }

    open spec fn from_spec(value: AudioUnitError) -> CAError {
        CAError::AudioUnitError(value)
    }
}

impl From<String> for CAError {
    fn from(value: String) -> (r: CAError) {
        CAError::Other(value)
    }
}

impl vstd::std_specs::convert::FromSpecImpl<String> for CAError {
    open spec fn obeys_from_spec() -> bool {
        true
    }

    open spec fn from_spec(value: String) -> CAError {
        CAError::Other(value)
    }
}

/// A status stands for at most one error: the codes within a table differ from
/// one another, no two tables share a code, and `Unknown` is left for the
/// statuses that no table holds.
pub proof fn lemma_status_has_one_meaning(status: int, a: CAError, b: CAError)
    requires
        a.stands_for(status),
        b.stands_for(status),
    ensures
        a == b,
{
}

} // verus!
