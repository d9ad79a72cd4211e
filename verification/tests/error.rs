use caudio::error::{AudioCodecError, AudioError, AudioFormatError, AudioUnitError, CAError};

const AUDIO: [(AudioError, i32, &str); 7] = [
    (AudioError::Unimplemented, -4, "unimplemented"),
    (AudioError::FileNotFound, -43, "file not found"),
    (AudioError::FilePermission, -54, "file permission problem"),
    (AudioError::TooManyFilesOpen, -42, "too many open files"),
    (AudioError::BadFilePath, 561017960, "bad file path"),
    (AudioError::Param, -50, "parameter error"),
    (AudioError::MemFull, -108, "memory full"),
];

const CODEC: [(AudioCodecError, i32, &str); 7] = [
    (AudioCodecError::Unspecified, 2003329396, "unspecified"),
    (AudioCodecError::UnknownProperty, 2003332927, "unknown property"),
    (AudioCodecError::BadPropertySize, 561211770, "bad property size"),
    (AudioCodecError::IllegalOperation, 1852797029, "illegal operation"),
    (AudioCodecError::UnsupportedFormat, 560226676, "unsupported format"),
    (AudioCodecError::State, 561214580, "state error"),
    (AudioCodecError::NotEnoughBufferSpace, 560100710, "not enough buffer space"),
];

const UNIT: [(AudioUnitError, i32, &str); 17] = [
    (AudioUnitError::InvalidProperty, -10879, "invalid property"),
    (AudioUnitError::InvalidParameter, -10878, "invalid parameter"),
    (AudioUnitError::InvalidElement, -10877, "invalid element"),
    (AudioUnitError::NoConnection, -10876, "no connection"),
    (AudioUnitError::FailedInitialization, -10875, "failed initialization"),
    (AudioUnitError::TooManyFramesToProcess, -10874, "too many frames to process"),
    (AudioUnitError::InvalidFile, -10871, "invalid file"),
    (AudioUnitError::FormatNotSupported, -10868, "format not supported"),
    (AudioUnitError::Uninitialized, -10867, "uninitialized"),
    (AudioUnitError::InvalidScope, -10866, "invalid scope"),
    (AudioUnitError::PropertyNotWritable, -10865, "property not writable"),
    (AudioUnitError::CannotDoInCurrentContext, -10863, "cannot do in current context"),
    (AudioUnitError::InvalidPropertyValue, -10851, "invalid property value"),
    (AudioUnitError::PropertyNotInUse, -10850, "property not in use"),
    (AudioUnitError::Initialized, -10849, "initialized"),
    (AudioUnitError::InvalidOfflineRender, -10848, "invalid offline render"),
    (AudioUnitError::Unauthorized, -10847, "unauthorized"),
];

const FORMAT: [(AudioFormatError, &str); 6] = [
    (AudioFormatError::Unspecified, "unspecified"),
    (AudioFormatError::UnsupportedProperty, "unsupported property"),
    (AudioFormatError::BadPropertySize, "bad property size"),
    (AudioFormatError::BadSpecifierSize, "bad specifier size"),
    (AudioFormatError::UnsupportedDataFormat, "unsupported data format"),
    (AudioFormatError::UnknownFormat, "unknown format"),
];

#[test]
fn audio_errors_have_their_codes() {
    for &(e, code, text) in &AUDIO {
        assert_eq!(AudioError::from_os_status(code), Some(e));
        assert_eq!(e.os_status(), code);
        assert_eq!(e.message(), text);
        assert_eq!(CAError::from_os_status(code), Err(CAError::AudioError(e)));
        assert_eq!(CAError::AudioError(e).os_status(), Some(code));
        assert_eq!(CAError::AudioError(e).message(), format!("audio error: {}", text));
    }
    assert_eq!(AudioError::from_os_status(0), None);
    assert_eq!(AudioError::from_os_status(-10879), None);
    assert_eq!(AudioError::from_os_status(4), None);
}

#[test]
fn codec_errors_have_their_codes() {
    for &(e, code, text) in &CODEC {
        assert_eq!(AudioCodecError::from_os_status(code), Some(e));
        assert_eq!(e.os_status(), code);
        assert_eq!(e.message(), text);
        assert_eq!(CAError::from_os_status(code), Err(CAError::AudioCodecError(e)));
        assert_eq!(CAError::AudioCodecError(e).os_status(), Some(code));
        assert_eq!(CAError::AudioCodecError(e).message(), format!("audio codec error: {}", text));
    }
    assert_eq!(AudioCodecError::from_os_status(0), None);
    assert_eq!(AudioCodecError::from_os_status(-4), None);
}

#[test]
fn unit_errors_have_their_codes() {
    for &(e, code, text) in &UNIT {
        assert_eq!(AudioUnitError::from_os_status(code), Some(e));
        assert_eq!(e.os_status(), code);
        assert_eq!(e.message(), text);
        assert_eq!(CAError::from_os_status(code), Err(CAError::AudioUnitError(e)));
        assert_eq!(CAError::AudioUnitError(e).os_status(), Some(code));
        assert_eq!(CAError::AudioUnitError(e).message(), format!("audio unit error: {}", text));
    }
    for code in [-10880, -10873, -10872, -10870, -10869, -10864, -10862, -10852, -10846] {
        assert_eq!(AudioUnitError::from_os_status(code), None);
        assert_eq!(CAError::from_os_status(code), Err(CAError::Unknown(code)));
    }
}

#[test]
fn format_errors_have_one_code_to_look_up() {
    assert_eq!(
        AudioFormatError::from_os_status(1718449215),
        Some(AudioFormatError::UnsupportedDataFormat)
    );
    assert_eq!(AudioFormatError::from_os_status(1718449216), None);
    assert_eq!(AudioFormatError::from_os_status(0), None);
    assert_eq!(
        CAError::from_os_status(1718449215),
        Err(CAError::AudioFormatError(AudioFormatError::UnsupportedDataFormat))
    );
    for &(e, text) in &FORMAT {
        assert_eq!(e.message(), text);
        assert_eq!(CAError::AudioFormatError(e).message(), format!("audio format error: {}", text));
        match e {
            AudioFormatError::UnsupportedDataFormat => assert_eq!(e.os_status(), Some(1718449215)),
            _ => assert_eq!(e.os_status(), None),
        }
    }
}

#[test]
fn zero_is_success() {
    assert_eq!(CAError::from_os_status(0), Ok(()));
}

#[test]
fn status_that_no_table_holds_is_unknown() {
    for code in [1, -1, 7, 12345, i32::MAX, i32::MIN, -1500] {
        assert_eq!(CAError::from_os_status(code), Err(CAError::Unknown(code)));
    }
    assert_eq!(CAError::Unknown(7).message(), "unknown status");
    assert_eq!(CAError::Unknown(7).os_status(), Some(7));
    assert_eq!(CAError::Other(String::from("lost")).os_status(), None);
    assert_eq!(CAError::AudioFormatError(AudioFormatError::UnknownFormat).os_status(), None);
    assert_eq!(
        CAError::AudioFormatError(AudioFormatError::UnsupportedDataFormat).os_status(),
        Some(1718449215)
    );
}

#[test]
fn codes_of_the_tables_differ() {
    let mut codes: Vec<i32> = Vec::new();
    codes.extend(AUDIO.iter().map(|x| x.1));
    codes.extend(CODEC.iter().map(|x| x.1));
    codes.extend(UNIT.iter().map(|x| x.1));
    codes.push(1718449215);
    let mut unique = codes.clone();
    unique.sort();
    unique.dedup();
    assert_eq!(unique.len(), codes.len());
}

#[test]
fn errors_wrap_into_the_error_of_the_crate() {
    assert_eq!(CAError::from(AudioError::Param), CAError::AudioError(AudioError::Param));
    assert_eq!(
        CAError::from(AudioCodecError::State),
        CAError::AudioCodecError(AudioCodecError::State)
    );
    assert_eq!(
        CAError::from(AudioFormatError::UnknownFormat),
        CAError::AudioFormatError(AudioFormatError::UnknownFormat)
    );
    assert_eq!(
        CAError::from(AudioUnitError::Initialized),
        CAError::AudioUnitError(AudioUnitError::Initialized)
    );
    let other = CAError::from(String::from("no description found"));
    assert_eq!(other, CAError::Other(String::from("no description found")));
    assert_eq!(other.message(), "other: no description found");
}
