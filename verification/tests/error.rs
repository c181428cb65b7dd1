use embedded_sdmmc::Error;
use embedded_sdmmc::SdMmcError;
use sd_card::SdCardError;

#[test]
fn transport_failure_becomes_sdmmc_error() {
    let e = SdCardError::from(SdMmcError::CardNotFound);
    assert!(matches!(e, SdCardError::SdMmc(SdMmcError::CardNotFound)));
}

#[test]
fn transport_failure_keeps_its_payload() {
    let e = SdCardError::from(SdMmcError::TimeoutCommand(8));
    assert!(matches!(e, SdCardError::SdMmc(SdMmcError::TimeoutCommand(8))));
    let e = SdCardError::from(SdMmcError::CrcError(0x1234, 0x4321));
    assert!(matches!(e, SdCardError::SdMmc(SdMmcError::CrcError(0x1234, 0x4321))));
}

#[test]
fn engine_failure_becomes_controller_error() {
    let e = SdCardError::from(Error::<SdMmcError>::FileNotFound);
    assert!(matches!(e, SdCardError::Controller(Error::FileNotFound)));
}

#[test]
fn engine_failure_keeps_its_payload() {
    let e = SdCardError::from(Error::<SdMmcError>::FormatError("Invalid MBR signature"));
    assert!(matches!(
        e,
        SdCardError::Controller(Error::FormatError("Invalid MBR signature"))
    ));
    let e = SdCardError::from(Error::<SdMmcError>::BadBlockSize(1024));
    assert!(matches!(e, SdCardError::Controller(Error::BadBlockSize(1024))));
}

#[test]
fn device_failure_under_the_engine_stays_an_engine_failure() {
    let e = SdCardError::from(Error::DeviceError(SdMmcError::ReadError));
    assert!(matches!(
        e,
        SdCardError::Controller(Error::DeviceError(SdMmcError::ReadError))
    ));
}

fn failing_transport() -> Result<(), SdCardError> {
    Err(SdMmcError::Transport)?;
    Ok(())
}

fn failing_engine() -> Result<(), SdCardError> {
    Err(Error::<SdMmcError>::NoSuchVolume)?;
    Ok(())
}

#[test]
fn question_mark_converts_both_kinds() {
    assert!(matches!(
        failing_transport(),
        Err(SdCardError::SdMmc(SdMmcError::Transport))
    ));
    assert!(matches!(
        failing_engine(),
        Err(SdCardError::Controller(Error::NoSuchVolume))
    ));
}

#[test]
fn error_is_printable_for_diagnostics() {
    let text = format!("{:?}", SdCardError::from(SdMmcError::CardNotFound));
    assert_eq!(text, "SdMmc(CardNotFound)");
    let text = format!("{:?}", SdCardError::from(Error::<SdMmcError>::EndOfFile));
    assert_eq!(text, "Controller(EndOfFile)");
}
