use primare_i22::api::{
    ir_source_str, BalanceRequest, DimRequest, Direction, FactoryResetRequest, HealthResponse, InputRequest,
    IrInputRequest, IrInputResponse, IrSource, MuteRequest, VolumeRequest,
};
use primare_i22::device::{BalanceCommand, DimCommand, InputCommand, IrInputCommand, MuteCommand, VolumeCommand};
use primare_i22::error::AppError;

fn message(e: AppError) -> String {
    match e {
        AppError::InvalidParameter(m) => m,
        other => panic!("not an invalid parameter: {:?}", other),
    }
}

#[test]
fn volume_requests() {
    assert_eq!(VolumeRequest { level: Some(25), step: Some(1) }.command().unwrap(), VolumeCommand::SetTo(25));
    assert_eq!(VolumeRequest { level: None, step: Some(1) }.command().unwrap(), VolumeCommand::Step(true));
    assert_eq!(VolumeRequest { level: None, step: Some(-1) }.command().unwrap(), VolumeCommand::Step(false));
    assert_eq!(VolumeRequest { level: None, step: Some(0) }.command().unwrap(), VolumeCommand::Step(false));
    assert_eq!(
        message(VolumeRequest { level: None, step: None }.command().unwrap_err()),
        "Provide either 'level' (0-79) or 'step' (+1/-1)"
    );
}

#[test]
fn input_requests() {
    assert_eq!(InputRequest { input: Some(2), step: None }.command().unwrap(), InputCommand::SetTo(2));
    assert_eq!(
        InputRequest { input: None, step: Some(Direction::Down) }.command().unwrap(),
        InputCommand::Step(false)
    );
    assert_eq!(
        message(InputRequest { input: None, step: None }.command().unwrap_err()),
        "Provide either 'input' (1-7) or 'step' (up/down)"
    );
}

#[test]
fn mute_requests() {
    assert_eq!(MuteRequest { state: Some(true) }.command(), MuteCommand::SetTo(true));
    assert_eq!(MuteRequest { state: None }.command(), MuteCommand::Toggle);
}

#[test]
fn balance_requests() {
    assert_eq!(BalanceRequest { value: Some(-3), step: None }.command().unwrap(), BalanceCommand::SetTo(-3));
    assert_eq!(BalanceRequest { value: None, step: Some(2) }.command().unwrap(), BalanceCommand::Step(2));
    assert_eq!(
        message(BalanceRequest { value: None, step: None }.command().unwrap_err()),
        "Provide either 'value' (-9..9) or 'step'"
    );
}

#[test]
fn dim_requests() {
    assert_eq!(DimRequest { level: Some(2), step: true }.command().unwrap(), DimCommand::SetTo(2));
    assert_eq!(DimRequest { level: None, step: true }.command().unwrap(), DimCommand::Step);
    assert_eq!(
        message(DimRequest { level: None, step: false }.command().unwrap_err()),
        "Provide either 'level' (0-3) or 'step': true"
    );
}

#[test]
fn ir_input_requests_and_names() {
    assert_eq!(IrInputRequest { source: IrSource::Back }.command(), IrInputCommand::SetTo(true));
    assert_eq!(IrInputRequest { source: IrSource::Front }.command(), IrInputCommand::SetTo(false));
    assert_eq!(ir_source_str(true), "back");
    assert_eq!(ir_source_str(false), "front");
    assert_eq!(IrInputResponse::new(true).source, "back");
}

#[test]
fn factory_reset_needs_confirmation() {
    assert!(FactoryResetRequest { confirm: true }.check().is_ok());
    assert_eq!(
        message(FactoryResetRequest { confirm: false }.check().unwrap_err()),
        "Set 'confirm': true to proceed with factory reset"
    );
}

#[test]
fn health_report() {
    let h = HealthResponse::new(true);
    assert_eq!(h.status, "ok");
    assert!(h.serial_ok);
}

#[test]
fn errors_map_to_disconnects_and_status_codes() {
    let io = AppError::Io(std::io::Error::new(std::io::ErrorKind::Other, "x"));
    let serial = AppError::Serial(tokio_serial::Error::new(tokio_serial::ErrorKind::NoDevice, "none"));
    let param = AppError::InvalidParameter("p".to_string());
    assert!(io.should_disconnect() && serial.should_disconnect());
    assert!(AppError::Timeout.should_disconnect() && AppError::InvalidReply.should_disconnect());
    assert!(!param.should_disconnect());
    assert_eq!(io.status_code(), 500);
    assert_eq!(serial.status_code(), 500);
    assert_eq!(AppError::Timeout.status_code(), 504);
    assert_eq!(AppError::InvalidReply.status_code(), 502);
    assert_eq!(param.status_code(), 400);
}

#[test]
fn error_messages() {
    assert_eq!(AppError::Timeout.message(), "No reply from device (timeout)");
    assert_eq!(AppError::InvalidReply.message(), "Invalid reply from device");
    assert_eq!(AppError::InvalidParameter("Volume must be 0-79".to_string()).message(), "Volume must be 0-79");
    let io = AppError::Io(std::io::Error::new(std::io::ErrorKind::Other, "broken"));
    assert_eq!(io.message(), "I/O error: broken");
    let serial = AppError::Serial(tokio_serial::Error::new(tokio_serial::ErrorKind::NoDevice, "no such port"));
    assert_eq!(serial.message(), "Serial port error: no such port");
}
