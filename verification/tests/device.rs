use primare_i22::api::{MenuAction, PowerState};
use primare_i22::commands;
use primare_i22::device::{
    BalanceCommand, DimCommand, Exchange, InputCommand, IrInputCommand, Link, MuteCommand, TextCommand,
    VolumeCommand,
};
use primare_i22::error::AppError;
use primare_i22::protocol::{ir_remote, Reply};

fn reply(values: &[u8]) -> Result<Reply, AppError> {
    Ok(Reply { variable: 0x03, values: values.to_vec() })
}

fn io_error() -> std::io::Error {
    std::io::Error::new(std::io::ErrorKind::BrokenPipe, "gone")
}

fn message(e: AppError) -> String {
    match e {
        AppError::InvalidParameter(m) => m,
        other => panic!("not an invalid parameter: {:?}", other),
    }
}

#[test]
fn new_link_is_alive_with_unknown_power() {
    let link = Link::new();
    assert!(!link.is_dead());
    assert!(!link.needs_reopen());
    assert_eq!(link.power_state, None);
    assert!(!link.get_power());
}

#[test]
fn failed_write_or_read_kills_the_link() {
    let mut link = Link::new();
    assert!(matches!(link.exchange_result(Exchange::TimedOut), Err(AppError::Timeout)));
    assert!(!link.is_dead());
    // A timeout asks for the port to be reopened, which enables verbose again.
    assert!(link.needs_reopen());
    assert!(matches!(link.exchange_result(Exchange::WriteFailed(io_error())), Err(AppError::Io(_))));
    assert!(link.is_dead());
    let mut link = Link::new();
    assert!(matches!(link.exchange_result(Exchange::ReadFailed(io_error())), Err(AppError::Io(_))));
    assert!(link.is_dead());
    // A dead link stays dead.
    assert!(link.exchange_result(Exchange::Received(vec![0x02, 0x03, 0x28, 0x10, 0x03])).is_ok());
    assert!(link.is_dead());
}

#[test]
fn received_bytes_are_parsed() {
    let mut link = Link::new();
    let r = link.exchange_result(Exchange::Received(vec![0x02, 0x83, 0x10, 0x10, 0x10, 0x03])).unwrap();
    assert_eq!(r.variable, 0x83);
    assert_eq!(r.values, vec![0x10]);
    assert!(!link.needs_reopen());
    assert!(matches!(
        link.exchange_result(Exchange::Received(vec![0x00, 0x03, 0x10, 0x03])),
        Err(AppError::InvalidReply)
    ));
    assert!(!link.is_dead());
    assert!(link.needs_reopen());
}

#[test]
fn send_result_kills_the_link_on_failure() {
    let mut link = Link::new();
    assert!(link.send_result(Ok(())).is_ok());
    assert!(!link.is_dead());
    assert!(matches!(link.send_result(Err(io_error())), Err(AppError::Io(_))));
    assert!(link.is_dead());
}

#[test]
fn step_bytes() {
    assert_eq!(Link::step_byte(true), 0x01);
    assert_eq!(Link::step_byte(false), 0xFF);
}

#[test]
fn read_timeout_means_power_off() {
    let mut link = Link::new();
    link.power_state = Some(true);
    assert!(matches!(link.read_value(Err(AppError::Timeout)), Err(AppError::Timeout)));
    assert_eq!(link.power_state, Some(false));
    let mut link = Link::new();
    link.power_state = Some(true);
    assert_eq!(link.read_value(reply(&[40])).unwrap(), 40);
    assert!(matches!(link.read_value(reply(&[])), Err(AppError::InvalidReply)));
    assert!(matches!(link.read_value(Err(AppError::InvalidReply)), Err(AppError::InvalidReply)));
    assert_eq!(link.power_state, Some(true));
}

#[test]
fn read_text_decodes_utf8() {
    let mut link = Link::new();
    assert_eq!(link.read_text(reply(b"PRIMARE")).unwrap(), "PRIMARE");
    assert!(matches!(link.read_text(reply(&[0xC3])), Err(AppError::InvalidReply)));
    assert_eq!(link.power_state, None);
    assert!(matches!(link.read_text(Err(AppError::Timeout)), Err(AppError::Timeout)));
    assert_eq!(link.power_state, Some(false));
}

#[test]
fn enable_verbose_tolerates_timeout() {
    assert!(Link::enable_verbose(reply(&[1])).is_ok());
    assert!(Link::enable_verbose(reply(&[])).is_ok());
    assert!(Link::enable_verbose(Err(AppError::Timeout)).is_ok());
    assert!(matches!(Link::enable_verbose(Err(AppError::InvalidReply)), Err(AppError::InvalidReply)));
}

#[test]
fn power_state_is_cached() {
    let mut link = Link::new();
    assert_eq!(link.set_power(true, reply(&[0x01])).unwrap(), true);
    assert!(link.get_power());
    assert_eq!(link.set_power(true, reply(&[0x00])).unwrap(), false);
    assert!(!link.get_power());
    // A timeout means the device is already in the requested state.
    assert_eq!(link.set_power(true, Err(AppError::Timeout)).unwrap(), true);
    assert!(link.get_power());
    assert!(matches!(link.set_power(false, reply(&[])), Err(AppError::InvalidReply)));
    assert!(link.get_power());
    assert_eq!(link.toggle_power(reply(&[0x00])).unwrap(), false);
    assert!(!link.get_power());
    // Toggling does not read a timeout as a power state.
    assert!(matches!(link.toggle_power(Err(AppError::Timeout)), Err(AppError::Timeout)));
    assert_eq!(link.power_state, Some(false));
}

#[test]
fn power_commands() {
    assert_eq!(PowerState::On.frame(), commands::power_on().frame(None));
    assert_eq!(PowerState::Off.frame(), vec![0x02, 0x57, 0x81, 0x00, 0x10, 0x03]);
    assert_eq!(PowerState::Toggle.frame(), vec![0x02, 0x57, 0x01, 0x00, 0x10, 0x03]);
    // Power on and off go with verbose mode turned off first.
    assert_eq!(
        PowerState::On.frames(),
        vec![vec![0x02, 0x57, 0x0D, 0x00, 0x10, 0x03], vec![0x02, 0x57, 0x81, 0x01, 0x10, 0x03]]
    );
    assert_eq!(
        PowerState::Off.frames(),
        vec![commands::verbose_off().frame(None), vec![0x02, 0x57, 0x81, 0x00, 0x10, 0x03]]
    );
    assert_eq!(PowerState::Toggle.frames(), vec![PowerState::Toggle.frame()]);
    // ... and verbose mode turned back on after.
    assert_eq!(PowerState::On.frames_after(), vec![vec![0x02, 0x57, 0x8D, 0x01, 0x10, 0x03]]);
    assert_eq!(PowerState::Off.frames_after(), vec![commands::verbose_on().frame(None)]);
    assert!(PowerState::Toggle.frames_after().is_empty());
    assert!(PowerState::Off.settle_after(Err(AppError::Timeout)).is_ok());
    assert!(matches!(PowerState::Off.settle_after(Err(AppError::InvalidReply)), Err(AppError::InvalidReply)));
    assert!(PowerState::On.settle_before(Err(AppError::Timeout)).is_ok());
    assert!(PowerState::On.settle_before(reply(&[0])).is_ok());
    assert!(matches!(PowerState::On.settle_before(Err(AppError::InvalidReply)), Err(AppError::InvalidReply)));
    let mut link = Link::new();
    assert_eq!(PowerState::Off.settle(&mut link, Err(AppError::Timeout)).unwrap(), false);
    assert_eq!(link.power_state, Some(false));
    assert_eq!(PowerState::Toggle.settle(&mut link, reply(&[1])).unwrap(), true);
    assert!(link.get_power());
}

#[test]
fn volume_commands() {
    assert_eq!(VolumeCommand::Get.frame().unwrap(), vec![0x02, 0x57, 0x83, 0x00, 0x10, 0x03]);
    assert_eq!(VolumeCommand::SetTo(79).frame().unwrap(), vec![0x02, 0x57, 0x83, 79, 0x10, 0x03]);
    assert_eq!(message(VolumeCommand::SetTo(80).frame().unwrap_err()), "Volume must be 0-79");
    assert_eq!(VolumeCommand::Step(false).frame().unwrap(), vec![0x02, 0x57, 0x03, 0xFF, 0x10, 0x03]);
    let mut link = Link::new();
    assert_eq!(VolumeCommand::SetTo(25).settle(&mut link, reply(&[25])).unwrap(), 25);
    assert!(VolumeCommand::Step(true).settle(&mut link, Err(AppError::Timeout)).is_err());
    assert_eq!(link.power_state, None);
    assert!(VolumeCommand::Get.settle(&mut link, Err(AppError::Timeout)).is_err());
    assert_eq!(link.power_state, Some(false));
}

#[test]
fn input_commands() {
    assert_eq!(message(InputCommand::SetTo(0).frame().unwrap_err()), "Input must be 1-7");
    assert_eq!(message(InputCommand::SetTo(8).frame().unwrap_err()), "Input must be 1-7");
    assert_eq!(InputCommand::SetTo(7).frame().unwrap(), vec![0x02, 0x57, 0x82, 0x07, 0x10, 0x03]);
    assert_eq!(InputCommand::Step(true).frame().unwrap(), vec![0x02, 0x57, 0x02, 0x01, 0x10, 0x03]);
    let mut link = Link::new();
    assert_eq!(InputCommand::Get.settle(&mut link, reply(&[3])).unwrap(), 3);
}

#[test]
fn mute_commands() {
    assert_eq!(MuteCommand::SetTo(true).frame(), vec![0x02, 0x57, 0x89, 0x01, 0x10, 0x03]);
    assert_eq!(MuteCommand::Toggle.frame(), vec![0x02, 0x57, 0x09, 0x00, 0x10, 0x03]);
    let mut link = Link::new();
    assert_eq!(MuteCommand::Get.settle(&mut link, reply(&[1])).unwrap(), true);
    assert_eq!(MuteCommand::SetTo(false).settle(&mut link, reply(&[0])).unwrap(), false);
    assert_eq!(MuteCommand::Toggle.settle(&mut link, reply(&[2])).unwrap(), false);
}

#[test]
fn balance_commands() {
    assert_eq!(BalanceCommand::SetTo(-3).frame().unwrap(), vec![0x02, 0x57, 0x84, 0xFD, 0x10, 0x03]);
    assert_eq!(message(BalanceCommand::SetTo(-10).frame().unwrap_err()), "Balance must be -9 to 9");
    assert_eq!(message(BalanceCommand::SetTo(10).frame().unwrap_err()), "Balance must be -9 to 9");
    assert_eq!(BalanceCommand::Step(-2).frame().unwrap(), vec![0x02, 0x57, 0x04, 0xFE, 0x10, 0x03]);
    let mut link = Link::new();
    assert_eq!(BalanceCommand::Get.settle(&mut link, reply(&[0xF7])).unwrap(), -9);
    assert_eq!(BalanceCommand::Step(1).settle(&mut link, reply(&[4])).unwrap(), 4);
}

#[test]
fn dim_commands() {
    assert_eq!(message(DimCommand::SetTo(4).frame().unwrap_err()), "Dim level must be 0-3");
    assert_eq!(DimCommand::SetTo(0).frame().unwrap(), vec![0x02, 0x57, 0x8A, 0x00, 0x10, 0x03]);
    assert_eq!(DimCommand::Step.frame().unwrap(), vec![0x02, 0x57, 0x0A, 0x00, 0x10, 0x03]);
    let mut link = Link::new();
    assert_eq!(DimCommand::Step.settle(&mut link, reply(&[2])).unwrap(), 2);
}

#[test]
fn menu_actions() {
    assert_eq!(MenuAction::Enter.frame(), vec![0x02, 0x57, 0x8E, 0x01, 0x10, 0x03]);
    assert_eq!(MenuAction::Exit.frame(), vec![0x02, 0x57, 0x0E, 0x01, 0x10, 0x03]);
    assert_eq!(MenuAction::Up.frame(), commands::menu_nav().frame(Some(ir_remote::STEP_UP)));
    assert_eq!(MenuAction::Down.frame(), vec![0x02, 0x57, 0x0F, 0x1F, 0x10, 0x03]);
    assert_eq!(MenuAction::Left.frame(), vec![0x02, 0x57, 0x0F, 0x09, 0x10, 0x03]);
    assert_eq!(MenuAction::Right.frame(), vec![0x02, 0x57, 0x0F, 0x08, 0x10, 0x03]);
    assert!(MenuAction::Up.settle(reply(&[])).is_ok());
    assert!(matches!(MenuAction::Up.settle(Err(AppError::Timeout)), Err(AppError::Timeout)));
}

#[test]
fn ir_input_commands() {
    assert_eq!(IrInputCommand::SetTo(true).frame(), vec![0x02, 0x57, 0x92, 0x01, 0x10, 0x03]);
    assert_eq!(IrInputCommand::Get.frame(), vec![0x02, 0x57, 0x92, 0x00, 0x10, 0x03]);
    let mut link = Link::new();
    assert_eq!(IrInputCommand::Get.settle(&mut link, reply(&[0])).unwrap(), false);
    assert_eq!(IrInputCommand::Get.settle(&mut link, reply(&[2])).unwrap(), true);
}

#[test]
fn text_commands() {
    assert_eq!(TextCommand::ProductLine.frame().unwrap(), vec![0x02, 0x52, 0x15, 0x00, 0x10, 0x03]);
    assert_eq!(TextCommand::InputName(2).frame().unwrap(), vec![0x02, 0x52, 0x94, 0x02, 0x10, 0x03]);
    assert_eq!(message(TextCommand::InputName(0).frame().unwrap_err()), "Input must be 1-7");
    assert_eq!(TextCommand::InputName(2).exchanges(), 2);
    assert_eq!(TextCommand::Version.exchanges(), 1);
    let mut link = Link::new();
    assert_eq!(TextCommand::InputName(1).settle(&mut link, reply(b"CD")).unwrap(), "CD");
    assert!(TextCommand::InputName(1).settle(&mut link, Err(AppError::Timeout)).is_err());
    assert_eq!(link.power_state, None);
    assert!(TextCommand::ModelName.settle(&mut link, Err(AppError::Timeout)).is_err());
    assert_eq!(link.power_state, Some(false));
}

#[test]
fn power_cache_follows_the_last_word() {
    let mut link = Link::new();
    assert!(!link.get_power());
    assert_eq!(PowerState::On.settle(&mut link, reply(&[1])).unwrap(), true);
    // Operations that say nothing of the power leave the cache alone.
    assert_eq!(VolumeCommand::Get.settle(&mut link, reply(&[10])).unwrap(), 10);
    assert!(VolumeCommand::Step(true).settle(&mut link, Err(AppError::Timeout)).is_err());
    assert!(link.get_power());
    // A timed-out value read means off.
    assert!(MuteCommand::Get.settle(&mut link, Err(AppError::Timeout)).is_err());
    assert!(!link.get_power());
    assert_eq!(PowerState::Toggle.settle(&mut link, reply(&[1])).unwrap(), true);
    assert!(link.get_power());
}
