use default_hal::chip::UwbChip;
use default_hal::error::HalError;
use default_hal::protocol::{Action, Answer, Outcome, UwbEvent, UwbStatus};

type Chip = UwbChip<&'static str, u32, Vec<u8>>;

const RESET: [u8; 5] = [0x20, 0x00, 0x00, 0x01, 0x00];

fn chip() -> Chip {
    UwbChip::new(String::from("default"), Vec::new())
}

fn opened_chip() -> Chip {
    let mut chip = chip();
    assert_eq!(chip.open("alice"), Action::LinkToDeath);
    assert_eq!(chip.resume(Outcome::Linked(1)), Action::NotifyEvent { event: UwbEvent::OPEN_CPLT, status: UwbStatus::OK });
    assert_eq!(chip.resume(Outcome::Done), Action::Reply(Ok(Answer::Unit)));
    chip
}

#[test]
fn new_chip_is_closed_and_idle() {
    let chip = chip();
    assert!(!chip.is_opened());
    assert!(chip.is_idle());
    assert_eq!(chip.current(), None);
    assert_eq!(chip.target(), None);
}

#[test]
fn name_is_the_one_given() {
    let mut chip: Chip = UwbChip::new(String::from("uwb0"), Vec::new());
    assert_eq!(chip.getName(), "uwb0");
    chip.open("alice");
    chip.resume(Outcome::Linked(1));
    chip.resume(Outcome::Done);
    assert_eq!(chip.getName(), "uwb0");
    chip.client_died();
    assert_eq!(chip.getName(), "uwb0");
}

#[test]
fn version_is_one() {
    assert_eq!(chip().getSupportedAndroidUciVersion(), 1);
    assert_eq!(opened_chip().getSupportedAndroidUciVersion(), 1);
}

#[test]
fn session_init_succeeds_in_every_state() {
    assert_eq!(chip().sessionInit(0), Ok(()));
    assert_eq!(chip().sessionInit(-7), Ok(()));
    let chip = opened_chip();
    assert_eq!(chip.sessionInit(42), Ok(()));
    assert!(chip.is_opened());
}

#[test]
fn open_arms_the_watch_then_announces_then_binds() {
    let mut chip = chip();
    assert_eq!(chip.open("alice"), Action::LinkToDeath);
    assert!(!chip.is_opened());
    assert!(!chip.is_idle());
    assert_eq!(chip.target(), Some(&"alice"));
    assert_eq!(chip.current(), None);

    assert_eq!(chip.resume(Outcome::Linked(7)), Action::NotifyEvent { event: UwbEvent::OPEN_CPLT, status: UwbStatus::OK });
    assert!(!chip.is_opened());
    assert_eq!(chip.target(), Some(&"alice"));
    assert_eq!(chip.current(), None);

    assert_eq!(chip.resume(Outcome::Done), Action::Reply(Ok(Answer::Unit)));
    assert!(chip.is_opened());
    assert!(chip.is_idle());
    assert_eq!(chip.current(), Some(&"alice"));
    assert_eq!(chip.target(), None);
}

#[test]
fn open_announces_open_complete_exactly_once() {
    let mut chip = chip();
    let mut action = chip.open("alice");
    let mut announced = 0;
    let mut steps = 0;
    loop {
        steps += 1;
        let outcome = match action {
            Action::LinkToDeath => Outcome::Linked(1),
            Action::NotifyEvent { event, status } => {
                assert_eq!(event, UwbEvent::OPEN_CPLT);
                assert_eq!(status, UwbStatus::OK);
                announced += 1;
                Outcome::Done
            },
            Action::Write { .. } => panic!("open does not write"),
            Action::Reply(result) => {
                assert_eq!(result, Ok(Answer::Unit));
                break;
            },
        };
        action = chip.resume(outcome);
    }
    assert_eq!(announced, 1);
    assert_eq!(steps, 3);
}

#[test]
fn open_twice_is_illegal() {
    let mut chip = opened_chip();
    assert_eq!(chip.open("bob"), Action::Reply(Err(HalError::IllegalState)));
    assert!(chip.is_opened());
    assert!(chip.is_idle());
    assert_eq!(chip.current(), Some(&"alice"));
}

#[test]
fn open_fails_when_the_watch_cannot_be_armed() {
    let mut chip = chip();
    chip.open("alice");
    assert_eq!(chip.resume(Outcome::Failed), Action::Reply(Err(HalError::RemoteGone)));
    assert!(!chip.is_opened());
    assert!(chip.is_idle());
    assert_eq!(chip.open("bob"), Action::LinkToDeath);
}

#[test]
fn open_fails_without_a_watch_token() {
    let mut chip = chip();
    chip.open("alice");
    assert_eq!(chip.resume(Outcome::Done), Action::Reply(Err(HalError::RemoteGone)));
    assert!(!chip.is_opened());
    assert!(chip.is_idle());
}

#[test]
fn open_fails_when_the_client_cannot_be_told() {
    let mut chip = chip();
    chip.open("alice");
    chip.resume(Outcome::Linked(1));
    assert_eq!(chip.resume(Outcome::Failed), Action::Reply(Err(HalError::RemoteGone)));
    assert!(!chip.is_opened());
    assert!(chip.is_idle());
    assert_eq!(chip.current(), None);
}

#[test]
fn close_writes_reset_then_announces_then_unbinds() {
    let mut chip = opened_chip();
    assert_eq!(chip.close(), Action::Write { bytes: RESET.to_vec() });
    assert!(chip.is_opened());
    assert_eq!(chip.current(), Some(&"alice"));

    assert_eq!(chip.resume(Outcome::Done), Action::NotifyEvent { event: UwbEvent::CLOSE_CPLT, status: UwbStatus::OK });
    assert!(chip.is_opened());
    assert_eq!(chip.target(), Some(&"alice"));
    assert_eq!(chip.current(), Some(&"alice"));

    assert_eq!(chip.resume(Outcome::Done), Action::Reply(Ok(Answer::Unit)));
    assert!(!chip.is_opened());
    assert!(chip.is_idle());
    assert_eq!(chip.current(), None);
}

#[test]
fn close_twice_is_illegal() {
    let mut chip = opened_chip();
    chip.close();
    chip.resume(Outcome::Done);
    assert_eq!(chip.resume(Outcome::Done), Action::Reply(Ok(Answer::Unit)));
    assert_eq!(chip.close(), Action::Reply(Err(HalError::IllegalState)));
    assert!(!chip.is_opened());
    assert!(chip.is_idle());
}

#[test]
fn close_before_open_is_illegal() {
    let mut chip = chip();
    assert_eq!(chip.close(), Action::Reply(Err(HalError::IllegalState)));
    assert!(chip.is_idle());
}

#[test]
fn close_keeps_the_binding_when_the_write_fails() {
    let mut chip = opened_chip();
    chip.close();
    assert_eq!(chip.resume(Outcome::Failed), Action::Reply(Err(HalError::TransportIo)));
    assert!(chip.is_opened());
    assert!(chip.is_idle());
    assert_eq!(chip.current(), Some(&"alice"));
}

#[test]
fn close_unbinds_when_the_client_cannot_be_told() {
    let mut chip = opened_chip();
    chip.close();
    chip.resume(Outcome::Done);
    assert_eq!(chip.resume(Outcome::Failed), Action::Reply(Err(HalError::RemoteGone)));
    assert!(!chip.is_opened());
    assert!(chip.is_idle());
}

#[test]
fn open_again_after_close() {
    let mut chip = opened_chip();
    chip.close();
    chip.resume(Outcome::Done);
    chip.resume(Outcome::Done);
    assert_eq!(chip.open("bob"), Action::LinkToDeath);
    chip.resume(Outcome::Linked(2));
    assert_eq!(chip.resume(Outcome::Done), Action::Reply(Ok(Answer::Unit)));
    assert_eq!(chip.current(), Some(&"bob"));
}

#[test]
fn core_init_announces_post_init_complete() {
    let mut chip = opened_chip();
    assert_eq!(chip.coreInit(), Action::NotifyEvent { event: UwbEvent::POST_INIT_CPLT, status: UwbStatus::OK });
    assert_eq!(chip.target(), Some(&"alice"));
    assert_eq!(chip.resume(Outcome::Done), Action::Reply(Ok(Answer::Unit)));
    assert!(chip.is_opened());
    assert!(chip.is_idle());
}

#[test]
fn core_init_while_closed_is_illegal() {
    let mut chip = chip();
    assert_eq!(chip.coreInit(), Action::Reply(Err(HalError::IllegalState)));
    assert!(chip.is_idle());
    assert!(!chip.is_opened());
}

#[test]
fn core_init_unbinds_when_the_client_cannot_be_told() {
    let mut chip = opened_chip();
    chip.coreInit();
    assert_eq!(chip.resume(Outcome::Failed), Action::Reply(Err(HalError::RemoteGone)));
    assert!(!chip.is_opened());
    assert_eq!(chip.sendUciMessage(&[0x20]), Action::Reply(Err(HalError::IllegalState)));
}

#[test]
fn send_writes_the_message_as_it_stands_and_counts_it() {
    let mut chip = opened_chip();
    let message = [0x21, 0x00, 0x00, 0x03, 0x01, 0x02, 0x03];
    assert_eq!(chip.sendUciMessage(&message), Action::Write { bytes: message.to_vec() });
    assert!(!chip.is_idle());
    assert_eq!(chip.resume(Outcome::Done), Action::Reply(Ok(Answer::Count(7))));
    assert!(chip.is_opened());
    assert!(chip.is_idle());
}

#[test]
fn send_of_nothing_counts_nothing() {
    let mut chip = opened_chip();
    assert_eq!(chip.sendUciMessage(&[]), Action::Write { bytes: vec![] });
    assert_eq!(chip.resume(Outcome::Done), Action::Reply(Ok(Answer::Count(0))));
}

#[test]
fn send_while_closed_is_illegal() {
    let mut chip = chip();
    assert_eq!(chip.sendUciMessage(&[0x20, 0x00]), Action::Reply(Err(HalError::IllegalState)));
    assert!(chip.is_idle());
    assert!(!chip.is_opened());
}

#[test]
fn send_reports_a_failed_write() {
    let mut chip = opened_chip();
    chip.sendUciMessage(&[0x01, 0x02]);
    assert_eq!(chip.resume(Outcome::Failed), Action::Reply(Err(HalError::TransportIo)));
    assert!(chip.is_opened());
    assert!(chip.is_idle());
}

#[test]
fn death_closes_and_send_is_then_illegal() {
    let mut chip = opened_chip();
    chip.client_died();
    assert!(!chip.is_opened());
    assert!(chip.is_idle());
    assert_eq!(chip.current(), None);
    assert_eq!(chip.sendUciMessage(&[0x20]), Action::Reply(Err(HalError::IllegalState)));
    assert_eq!(chip.coreInit(), Action::Reply(Err(HalError::IllegalState)));
    assert_eq!(chip.close(), Action::Reply(Err(HalError::IllegalState)));
}

#[test]
fn death_while_closed_changes_nothing() {
    let mut chip = chip();
    chip.client_died();
    assert!(!chip.is_opened());
    assert!(chip.is_idle());
    assert_eq!(chip.open("alice"), Action::LinkToDeath);
}

#[test]
fn death_gives_up_the_call_under_way() {
    let mut chip = opened_chip();
    chip.close();
    chip.client_died();
    assert!(!chip.is_opened());
    assert!(chip.is_idle());
    assert_eq!(chip.resume(Outcome::Done), Action::Reply(Err(HalError::IllegalState)));
}

#[test]
fn open_after_death_binds_the_new_client() {
    let mut chip = opened_chip();
    chip.client_died();
    assert_eq!(chip.open("bob"), Action::LinkToDeath);
    chip.resume(Outcome::Linked(2));
    chip.resume(Outcome::Done);
    assert_eq!(chip.current(), Some(&"bob"));
}

#[test]
fn resume_without_a_call_is_illegal() {
    let mut chip = chip();
    assert_eq!(chip.resume(Outcome::Done), Action::Reply(Err(HalError::IllegalState)));
    assert_eq!(chip.resume(Outcome::Failed), Action::Reply(Err(HalError::IllegalState)));
    let mut chip = opened_chip();
    assert_eq!(chip.resume(Outcome::Linked(9)), Action::Reply(Err(HalError::IllegalState)));
    assert!(chip.is_opened());
    assert_eq!(chip.current(), Some(&"alice"));
}

#[test]
fn a_call_during_another_is_refused_and_disturbs_nothing() {
    let mut chip = opened_chip();
    assert_eq!(chip.close(), Action::Write { bytes: RESET.to_vec() });
    assert_eq!(chip.sendUciMessage(&[0x01]), Action::Reply(Err(HalError::IllegalState)));
    assert_eq!(chip.coreInit(), Action::Reply(Err(HalError::IllegalState)));
    assert_eq!(chip.close(), Action::Reply(Err(HalError::IllegalState)));
    assert_eq!(chip.open("bob"), Action::Reply(Err(HalError::IllegalState)));
    assert_eq!(chip.resume(Outcome::Done), Action::NotifyEvent { event: UwbEvent::CLOSE_CPLT, status: UwbStatus::OK });
    assert_eq!(chip.resume(Outcome::Done), Action::Reply(Ok(Answer::Unit)));
    assert!(!chip.is_opened());
}

#[test]
fn writer_is_lent_and_kept() {
    let mut chip = opened_chip();
    chip.writer().extend_from_slice(&[1, 2, 3]);
    chip.writer().push(4);
    assert_eq!(chip.writer().as_slice(), &[1, 2, 3, 4]);
    assert!(chip.is_opened());
    assert_eq!(chip.getName(), "default");
}
