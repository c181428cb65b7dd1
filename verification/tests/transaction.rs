use embedded_sdmmc::Error;
use embedded_sdmmc::Mode;
use embedded_sdmmc::SdMmcError;
use embedded_sdmmc::VolumeIdx;
use sd_card::Call;
use sd_card::Held;
use sd_card::Next;
use sd_card::SdCard;
use sd_card::SdCardError;

fn session() -> SdCard {
    let held = match SdCard::new().acquired(Ok(())) {
        Ok(held) => held,
        Err(_) => panic!("the bus was acquired"),
    };
    let held = match held.completed(Ok(0)) {
        Next::Call(held) => held,
        _ => panic!("the root directory is still to open"),
    };
    match held.completed(Ok(0)) {
        Next::Mounted(card) => card,
        _ => panic!("the card is mounted"),
    }
}

fn hold<'s, 'a, B>(acquired: Result<Held<'s, 'a, B>, SdCardError>) -> Held<'s, 'a, B> {
    match acquired {
        Ok(held) => held,
        Err(_) => panic!("the bus was acquired"),
    }
}

#[test]
fn acquired_bus_stands_at_the_first_call() {
    let held = hold(SdCard::new().acquired(Ok(())));
    assert_eq!(held.call(), Call::MountVolume(VolumeIdx(0)));
}

#[test]
fn refused_bus_ends_the_operation_with_the_transport_failure() {
    let r = SdCard::new().acquired::<()>(Err(SdMmcError::CardNotFound));
    assert!(matches!(
        r,
        Err(SdCardError::SdMmc(SdMmcError::CardNotFound))
    ));
}

#[test]
fn call_does_not_move_the_transaction() {
    let mut card = session();
    let data = [4u8; 3];
    let held = hold(card.write_file("x.txt", &data).acquired(Ok(())));
    assert_eq!(
        held.call(),
        Call::OpenFile("x.txt", Mode::ReadWriteCreateOrAppend)
    );
    assert_eq!(
        held.call(),
        Call::OpenFile("x.txt", Mode::ReadWriteCreateOrAppend)
    );
}

#[test]
fn bus_handle_stays_with_the_transaction_until_it_ends() {
    let mut card = session();
    let data = [4u8; 3];
    let mut held = hold(card.write_file("x.txt", &data).acquired(Ok(41u32)));
    assert_eq!(*held.bus_mut(), 41);
    *held.bus_mut() += 1;
    let mut held = match held.completed(Ok(0)) {
        Next::Call(held) => held,
        _ => panic!("the write is still to make"),
    };
    assert_eq!(held.call(), Call::Write(&data));
    assert_eq!(*held.bus_mut(), 42);
    let mut held = match held.completed(Ok(3)) {
        Next::Call(held) => held,
        _ => panic!("the close is still to make"),
    };
    assert_eq!(held.call(), Call::CloseFile);
    assert_eq!(*held.bus_mut(), 42);
    assert!(matches!(held.completed(Ok(0)), Next::Done(Ok(3))));
}

#[test]
fn bus_handle_is_dropped_when_the_operation_succeeds() {
    let token = std::rc::Rc::new(());
    let mut card = session();
    let held = hold(card.read().acquired(Ok(token.clone())));
    assert_eq!(std::rc::Rc::strong_count(&token), 2);
    let next = held.completed(Ok(12));
    assert!(matches!(next, Next::Done(Ok(12))));
    assert_eq!(std::rc::Rc::strong_count(&token), 1);
}

#[test]
fn bus_handle_is_dropped_when_the_engine_fails() {
    let token = std::rc::Rc::new(());
    let held = hold(SdCard::new().acquired(Ok(token.clone())));
    assert_eq!(std::rc::Rc::strong_count(&token), 2);
    let next = held.completed(Err(Error::NoSuchVolume));
    assert!(matches!(
        next,
        Next::Done(Err(SdCardError::Controller(Error::NoSuchVolume)))
    ));
    assert_eq!(std::rc::Rc::strong_count(&token), 1);
}

#[test]
fn bus_handle_is_dropped_when_the_card_is_mounted() {
    let token = std::rc::Rc::new(());
    let held = hold(SdCard::new().acquired(Ok(token.clone())));
    let held = match held.completed(Ok(0)) {
        Next::Call(held) => held,
        _ => panic!("the root directory is still to open"),
    };
    assert_eq!(std::rc::Rc::strong_count(&token), 2);
    assert!(matches!(held.completed(Ok(0)), Next::Mounted(_)));
    assert_eq!(std::rc::Rc::strong_count(&token), 1);
}

#[test]
fn failure_of_the_first_call_ends_the_mounting_at_once() {
    let held = hold(SdCard::new().acquired(Ok(())));
    let next = held.completed(Err(Error::NoSuchVolume));
    assert!(matches!(
        next,
        Next::Done(Err(SdCardError::Controller(Error::NoSuchVolume)))
    ));
}

#[test]
fn count_of_a_call_that_moves_no_bytes_is_not_read() {
    let mut card = session();
    let held = hold(card.open_file("a.txt", Mode::ReadOnly).acquired(Ok(())));
    assert!(matches!(held.completed(Ok(1234)), Next::Done(Ok(0))));
    let held = hold(card.close_file().acquired(Ok(())));
    assert!(matches!(held.completed(Ok(1234)), Next::Done(Ok(0))));
}

#[test]
fn largest_count_passes_through() {
    let mut card = session();
    let held = hold(card.read().acquired(Ok(())));
    assert!(matches!(
        held.completed(Ok(usize::MAX)),
        Next::Done(Ok(usize::MAX))
    ));
}

#[test]
fn session_can_run_one_operation_after_another() {
    let mut card = session();
    for round in 0..3usize {
        let held = hold(card.read().acquired(Ok(())));
        match held.completed(Ok(round)) {
            Next::Done(Ok(n)) => assert_eq!(n, round),
            _ => panic!("a read ends with its count"),
        }
    }
}
