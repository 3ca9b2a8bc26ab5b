use futures::channel::mpsc::{channel, Sender};
use powerkey::utils::{ordered, SendError, SenderOption};

#[test]
fn ordered_sorts_a_descending_pair() {
    assert_eq!(ordered((5usize, 2usize)), (2, 5));
}

#[test]
fn ordered_keeps_an_ascending_pair() {
    assert_eq!(ordered((2usize, 5usize)), (2, 5));
}

#[test]
fn ordered_of_equal_components() {
    assert_eq!(ordered((7usize, 7usize)), (7, 7));
}

#[test]
fn try_send_without_sender_reports_no_sender() {
    let mut sender: Option<Sender<u32>> = None;
    let result = sender.try_send(7);
    assert!(matches!(result, Err(SendError::NoSender)));
    assert!(sender.is_none());
}

#[test]
fn try_send_delivers_the_message() {
    let (tx, mut rx) = channel::<u32>(4);
    let mut sender = Some(tx);
    assert!(sender.try_send(41).is_ok());
    assert!(sender.try_send(42).is_ok());
    assert_eq!(rx.try_next().unwrap(), Some(41));
    assert_eq!(rx.try_next().unwrap(), Some(42));
    assert!(sender.is_some());
}

#[test]
fn try_send_on_a_full_channel_hands_the_message_back() {
    let (tx, _rx) = channel::<u32>(0);
    let mut sender = Some(tx);
    assert!(sender.try_send(1).is_ok());
    match sender.try_send(2) {
        Err(SendError::InnerError(error)) => {
            assert!(error.is_full());
            assert_eq!(error.into_inner(), 2);
        }
        _ => panic!("a full channel must refuse the message"),
    }
}

#[test]
fn try_send_after_the_receiver_is_gone() {
    let (tx, rx) = channel::<u32>(1);
    drop(rx);
    let mut sender = Some(tx);
    match sender.try_send(3) {
        Err(SendError::InnerError(error)) => {
            assert!(error.is_disconnected());
            assert_eq!(error.into_inner(), 3);
        }
        _ => panic!("a closed channel must refuse the message"),
    }
}
