use realm_monitor::communication::{Error, ErrorKind};
use realm_monitor::rmi::channel::{Call, Message, Receiver, Sender, CAPACITY};
use realm_monitor::rmi::code::{
    Code, RMM_GRANULE_DELEGATE, RMM_GRANULE_UNDELEGATE, RMM_REQ_COMPLETE, RMM_VERSION,
};
use std::cmp::Ordering;

fn interleaved() -> Vec<Code> {
    vec![
        Code::Unknown(0),
        Code::Unknown(0xbfff_ffff),
        Code::Version,
        Code::GranuleDelegate,
        Code::GranuleUndelegate,
        Code::Unknown(0xc000_0003),
        Code::Unknown(0xc000_000f),
        Code::RequestComplete,
        Code::Unknown(0xc000_0011),
        Code::Unknown(usize::MAX),
    ]
}

#[test]
fn named_words_are_fixed() {
    assert_eq!(RMM_VERSION, 0xc000_0000);
    assert_eq!(RMM_GRANULE_DELEGATE, 0xc000_0001);
    assert_eq!(RMM_GRANULE_UNDELEGATE, 0xc000_0002);
    assert_eq!(RMM_REQ_COMPLETE, 0xc000_0010);
    assert_eq!(usize::from(Code::Version), 0xc000_0000);
    assert_eq!(usize::from(Code::GranuleDelegate), 0xc000_0001);
    assert_eq!(usize::from(Code::GranuleUndelegate), 0xc000_0002);
    assert_eq!(usize::from(Code::RequestComplete), 0xc000_0010);
}

#[test]
fn named_words_round_trip() {
    for (word, code) in [
        (RMM_VERSION, Code::Version),
        (RMM_REQ_COMPLETE, Code::RequestComplete),
        (RMM_GRANULE_DELEGATE, Code::GranuleDelegate),
        (RMM_GRANULE_UNDELEGATE, Code::GranuleUndelegate),
    ] {
        assert_eq!(Code::from(word), code);
        assert_eq!(usize::from(Code::from(word)), word);
        assert_eq!(Code::from(usize::from(code)), code);
    }
}

#[test]
fn other_words_round_trip_as_unknown() {
    for word in [0, 1, 0xbfff_ffff, 0xc000_0003, 0xc000_000f, 0xc000_0011, 0xc000_0100, usize::MAX] {
        assert_eq!(Code::from(word), Code::Unknown(word));
        assert_eq!(usize::from(Code::from(word)), word);
    }
}

#[test]
fn unknown_with_a_named_word_decodes_to_the_name() {
    assert_eq!(usize::from(Code::Unknown(RMM_VERSION)), RMM_VERSION);
    assert_eq!(Code::from(usize::from(Code::Unknown(RMM_VERSION))), Code::Version);
    assert_ne!(Code::Unknown(RMM_VERSION), Code::Version);
}

#[test]
fn default_code_is_unknown_zero() {
    assert_eq!(Code::default(), Code::Unknown(0));
}

#[test]
fn codes_order_by_word() {
    let codes = interleaved();
    for a in &codes {
        for b in &codes {
            let (x, y) = (usize::from(*a), usize::from(*b));
            assert_eq!(a < b, x < y);
            assert_eq!(a <= b, x <= y);
            assert_eq!(a > b, x > y);
            assert_eq!(a >= b, x >= y);
            assert_eq!(a.partial_cmp(b), Some(x.cmp(&y)));
            assert_eq!(a.cmp(b), x.cmp(&y));
        }
    }
}

#[test]
fn named_and_unknown_codes_interleave() {
    assert!(Code::Unknown(0xbfff_ffff) < Code::Version);
    assert!(Code::Version < Code::GranuleDelegate);
    assert!(Code::GranuleDelegate < Code::GranuleUndelegate);
    assert!(Code::GranuleUndelegate < Code::Unknown(0xc000_0003));
    assert!(Code::Unknown(0xc000_000f) < Code::RequestComplete);
    assert!(Code::RequestComplete < Code::Unknown(0xc000_0011));
    assert!(Code::RequestComplete > Code::GranuleUndelegate);
    assert_eq!(Code::Unknown(RMM_VERSION).cmp(&Code::Version), Ordering::Equal);

    let mut shuffled = interleaved();
    shuffled.reverse();
    shuffled.sort_by(|a, b| a.cmp(b));
    assert_eq!(shuffled, interleaved());
}

#[test]
fn sender_takes_four_words_in_order() {
    let mut sender = Sender::new();
    assert_eq!(sender.len(), 0);
    for (n, word) in [11usize, 22, 33, 44].into_iter().enumerate() {
        assert_eq!(sender.push(word), Ok(()));
        assert_eq!(sender.len(), n + 1);
    }
    assert_eq!(sender.len(), CAPACITY);
    assert_eq!(sender.pop(), [11, 22, 33, 44]);
    assert_eq!(sender.len(), 0);
}

#[test]
fn fifth_push_fails_and_changes_nothing() {
    let mut sender = Sender::new();
    for word in [11usize, 22, 33, 44] {
        sender.push(word).unwrap();
    }
    let refused = sender.push(55);
    assert_eq!(refused, Err(Error::new(ErrorKind::StorageFull)));
    assert_eq!(refused.unwrap_err().kind(), ErrorKind::StorageFull);
    assert_eq!(sender.len(), 4);
    assert_eq!(sender.send(66).unwrap_err().kind(), ErrorKind::StorageFull);
    assert_eq!(sender.pop(), [11, 22, 33, 44]);
}

#[test]
fn pop_of_an_empty_sender_is_four_zeros() {
    let mut sender = Sender::new();
    assert_eq!(sender.pop(), [0, 0, 0, 0]);
    assert_eq!(sender.pop(), [0, 0, 0, 0]);
}

#[test]
fn pop_fills_with_zeros_and_resets() {
    let mut sender = Sender::new();
    sender.send(7).unwrap();
    sender.send(8).unwrap();
    assert_eq!(sender.pop(), [7, 8, 0, 0]);
    assert_eq!(sender.len(), 0);
    sender.push(9).unwrap();
    assert_eq!(sender.pop(), [9, 0, 0, 0]);
}

#[test]
fn outgoing_of_an_empty_receiver() {
    let mut receiver = Receiver::new();
    assert_eq!(receiver.outgoing(), [RMM_REQ_COMPLETE, 0, 0, 0, 0]);
}

#[test]
fn decode_names_the_opcode_and_keeps_the_arguments() {
    let call = Receiver::decode([RMM_GRANULE_DELEGATE, 7, 0, 0, 0]);
    assert_eq!(*call.code(), Code::GranuleDelegate);
    assert_eq!(*call.argument(), [7, 0, 0, 0]);

    let call = Receiver::decode([0x1234, 1, 2, 3, 4]);
    assert_eq!(*call.code(), Code::Unknown(0x1234));
    assert_eq!(*call.argument(), [1, 2, 3, 4]);

    let call = Call::new(Code::Version, [9, 8, 7, 6]);
    assert_eq!(*call.code(), Code::Version);
    assert_eq!(*call.argument(), [9, 8, 7, 6]);
}

#[test]
fn channel_hand_off() {
    let mut receiver = Receiver::new();

    let mut sent: Message = [usize::MAX; 5];
    let call = receiver
        .recv(|message| {
            sent = message;
            [RMM_GRANULE_DELEGATE, 7, 0, 0, 0]
        })
        .unwrap();
    assert_eq!(sent, [RMM_REQ_COMPLETE, 0, 0, 0, 0]);
    assert_eq!(*call.code(), Code::GranuleDelegate);
    assert_eq!(*call.argument(), [7, 0, 0, 0]);

    call.reply(&mut receiver.sender, 42).unwrap();

    let next = receiver
        .recv(|message| {
            sent = message;
            [RMM_VERSION, 0, 0, 0, 0]
        })
        .unwrap();
    assert_eq!(sent, [RMM_REQ_COMPLETE, 42, 0, 0, 0]);
    assert_eq!(*next.code(), Code::Version);

    receiver.recv(|message| {
        sent = message;
        [0; 5]
    })
    .unwrap();
    assert_eq!(sent, [RMM_REQ_COMPLETE, 0, 0, 0, 0]);
}

#[test]
fn replies_after_a_call_wait_for_the_next() {
    let mut receiver = Receiver::new();
    receiver.sender.push(1).unwrap();
    receiver.sender.push(2).unwrap();
    assert_eq!(receiver.outgoing(), [RMM_REQ_COMPLETE, 1, 2, 0, 0]);
    receiver.sender.push(3).unwrap();
    assert_eq!(receiver.outgoing(), [RMM_REQ_COMPLETE, 3, 0, 0, 0]);
    assert_eq!(receiver.outgoing(), [RMM_REQ_COMPLETE, 0, 0, 0, 0]);
}

#[test]
fn a_call_takes_at_most_four_reply_words() {
    let mut receiver = Receiver::new();
    let call = Receiver::decode([RMM_GRANULE_UNDELEGATE, 0, 0, 0, 0]);
    for word in 1..=4 {
        call.reply(&mut receiver.sender, word).unwrap();
    }
    assert_eq!(call.reply(&mut receiver.sender, 5).unwrap_err().kind(), ErrorKind::StorageFull);
    assert_eq!(receiver.outgoing(), [RMM_REQ_COMPLETE, 1, 2, 3, 4]);
}
