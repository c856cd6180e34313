use bytes::Bytes;
use nitai::body::{BodyAccess, BodySlot};
use nitai::Error;

fn hello_slot() -> BodySlot<Vec<u8>> {
    BodySlot::new(b"hello".to_vec())
}

/// Drains a stream handed out for a buffered read and hands the bytes back.
fn read_buffered(slot: &mut BodySlot<Vec<u8>>, drains: &mut usize) -> Result<Bytes, Error> {
    match slot.begin(false)? {
        BodyAccess::Buffered(b) => Ok(b),
        BodyAccess::Drain(stream) => {
            *drains += 1;
            slot.finish_drain(Ok(Bytes::from(stream)))
        }
        BodyAccess::Stream(_) => panic!("a buffered read handed out the stream"),
    }
}

#[test]
fn text_then_bytes_reuse_the_buffer() {
    let mut slot = hello_slot();
    let mut drains = 0;
    let text = read_buffered(&mut slot, &mut drains).unwrap();
    assert_eq!(String::from_utf8(text.to_vec()).unwrap(), "hello");
    let bytes = read_buffered(&mut slot, &mut drains).unwrap();
    assert_eq!(&bytes[..], b"hello");
    assert_eq!(drains, 1);
}

#[test]
fn repeated_buffered_reads_are_identical() {
    let mut slot = hello_slot();
    let mut drains = 0;
    let first = read_buffered(&mut slot, &mut drains).unwrap();
    for _ in 0..5 {
        let again = read_buffered(&mut slot, &mut drains).unwrap();
        assert_eq!(again, first);
    }
    assert_eq!(drains, 1);
}

#[test]
fn stream_drains_once_then_text_fails() {
    let mut slot = hello_slot();
    match slot.begin(true) {
        Ok(BodyAccess::Stream(s)) => assert_eq!(s, b"hello".to_vec()),
        _ => panic!("expected the stream"),
    }
    let mut drains = 0;
    assert_eq!(read_buffered(&mut slot, &mut drains), Err(Error::Memory));
    assert!(matches!(slot.begin(true), Err(Error::Memory)));
    assert_eq!(drains, 0);
}

#[test]
fn stream_after_buffering_gives_the_buffer() {
    let mut slot = hello_slot();
    let mut drains = 0;
    read_buffered(&mut slot, &mut drains).unwrap();
    match slot.begin(true) {
        Ok(BodyAccess::Buffered(b)) => assert_eq!(&b[..], b"hello"),
        _ => panic!("expected the buffer"),
    }
}

#[test]
fn close_then_any_access_fails() {
    let mut slot = hello_slot();
    slot.close();
    slot.close();
    assert!(matches!(slot.begin(false), Err(Error::Memory)));
    assert!(matches!(slot.begin(true), Err(Error::Memory)));
    slot.close();
    assert!(matches!(slot.begin(false), Err(Error::Memory)));
}

#[test]
fn close_after_buffering_drops_the_buffer() {
    let mut slot: BodySlot<Vec<u8>> = BodySlot::buffered(Bytes::from_static(b"abc"));
    assert!(matches!(slot.begin(false), Ok(BodyAccess::Buffered(_))));
    slot.close();
    assert!(matches!(slot.begin(false), Err(Error::Memory)));
}

#[test]
fn failed_drain_leaves_the_slot_empty() {
    let mut slot = hello_slot();
    assert!(matches!(slot.begin(false), Ok(BodyAccess::Drain(_))));
    let failed = slot.finish_drain(Err(Error::Library("reset".to_string())));
    assert_eq!(failed, Err(Error::Library("reset".to_string())));
    assert!(matches!(slot.begin(false), Err(Error::Memory)));
}

#[test]
fn empty_body_is_buffered_once() {
    let mut slot: BodySlot<Vec<u8>> = BodySlot::new(Vec::new());
    let mut drains = 0;
    assert_eq!(read_buffered(&mut slot, &mut drains).unwrap().len(), 0);
    assert_eq!(read_buffered(&mut slot, &mut drains).unwrap().len(), 0);
    assert_eq!(drains, 1);
}
