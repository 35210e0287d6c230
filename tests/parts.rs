use artiq_session::cache::Cache;
use artiq_session::error::{ErrorKind, SessionError};
use artiq_session::interner::Interner;
use artiq_session::io_error;
use artiq_session::logbuf::LogBuffer;
use artiq_session::magic::{check_magic, magic};
use artiq_session::watchdog::{WatchdogSet, MAX_WATCHDOGS};
use artiq_session::worker::queued_rpc_payload;

#[test]
fn magic_accepts_exact_preamble() {
    assert_eq!(check_magic(b"ARTIQ coredev\n"), Ok(()));
    assert_eq!(magic(), b"ARTIQ coredev\n".to_vec());
}

#[test]
fn magic_rejects_anything_else() {
    assert_eq!(check_magic(b"ARTIQ coredev\r"), Err(SessionError::UnrecognizedMagic));
    assert_eq!(check_magic(b"artiq coredev\n"), Err(SessionError::UnrecognizedMagic));
    assert_eq!(check_magic(b"ARTIQ coredev"), Err(SessionError::UnrecognizedMagic));
    assert_eq!(check_magic(b"ARTIQ coredev\n\n"), Err(SessionError::UnrecognizedMagic));
    assert_eq!(check_magic(&[0u8; 14]), Err(SessionError::UnrecognizedMagic));
    assert_eq!(check_magic(b""), Err(SessionError::UnrecognizedMagic));
}

#[test]
fn watchdogs_take_lowest_free_id() {
    let mut set = WatchdogSet::new();
    assert_eq!(set.set_ms(100, 10), Ok(0));
    assert_eq!(set.set_ms(100, 50), Ok(1));
    set.clear(0);
    assert_eq!(set.set_ms(200, 5), Ok(0));
    set.clear(MAX_WATCHDOGS + 3);
    assert_eq!(set.set_ms(0, 1), Ok(2));
}

#[test]
fn watchdog_expires_strictly_after_deadline() {
    let mut set = WatchdogSet::new();
    assert!(!set.expired(1000));
    assert_eq!(set.set_ms(0, 10), Ok(0));
    assert!(!set.expired(10));
    assert!(set.expired(11));
    set.clear(0);
    assert!(!set.expired(11));
}

#[test]
fn watchdog_deadline_saturates() {
    let mut set = WatchdogSet::new();
    assert_eq!(set.set_ms(u64::MAX - 1, 10), Ok(0));
    assert!(!set.expired(u64::MAX));
}

#[test]
fn watchdog_set_runs_out() {
    let mut set = WatchdogSet::new();
    for i in 0..MAX_WATCHDOGS {
        assert_eq!(set.set_ms(0, 100), Ok(i));
    }
    assert_eq!(set.set_ms(0, 100), Err(()));
    set.clear(7);
    assert_eq!(set.set_ms(0, 100), Ok(7));
}

#[test]
fn cache_get_of_missing_key_is_empty() {
    let mut cache = Cache::new();
    assert_eq!(cache.get(b"k"), None);
}

#[test]
fn cache_put_then_get() {
    let mut cache = Cache::new();
    assert_eq!(cache.put(b"a", &[1, -2, 3]), Ok(()));
    assert_eq!(cache.put(b"b", &[4]), Ok(()));
    let i = cache.get(b"a").unwrap();
    assert_eq!(cache.value(i), &[1, -2, 3]);
    let j = cache.get(b"b").unwrap();
    assert_eq!(cache.value(j), &[4]);
}

#[test]
fn cache_refuses_put_on_borrowed_cell() {
    let mut cache = Cache::new();
    assert_eq!(cache.put(b"a", &[1]), Ok(()));
    assert_eq!(cache.put(b"a", &[2]), Ok(()));
    let i = cache.get(b"a").unwrap();
    assert_eq!(cache.put(b"a", &[3]), Err(()));
    assert_eq!(cache.value(i), &[2]);
    assert_eq!(cache.put(b"other", &[5]), Ok(()));
    cache.unborrow();
    assert_eq!(cache.put(b"a", &[3]), Ok(()));
    let i = cache.get(b"a").unwrap();
    assert_eq!(cache.value(i), &[3]);
}

#[test]
fn log_buffer_flushes_whole_lines() {
    let mut buf = LogBuffer::new();
    assert!(buf.append(b"ab").is_empty());
    let lines = buf.append(b"c\r\nd\n");
    assert_eq!(lines, vec![b"abc".to_vec(), b"d".to_vec()]);
    assert!(buf.append(b"").is_empty());
}

#[test]
fn log_buffer_keeps_empty_lines_and_lone_carriage_returns() {
    let mut buf = LogBuffer::new();
    let lines = buf.append(b"\n\nx\ry\n");
    assert_eq!(lines, vec![b"".to_vec(), b"".to_vec(), b"x\ry".to_vec()]);
}

#[test]
fn log_buffer_empty_append_does_not_flush() {
    let mut buf = LogBuffer::new();
    assert!(buf.append(b"").is_empty());
    assert!(buf.flush().is_empty());
}

#[test]
fn interner_returns_nul_terminated_copies() {
    let mut interner = Interner::new();
    let a = interner.into_c_str(b"ValueError");
    let b = interner.into_c_str(b"bad");
    let c = interner.into_c_str(b"ValueError");
    assert_eq!(a, c);
    assert_ne!(a, b);
    assert_eq!(interner.entry(a), b"ValueError\0");
    assert_eq!(interner.entry(b), b"bad\0");
}

#[test]
fn queued_rpc_payload_reads_length_prefix() {
    let entry = [0u8, 0, 0, 2, 9, 8, 7];
    assert_eq!(queued_rpc_payload(&entry), Ok(&[9u8, 8][..]));
    let empty = [0u8, 0, 0, 0];
    assert_eq!(queued_rpc_payload(&empty), Ok(&[][..]));
}

#[test]
fn queued_rpc_payload_big_endian_length() {
    let mut entry = vec![0u8, 0, 1, 0];
    entry.extend(std::iter::repeat(5u8).take(256));
    assert_eq!(queued_rpc_payload(&entry).map(|p| p.len()), Ok(256));
    entry.pop();
    assert_eq!(queued_rpc_payload(&entry), Err(SessionError::TruncatedQueuedRpc));
}

#[test]
fn queued_rpc_payload_refuses_short_entries() {
    assert_eq!(queued_rpc_payload(&[0, 0, 0]), Err(SessionError::TruncatedQueuedRpc));
    assert_eq!(queued_rpc_payload(&[0, 0, 0, 3, 1]), Err(SessionError::TruncatedQueuedRpc));
}

#[test]
fn io_error_carries_message() {
    let e = io_error("out of watchdogs");
    assert_eq!(e, SessionError::Other("out of watchdogs".to_string()));
    assert_eq!(e.kind(), ErrorKind::Other);
    assert_eq!(SessionError::Protocol.kind(), ErrorKind::InvalidData);
    assert_eq!(SessionError::NotFound.kind(), ErrorKind::NotFound);
    assert_eq!(SessionError::UnexpectedEof.kind(), ErrorKind::UnexpectedEof);
}
