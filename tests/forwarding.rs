use pty_transform::{
    add_flags, event_for, Action, Direction, Event, EventHandler, Forwarder, ReadOutcome, Readiness,
};

struct Identity;

impl EventHandler for Identity {
    fn handle<'a>(&mut self, event: Event<'a>) -> Option<&'a [u8]> {
        match event {
            Event::Input(slice) | Event::Output(slice) => Some(slice),
        }
    }
}

struct SwapAB;

impl EventHandler for SwapAB {
    fn handle<'a>(&mut self, event: Event<'a>) -> Option<&'a [u8]> {
        match event {
            Event::Input(slice) => {
                for byte in slice.iter_mut() {
                    if *byte == b'a' {
                        *byte = b'b';
                    } else if *byte == b'b' {
                        *byte = b'a';
                    }
                }
                Some(slice)
            }
            Event::Output(slice) => Some(slice),
        }
    }
}

struct MuteInput;

impl EventHandler for MuteInput {
    fn handle<'a>(&mut self, event: Event<'a>) -> Option<&'a [u8]> {
        match event {
            Event::Input(_) => None,
            Event::Output(slice) => Some(slice),
        }
    }
}

/// Forwards only the first two bytes of each chunk.
struct FirstTwo;

impl EventHandler for FirstTwo {
    fn handle<'a>(&mut self, event: Event<'a>) -> Option<&'a [u8]> {
        match event {
            Event::Input(slice) | Event::Output(slice) => {
                let n = slice.len().min(2);
                Some(&slice[..n])
            }
        }
    }
}

/// Answers every chunk with an empty forward.
struct Empty;

impl EventHandler for Empty {
    fn handle<'a>(&mut self, _event: Event<'a>) -> Option<&'a [u8]> {
        Some(&[])
    }
}

/// A session that has saved the mode `7` and is waiting for readiness.
fn waiting() -> Forwarder<u32> {
    let mut f = Forwarder::new();
    assert_eq!(f.action(), Action::SaveMode);
    f.on_mode_saved(Ok(7));
    assert_eq!(f.action(), Action::EnterRawMode);
    f.on_raw_mode(Ok(()));
    assert_eq!(f.action(), Action::Wait);
    f
}

/// Feeds `bytes` as one read and completes every write in one go; returns what
/// was written, if anything.
fn feed<H: EventHandler>(f: &mut Forwarder<u32>, h: &mut H, bytes: &[u8]) -> Option<Vec<u8>> {
    let mut buf = bytes.to_vec();
    f.on_read(h, ReadOutcome::Data(&mut buf[..]));
    match f.action() {
        Action::Write(_) => {
            let out = f.pending().to_vec();
            f.on_written(Ok(out.len()));
            Some(out)
        }
        _ => None,
    }
}

#[test]
fn identity_input_reaches_child_and_output_comes_back() {
    let mut f = waiting();
    let mut h = Identity;
    f.on_wait(Ok(Readiness { input: true, pty: false }));
    assert_eq!(f.action(), Action::Read(Direction::Input));
    let mut buf = b"echo hi\n".to_vec();
    f.on_read(&mut h, ReadOutcome::Data(&mut buf[..]));
    assert_eq!(f.action(), Action::Write(Direction::Input));
    assert_eq!(f.pending(), b"echo hi\n");
    f.on_written(Ok(8));
    assert_eq!(f.action(), Action::Read(Direction::Input));
    f.on_read(&mut h, ReadOutcome::WouldBlock);
    assert_eq!(f.action(), Action::Wait);

    f.on_wait(Ok(Readiness { input: false, pty: true }));
    assert_eq!(f.action(), Action::Read(Direction::Output));
    let out = feed(&mut f, &mut h, b"echo hi\nhi\n").unwrap();
    assert_eq!(f.action(), Action::Read(Direction::Output));
    assert!(out.windows(3).any(|w| w == b"hi\n"));
}

#[test]
fn swap_transform_rewrites_input_only() {
    let mut f = waiting();
    let mut h = SwapAB;
    f.on_wait(Ok(Readiness { input: true, pty: false }));
    let to_child = feed(&mut f, &mut h, b"cab\n").unwrap();
    assert_eq!(to_child, b"cba\n".to_vec());
    f.on_read(&mut h, ReadOutcome::WouldBlock);
    f.on_wait(Ok(Readiness { input: false, pty: true }));
    let to_external = feed(&mut f, &mut h, b"cab\n").unwrap();
    assert_eq!(to_external, b"cab\n".to_vec());
}

#[test]
fn split_reads_join_into_one_stream() {
    let mut f = waiting();
    let mut h = Identity;
    f.on_wait(Ok(Readiness { input: true, pty: false }));
    let mut to_child = feed(&mut f, &mut h, b"he").unwrap();
    f.on_read(&mut h, ReadOutcome::WouldBlock);
    f.on_wait(Ok(Readiness { input: true, pty: false }));
    to_child.extend(feed(&mut f, &mut h, b"llo\n").unwrap());
    assert_eq!(to_child, b"hello\n".to_vec());
}

#[test]
fn muted_input_never_reaches_child_while_output_flows() {
    let mut f = waiting();
    let mut h = MuteInput;
    f.on_wait(Ok(Readiness { input: true, pty: true }));
    assert_eq!(feed(&mut f, &mut h, b"ls\n"), None);
    assert_eq!(f.action(), Action::Read(Direction::Input));
    f.on_read(&mut h, ReadOutcome::WouldBlock);
    assert_eq!(f.action(), Action::Read(Direction::Output));
    assert_eq!(feed(&mut f, &mut h, b"$ "), Some(b"$ ".to_vec()));
}

#[test]
fn input_is_served_before_pty_master() {
    let mut f = waiting();
    let mut h = Identity;
    f.on_wait(Ok(Readiness { input: true, pty: true }));
    assert_eq!(f.action(), Action::Read(Direction::Input));
    feed(&mut f, &mut h, b"x");
    assert_eq!(f.action(), Action::Read(Direction::Input));
    f.on_read(&mut h, ReadOutcome::WouldBlock);
    assert_eq!(f.action(), Action::Read(Direction::Output));
    f.on_read(&mut h, ReadOutcome::WouldBlock);
    assert_eq!(f.action(), Action::Wait);
}

#[test]
fn empty_readiness_waits_again() {
    let mut f = waiting();
    f.on_wait(Ok(Readiness { input: false, pty: false }));
    assert_eq!(f.action(), Action::Wait);
}

#[test]
fn narrowed_forward_sends_only_the_narrowed_bytes() {
    let mut f = waiting();
    let mut h = FirstTwo;
    f.on_wait(Ok(Readiness { input: true, pty: false }));
    assert_eq!(feed(&mut f, &mut h, b"abcdef"), Some(b"ab".to_vec()));
}

#[test]
fn empty_forward_goes_on_reading() {
    let mut f = waiting();
    let mut h = Empty;
    f.on_wait(Ok(Readiness { input: false, pty: true }));
    assert_eq!(feed(&mut f, &mut h, b"abc"), None);
    assert_eq!(f.action(), Action::Read(Direction::Output));
}

#[test]
fn short_writes_continue_with_the_rest() {
    let mut f = waiting();
    let mut h = Identity;
    f.on_wait(Ok(Readiness { input: true, pty: false }));
    let mut buf = b"hello".to_vec();
    f.on_read(&mut h, ReadOutcome::Data(&mut buf[..]));
    f.on_written(Ok(2));
    assert_eq!(f.action(), Action::Write(Direction::Input));
    assert_eq!(f.pending(), b"llo");
    f.on_written(Ok(0));
    assert_eq!(f.pending(), b"llo");
    f.on_written(Ok(3));
    assert_eq!(f.action(), Action::Read(Direction::Input));
}

#[test]
fn failed_write_is_fatal_and_restores_mode() {
    let mut f = waiting();
    let mut h = Identity;
    f.on_wait(Ok(Readiness { input: true, pty: false }));
    let mut buf = b"hello".to_vec();
    f.on_read(&mut h, ReadOutcome::Data(&mut buf[..]));
    f.on_written(Ok(1));
    f.on_written(Err(11));
    assert_eq!(f.action(), Action::RestoreMode);
    assert_eq!(f.saved_mode(), &Some(7));
    f.on_restored(Ok(()));
    assert_eq!(f.action(), Action::Finished);
    assert_eq!(f.outcome(), Err(11));
}

#[test]
fn device_gone_ends_cleanly_with_mode_restored() {
    let mut f = waiting();
    let mut h = Identity;
    f.on_wait(Ok(Readiness { input: false, pty: true }));
    f.on_read(&mut h, ReadOutcome::DeviceGone);
    assert_eq!(f.action(), Action::RestoreMode);
    assert_eq!(f.saved_mode(), &Some(7));
    f.on_restored(Ok(()));
    assert_eq!(f.action(), Action::Finished);
    assert_eq!(f.outcome(), Ok(()));
}

#[test]
fn end_of_file_ends_cleanly() {
    let mut f = waiting();
    let mut h = Identity;
    f.on_wait(Ok(Readiness { input: true, pty: true }));
    let mut buf: Vec<u8> = Vec::new();
    f.on_read(&mut h, ReadOutcome::Data(&mut buf[..]));
    assert_eq!(f.action(), Action::RestoreMode);
    f.on_restored(Ok(()));
    assert_eq!(f.outcome(), Ok(()));
}

#[test]
fn failed_read_is_fatal() {
    let mut f = waiting();
    let mut h = Identity;
    f.on_wait(Ok(Readiness { input: true, pty: false }));
    f.on_read(&mut h, ReadOutcome::Failed(9));
    assert_eq!(f.action(), Action::RestoreMode);
    f.on_restored(Ok(()));
    assert_eq!(f.outcome(), Err(9));
}

#[test]
fn failed_wait_is_fatal() {
    let mut f = waiting();
    f.on_wait(Err(4));
    assert_eq!(f.action(), Action::RestoreMode);
    f.on_restored(Ok(()));
    assert_eq!(f.outcome(), Err(4));
}

#[test]
fn failed_save_ends_before_raw_mode() {
    let mut f: Forwarder<u32> = Forwarder::new();
    f.on_mode_saved(Err(25));
    assert_eq!(f.action(), Action::Finished);
    assert_eq!(f.saved_mode(), &None);
    assert_eq!(f.outcome(), Err(25));
}

#[test]
fn failed_raw_mode_still_restores() {
    let mut f: Forwarder<u32> = Forwarder::new();
    f.on_mode_saved(Ok(3));
    f.on_raw_mode(Err(5));
    assert_eq!(f.action(), Action::RestoreMode);
    assert_eq!(f.saved_mode(), &Some(3));
    f.on_restored(Ok(()));
    assert_eq!(f.outcome(), Err(5));
}

#[test]
fn failed_restore_keeps_the_first_error() {
    let mut f = waiting();
    f.on_wait(Err(4));
    f.on_restored(Err(5));
    assert_eq!(f.action(), Action::Finished);
    assert_eq!(f.outcome(), Err(4));
}

#[test]
fn failed_restore_after_clean_end_is_the_result() {
    let mut f = waiting();
    let mut h = Identity;
    f.on_wait(Ok(Readiness { input: true, pty: false }));
    f.on_read(&mut h, ReadOutcome::DeviceGone);
    f.on_restored(Err(5));
    assert_eq!(f.outcome(), Err(5));
}

#[test]
fn add_flags_keeps_existing_bits() {
    assert_eq!(add_flags(0o2, 0o4000), 0o4002);
    assert_eq!(add_flags(0o4002, 0o4000), 0o4002);
    assert_eq!(add_flags(0, 0o4000), 0o4000);
    assert_eq!(add_flags(-1, 0o4000), -1);
}

#[test]
fn transform_answer_becomes_the_pending_write() {
    let mut f = waiting();
    f.on_wait(Ok(Readiness { input: false, pty: true }));
    f.on_transformed(b"raw", Some(b"cooked"));
    assert_eq!(f.action(), Action::Write(Direction::Output));
    assert_eq!(f.pending(), b"cooked");
    f.on_written(Ok(6));
    assert_eq!(f.action(), Action::Read(Direction::Output));
    f.on_transformed(b"raw", None);
    assert_eq!(f.action(), Action::Read(Direction::Output));
}

/// Passes chunks through and remembers each one it was handed, with its tag.
struct Recorder {
    seen: Vec<(Direction, Vec<u8>)>,
}

impl EventHandler for Recorder {
    fn handle<'a>(&mut self, event: Event<'a>) -> Option<&'a [u8]> {
        match event {
            Event::Input(slice) => {
                self.seen.push((Direction::Input, slice.to_vec()));
                Some(slice)
            }
            Event::Output(slice) => {
                self.seen.push((Direction::Output, slice.to_vec()));
                Some(slice)
            }
        }
    }
}

#[test]
fn event_for_tags_the_chunk_by_direction() {
    let mut buf = b"ab".to_vec();
    match event_for(Direction::Input, &mut buf[..]) {
        Event::Input(s) => assert_eq!(s, b"ab"),
        Event::Output(_) => panic!("input chunk tagged as output"),
    }
    match event_for(Direction::Output, &mut buf[..]) {
        Event::Output(s) => assert_eq!(s, b"ab"),
        Event::Input(_) => panic!("output chunk tagged as input"),
    }
}

#[test]
fn transform_sees_each_read_once_with_its_tag() {
    let mut f = waiting();
    let mut h = Recorder { seen: Vec::new() };
    f.on_wait(Ok(Readiness { input: true, pty: true }));
    let mut to_child = feed(&mut f, &mut h, b"he").unwrap();
    f.on_read(&mut h, ReadOutcome::WouldBlock);
    assert_eq!(feed(&mut f, &mut h, b"$ "), Some(b"$ ".to_vec()));
    f.on_read(&mut h, ReadOutcome::WouldBlock);
    f.on_wait(Ok(Readiness { input: true, pty: false }));
    to_child.extend(feed(&mut f, &mut h, b"llo\n").unwrap());
    assert_eq!(to_child, b"hello\n".to_vec());
    assert_eq!(
        h.seen,
        vec![
            (Direction::Input, b"he".to_vec()),
            (Direction::Output, b"$ ".to_vec()),
            (Direction::Input, b"llo\n".to_vec()),
        ]
    );
}
