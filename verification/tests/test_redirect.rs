//! The library on the running system, with the calls made through
//! `filedescriptor`. The driver here has pipes only: it cannot open a file,
//! so every store ends up as a pipe.

use filedescriptor::{poll, pollfd, FileDescriptor, IntoRawFileDescriptor, Pipe, StdioDescriptor, POLLIN};
use gag::buffer::{Buffer, BufferRedirect};
use gag::guard::Failure;
use gag::hold::Hold;
use gag::os::{OsError, Reply, Request};
use gag::redirect::{AsRawFile, Redirect};
use gag::registry::RedirectionRegistry;
use gag::store::Platform;
use gag::stream::StreamId;
use std::io::{Read, Write};
use std::time::Duration;

struct Os {
    buffer: Vec<u8>,
    asked: Vec<Request>,
}

fn stdio(stream: StreamId) -> StdioDescriptor {
    match stream {
        StreamId::Stdout => StdioDescriptor::Stdout,
        StreamId::Stderr => StdioDescriptor::Stderr,
    }
}

fn refused() -> Reply {
    Reply::Failed(OsError { code: 38 })
}

fn readable(handle: i32) -> bool {
    let mut fds = [pollfd { fd: handle, events: POLLIN, revents: 0 }];
    match poll(&mut fds, Some(Duration::from_millis(0))) {
        Ok(_) => fds[0].revents & POLLIN != 0,
        Err(_) => false,
    }
}

impl Os {
    fn new() -> Os {
        Os { buffer: Vec::new(), asked: Vec::new() }
    }

    fn perform(&mut self, request: Request) -> Reply {
        self.asked.push(request);
        match request {
            Request::Duplicate { stream } => match FileDescriptor::dup(&stream.descriptor()) {
                Ok(backup) => Reply::Handle(backup.into_raw_file_descriptor() as i64),
                Err(_) => refused(),
            },
            Request::Install { stream, target } => {
                match FileDescriptor::redirect_stdio(&(target as i32), stdio(stream)) {
                    Ok(_) => Reply::Done,
                    Err(_) => refused(),
                }
            }
            Request::Close { handle } => {
                drop(FileDescriptor::new(handle as i32));
                Reply::Done
            }
            Request::CreatePipe => match Pipe::new() {
                Ok(pipe) => Reply::Pair {
                    read: pipe.read.into_raw_file_descriptor() as i64,
                    write: pipe.write.into_raw_file_descriptor() as i64,
                },
                Err(_) => refused(),
            },
            Request::Peek { handle } => Reply::Count(if readable(handle as i32) { 1 } else { 0 }),
            Request::Read { handle, limit } => {
                let mut file = FileDescriptor::new(handle as i32);
                self.buffer.resize(limit as usize, 0);
                let outcome = file.read(&mut self.buffer);
                let _ = file.into_raw_file_descriptor();
                match outcome {
                    Ok(count) => Reply::Count(count as u32),
                    Err(_) => refused(),
                }
            }
            Request::Write { stream, len } => {
                let mut file = FileDescriptor::new(stream.descriptor());
                let outcome = file.write_all(&self.buffer[..len as usize]);
                let _ = file.into_raw_file_descriptor();
                match outcome {
                    Ok(()) => Reply::Done,
                    Err(_) => refused(),
                }
            }
            Request::Flush { .. } => Reply::Done,
            Request::RemoveDirectory => Reply::Done,
            Request::OpenMemoryFile
            | Request::Reopen { .. }
            | Request::CreateDirectory
            | Request::CreateFile
            | Request::OpenFile
            | Request::OpenNull => refused(),
        }
    }
}

fn drive<M>(
    os: &mut Os,
    machine: M,
    request: impl Fn(&M) -> Option<Request>,
    mut advance: impl FnMut(M, Reply) -> M,
) -> M {
    let mut machine = machine;
    while let Some(asked) = request(&machine) {
        let reply = os.perform(asked);
        assert!(asked.admits(&reply));
        machine = advance(machine, reply);
    }
    machine
}

fn buffer_stderr(os: &mut Os, registry: &mut RedirectionRegistry) -> Result<BufferRedirect, Failure> {
    let ended = drive(
        os,
        BufferRedirect::stderr(Platform::Linux),
        |m| m.request(),
        |m, reply| m.advance(registry, reply),
    );
    ended.finish().ok().unwrap()
}

fn hold(os: &mut Os, registry: &mut RedirectionRegistry, stream: StreamId) -> Result<Hold, Failure> {
    let start = match stream {
        StreamId::Stdout => Hold::stdout(Platform::Linux),
        StreamId::Stderr => Hold::stderr(Platform::Linux),
    };
    let ended = drive(os, start, |m| m.request(), |m, reply| m.advance(registry, reply));
    ended.finish().ok().unwrap()
}

fn release(os: &mut Os, registry: &mut RedirectionRegistry, hold: Hold) {
    drive(os, hold.release(), |m| m.request(), |m, reply| m.advance(registry, reply));
}

fn read_to_end(os: &mut Os, capture: &BufferRedirect) -> Vec<u8> {
    let mut all: Vec<u8> = Vec::new();
    loop {
        let read = drive(os, capture.read(8192), |m| m.request(), |m, reply| m.advance(reply));
        let count = read.finish().ok().unwrap().unwrap();
        if count == 0 {
            return all;
        }
        all.extend_from_slice(&os.buffer[..count]);
    }
}

fn read_buffer_to_end(os: &mut Os, buffer: &Buffer) -> Vec<u8> {
    let mut all: Vec<u8> = Vec::new();
    loop {
        let read = drive(os, buffer.read(8192), |m| m.request(), |m, reply| m.advance(reply));
        let count = read.finish().ok().unwrap().unwrap();
        if count == 0 {
            return all;
        }
        all.extend_from_slice(&os.buffer[..count]);
    }
}

fn extract(os: &mut Os, registry: &mut RedirectionRegistry, capture: BufferRedirect) -> Buffer {
    let (buffer, retire) = capture.into_inner();
    drive(os, retire, |m| m.request(), |m, reply| m.advance(registry, reply));
    buffer
}

fn print(stream: StreamId, bytes: &[u8]) {
    match stream {
        StreamId::Stdout => {
            let mut out = std::io::stdout();
            out.write_all(bytes).unwrap();
            out.flush().unwrap();
        }
        StreamId::Stderr => {
            let mut err = std::io::stderr();
            err.write_all(bytes).unwrap();
            err.flush().unwrap();
        }
    }
}

/// Puts a pipe in the place of a stream, so that the test can see what
/// reaches the stream; `unwatch` puts the stream back and returns what the
/// pipe has seen.
struct Watch {
    stream: StreamId,
    saved: FileDescriptor,
    seen: FileDescriptor,
}

fn watch(stream: StreamId) -> Watch {
    let pipe = Pipe::new().unwrap();
    let saved = FileDescriptor::redirect_stdio(&pipe.write, stdio(stream)).unwrap();
    Watch { stream, saved, seen: pipe.read }
}

fn unwatch(watch: Watch) -> Vec<u8> {
    let Watch { stream, saved, mut seen } = watch;
    drop(FileDescriptor::redirect_stdio(&saved, stdio(stream)).unwrap());
    let mut all: Vec<u8> = Vec::new();
    seen.read_to_end(&mut all).unwrap();
    all
}

#[derive(Debug)]
struct Sink {
    end: FileDescriptor,
}

impl AsRawFile for Sink {
    fn raw_file(&self) -> i64 {
        self.as_raw_file()
    }

    fn as_raw_file(&self) -> i64 {
        filedescriptor::AsRawFileDescriptor::as_raw_file_descriptor(&self.end) as i64
    }
}

#[test]
fn test_buffer_stderr() {
    let mut os = Os::new();
    let mut registry = RedirectionRegistry::new();

    let buf = buffer_stderr(&mut os, &mut registry).unwrap();
    println!("Don't capture");
    ::std::io::stderr().write_all(b"Hello world!\n").unwrap();

    let output = String::from_utf8(read_to_end(&mut os, &buf)).unwrap();

    assert_eq!(&output[..], "Hello world!\n");

    let buffer = extract(&mut os, &mut registry, buf);
    os.perform(buffer.close());
}

#[test]
fn test_gag_stderr_twice() {
    let mut os = Os::new();
    let mut registry = RedirectionRegistry::new();

    let hold = hold(&mut os, &mut registry, StreamId::Stderr);
    let hold2 = self::hold(&mut os, &mut registry, StreamId::Stderr);
    assert!(hold.is_ok());
    assert!(hold2.is_err());

    assert_eq!(hold2.unwrap_err(), Failure::AlreadyRedirected);
    release(&mut os, &mut registry, hold.unwrap());
    assert!(!registry.is_claimed(StreamId::Stderr));
}

#[test]
fn store_falls_back_to_a_pipe_on_this_driver() {
    let mut os = Os::new();
    let mut registry = RedirectionRegistry::new();
    let capture = buffer_stderr(&mut os, &mut registry).unwrap();
    assert_eq!(
        os.asked[..3].to_vec(),
        vec![Request::OpenMemoryFile, Request::CreateDirectory, Request::CreatePipe]
    );
    assert_eq!(os.asked[3], Request::Duplicate { stream: StreamId::Stderr });
    assert_eq!(os.asked.len(), 5);
    assert_eq!(capture.read(1).request().map(|r| matches!(r, Request::Peek { .. })), Some(true));
    let buffer = extract(&mut os, &mut registry, capture);
    os.perform(buffer.close());
}

#[test]
fn captured_bytes_come_back_in_order() {
    let mut os = Os::new();
    let mut registry = RedirectionRegistry::new();
    let capture = buffer_stderr(&mut os, &mut registry).unwrap();
    assert_eq!(read_to_end(&mut os, &capture), Vec::<u8>::new());
    let mut written: Vec<u8> = Vec::new();
    let mut read: Vec<u8> = Vec::new();
    for round in 0..12usize {
        let part: Vec<u8> = (0..30000usize).map(|at| ((at + round) * 31 % 251) as u8).collect();
        print(StreamId::Stderr, &part);
        written.extend_from_slice(&part);
        read.extend(read_to_end(&mut os, &capture));
    }
    let buffer = extract(&mut os, &mut registry, capture);
    os.perform(buffer.close());
    assert_eq!(read.len(), 360000);
    assert!(read == written);
}

#[test]
fn extraction_stops_the_capture_of_stderr() {
    let seen = watch(StreamId::Stderr);
    let mut os = Os::new();
    let mut registry = RedirectionRegistry::new();
    let capture = buffer_stderr(&mut os, &mut registry).unwrap();
    print(StreamId::Stderr, b"before");
    let buffer = extract(&mut os, &mut registry, capture);
    print(StreamId::Stderr, b"after");
    let captured = read_buffer_to_end(&mut os, &buffer);
    os.perform(buffer.close());
    let shown = unwatch(seen);
    assert_eq!(captured, b"before".to_vec());
    assert_eq!(shown, b"after".to_vec());
    assert!(!registry.is_claimed(StreamId::Stderr));
}

#[test]
fn held_stdout_is_printed_on_release() {
    let seen = watch(StreamId::Stdout);
    let mut os = Os::new();
    let mut registry = RedirectionRegistry::new();
    let held = hold(&mut os, &mut registry, StreamId::Stdout).unwrap();
    print(StreamId::Stdout, b"first\n");
    print(StreamId::Stdout, b"second\n");
    let escaped = readable(filedescriptor::AsRawFileDescriptor::as_raw_file_descriptor(&seen.seen));
    release(&mut os, &mut registry, held);
    let shown = unwatch(seen);
    assert!(!escaped);
    assert_eq!(shown, b"first\nsecond\n".to_vec());
}

#[test]
fn redirected_stdout_is_back_after_release() {
    let seen = watch(StreamId::Stdout);
    let mut os = Os::new();
    let mut registry = RedirectionRegistry::new();
    let sink = Pipe::new().unwrap();
    let mut swallowed = sink.read;
    let attempt = drive(
        &mut os,
        Redirect::stdout(Sink { end: sink.write }),
        |m| m.request(),
        |m, reply| m.advance(&mut registry, reply),
    );
    let redirect = attempt.finish().ok().unwrap().unwrap();
    print(StreamId::Stdout, b"X");
    let (sink, release) = redirect.into_inner();
    drive(&mut os, release, |m| m.request(), |m, reply| m.advance(&mut registry, reply));
    print(StreamId::Stdout, b"Y");
    let shown = unwatch(seen);
    drop(sink);
    let mut hidden: Vec<u8> = Vec::new();
    swallowed.read_to_end(&mut hidden).unwrap();
    assert_eq!(shown, b"Y".to_vec());
    assert_eq!(hidden, b"X".to_vec());
    assert!(!registry.is_claimed(StreamId::Stdout));
}

#[test]
fn second_redirect_gets_its_sink_back() {
    let mut os = Os::new();
    let mut registry = RedirectionRegistry::new();
    let first = Pipe::new().unwrap();
    let second = Pipe::new().unwrap();
    let end = filedescriptor::AsRawFileDescriptor::as_raw_file_descriptor(&second.write);
    let attempt = drive(
        &mut os,
        Redirect::stderr(Sink { end: first.write }),
        |m| m.request(),
        |m, reply| m.advance(&mut registry, reply),
    );
    let redirect = attempt.finish().ok().unwrap().unwrap();
    let attempt = drive(
        &mut os,
        Redirect::stderr(Sink { end: second.write }),
        |m| m.request(),
        |m, reply| m.advance(&mut registry, reply),
    );
    let refused = attempt.finish().ok().unwrap();
    let (_, release) = redirect.into_inner();
    drive(&mut os, release, |m| m.request(), |m, reply| m.advance(&mut registry, reply));
    let refused = refused.unwrap_err();
    assert_eq!(refused.error, gag::guard::AcquireError::AlreadyRedirected);
    assert_eq!(refused.file.as_raw_file(), end as i64);
}

#[test]
fn failed_install_leaves_the_stream_claimable() {
    let seen = watch(StreamId::Stderr);
    let mut os = Os::new();
    let mut registry = RedirectionRegistry::new();
    let nothing: i64 = 999_999;
    let claim = drive(
        &mut os,
        gag::guard::Claim::start(StreamId::Stderr, nothing),
        |m| m.request(),
        |m, reply| m.advance(&mut registry, reply),
    );
    let outcome = claim.finish().ok().unwrap();
    let backup = match os.asked[3] {
        Request::Close { handle } => handle,
        _ => -1,
    };
    let flag_after_failure = registry.is_claimed(StreamId::Stderr);
    let again = buffer_stderr(&mut os, &mut registry);
    let claimed_again = again.is_ok();
    if let Ok(capture) = again {
        let buffer = extract(&mut os, &mut registry, capture);
        os.perform(buffer.close());
    }
    print(StreamId::Stderr, b"shown");
    let shown = unwatch(seen);
    assert!(matches!(outcome, Err(gag::guard::AcquireError::InstallFailed(_))));
    assert_eq!(
        os.asked[..4].to_vec(),
        vec![
            Request::Duplicate { stream: StreamId::Stderr },
            Request::Install { stream: StreamId::Stderr, target: nothing },
            Request::Install { stream: StreamId::Stderr, target: backup },
            Request::Close { handle: backup },
        ]
    );
    assert!(!flag_after_failure);
    assert!(claimed_again);
    assert_eq!(shown, b"shown".to_vec());
}
