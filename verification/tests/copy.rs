use steed::cstring::{cstr, CString};
use steed::attr::Stat64;
use steed::copy::{copy, CopyFile};
use steed::error::{Error, ErrorKind};
use steed::syscall::{Progress, Request, Syscall};

fn c(name: &[u8]) -> CString {
    cstr(name).unwrap()
}

struct Node {
    name: Vec<u8>,
    mode: u32,
    content: Vec<u8>,
}

struct Open {
    fd: i32,
    node: usize,
    position: usize,
}

// A kernel that keeps its files in memory.
struct Kernel {
    nodes: Vec<Node>,
    open: Vec<Open>,
    next_fd: i32,
    log: Vec<Request>,
    // The most bytes that one write takes.
    write_limit: usize,
    // The most bytes that one read gives.
    read_limit: usize,
    // Every so-manieth read or write is interrupted; 0 for none.
    interrupt_every: usize,
    transfers: usize,
    // The error number that the named call fails with, if any.
    fail_chmod: isize,
    fail_fstat: isize,
    fail_fcntl_on: i32,
    fail_write_after: usize,
}

fn empty_stat() -> Stat64 {
    Stat64 {
        st_dev: 0,
        st_ino: 0,
        st_mode: 0,
        st_nlink: 0,
        st_uid: 0,
        st_gid: 0,
        st_rdev: 0,
        st_size: 0,
        st_blksize: 0,
        st_blocks: 0,
        st_atime: 0,
        st_atime_nsec: 0,
        st_mtime: 0,
        st_mtime_nsec: 0,
        st_ctime: 0,
        st_ctime_nsec: 0,
    }
}

fn name_of(path: &CString) -> Vec<u8> {
    assert_eq!(path.as_bytes_with_nul().last(), Some(&0u8));
    path.as_bytes().to_vec()
}

impl Kernel {
    fn new() -> Kernel {
        Kernel {
            nodes: Vec::new(),
            open: Vec::new(),
            next_fd: 3,
            log: Vec::new(),
            write_limit: usize::MAX,
            read_limit: usize::MAX,
            interrupt_every: 0,
            transfers: 0,
            fail_chmod: 0,
            fail_fstat: 0,
            fail_fcntl_on: -1,
            fail_write_after: usize::MAX,
        }
    }

    fn add(&mut self, name: &[u8], mode: u32, content: &[u8]) {
        self.nodes.push(Node { name: name.to_vec(), mode, content: content.to_vec() });
    }

    fn find(&self, name: &[u8]) -> Option<usize> {
        self.nodes.iter().position(|n| n.name == name)
    }

    fn node(&self, name: &[u8]) -> &Node {
        &self.nodes[self.find(name).expect("no such file")]
    }

    fn slot(&self, fd: i32) -> Option<usize> {
        self.open.iter().position(|o| o.fd == fd)
    }

    fn stat_of(&self, node: usize) -> Stat64 {
        let mut s = empty_stat();
        s.st_mode = self.nodes[node].mode;
        s.st_size = self.nodes[node].content.len() as i64;
        s
    }

    fn interrupted(&mut self) -> bool {
        self.transfers += 1;
        self.interrupt_every != 0 && self.transfers % self.interrupt_every == 0
    }

    // Performs `call`; `payload` are the bytes that go with a write. Returns
    // the return value, the buffer of a read, and the record of a stat.
    fn perform(&mut self, call: Request, payload: &[u8]) -> (isize, Vec<u8>, Stat64) {
        let answer = match &call {
            Syscall::Stat64 { path } => match self.find(&name_of(path)) {
                Some(n) => (0, Vec::new(), self.stat_of(n)),
                None => (-2, Vec::new(), empty_stat()),
            },
            Syscall::Open { path, flags, .. } => {
                let name = name_of(path);
                let found = match self.find(&name) {
                    Some(n) => Some(n),
                    None if flags & 0o100 != 0 => {
                        self.add(&name, 0o100644, b"");
                        self.find(&name)
                    }
                    None => None,
                };
                match found {
                    None => (-2, Vec::new(), empty_stat()),
                    Some(n) if self.nodes[n].mode & 0o200 == 0 && flags & 0o3 != 0 => {
                        let _ = n;
                        (-13, Vec::new(), empty_stat())
                    }
                    Some(n) => {
                        if flags & 0o1000 != 0 {
                            self.nodes[n].content.clear();
                        }
                        let fd = self.next_fd;
                        self.next_fd += 1;
                        self.open.push(Open { fd, node: n, position: 0 });
                        (fd as isize, Vec::new(), empty_stat())
                    }
                }
            }
            Syscall::Fcntl { fd, cmd: 2, arg: 1 } => {
                if *fd == self.fail_fcntl_on {
                    (-9, Vec::new(), empty_stat())
                } else {
                    assert!(self.slot(*fd).is_some());
                    (0, Vec::new(), empty_stat())
                }
            }
            Syscall::Fstat64 { fd } => {
                if self.fail_fstat != 0 {
                    (self.fail_fstat, Vec::new(), empty_stat())
                } else {
                    let s = self.slot(*fd).expect("bad descriptor");
                    (0, Vec::new(), self.stat_of(self.open[s].node))
                }
            }
            Syscall::Read { fd, count } => {
                if self.interrupted() {
                    (-4, vec![0; *count], empty_stat())
                } else {
                    let s = self.slot(*fd).expect("bad descriptor");
                    let node = self.open[s].node;
                    let position = self.open[s].position;
                    let left = self.nodes[node].content.len() - position;
                    let n = left.min(*count).min(self.read_limit);
                    let mut buf = vec![0x77u8; *count];
                    buf[..n].copy_from_slice(&self.nodes[node].content[position..position + n]);
                    self.open[s].position += n;
                    (n as isize, buf, empty_stat())
                }
            }
            Syscall::Write { fd, count } => {
                assert_eq!(*count, payload.len());
                if self.interrupted() {
                    (-4, Vec::new(), empty_stat())
                } else {
                    let s = self.slot(*fd).expect("bad descriptor");
                    let node = self.open[s].node;
                    if self.nodes[node].content.len() >= self.fail_write_after {
                        (-28, Vec::new(), empty_stat())
                    } else {
                        let n = payload.len().min(self.write_limit);
                        self.nodes[node].content.extend_from_slice(&payload[..n]);
                        self.open[s].position += n;
                        (n as isize, Vec::new(), empty_stat())
                    }
                }
            }
            Syscall::Chmod { path, mode } => {
                if self.fail_chmod != 0 {
                    (self.fail_chmod, Vec::new(), empty_stat())
                } else {
                    let n = self.find(&name_of(path)).expect("no such file");
                    self.nodes[n].mode = (self.nodes[n].mode & !0o7777) | (*mode as u32);
                    (0, Vec::new(), empty_stat())
                }
            }
            Syscall::Close { fd } => {
                let s = self.slot(*fd).expect("closed twice, or never opened");
                self.open.remove(s);
                (0, Vec::new(), empty_stat())
            }
            other => panic!("unexpected call {:?}", other),
        };
        self.log.push(call);
        answer
    }

    fn run(&mut self, mut op: CopyFile) -> Result<u64, Error> {
        loop {
            let call = op.request();
            let payload = op.payload().to_vec();
            if !matches!(call, Syscall::Write { .. }) {
                assert!(payload.is_empty());
            }
            let (ret, data, stat) = self.perform(call, &payload);
            match op.resume(ret, &data, &stat) {
                Progress::More(next) => op = next,
                Progress::Done(r) => return r,
            }
        }
    }

    fn opens(&self) -> usize {
        self.log.iter().filter(|c| matches!(c, Syscall::Open { .. })).count()
    }

    fn closes(&self) -> Vec<i32> {
        self.log
            .iter()
            .filter_map(|c| match c {
                Syscall::Close { fd } => Some(*fd),
                _ => None,
            })
            .collect()
    }
}

fn ten_kib() -> Vec<u8> {
    (0..10240u32).map(|i| (i * 31 % 256) as u8).collect()
}

fn not_regular() -> Error {
    Error::Custom {
        kind: ErrorKind::InvalidInput,
        message: "the source path is not an existing regular file",
    }
}

#[test]
fn copy_of_ten_kib_gives_the_same_bytes_and_permission_bits() {
    let mut k = Kernel::new();
    k.add(b"from", 0o100640, &ten_kib());
    let r = k.run(copy(b"from", b"to").unwrap());
    assert_eq!(r, Ok(10240));
    assert_eq!(k.node(b"to").content, ten_kib());
    assert_eq!(k.node(b"to").mode & 0o777, 0o640);
    assert_eq!(k.node(b"from").content, ten_kib());
    assert!(k.open.is_empty());
}

#[test]
fn copy_makes_its_calls_in_order() {
    let mut k = Kernel::new();
    k.add(b"from", 0o100755, b"hello");
    assert_eq!(k.run(copy(b"from", b"to").unwrap()), Ok(5));
    assert_eq!(
        k.log,
        vec![
            Syscall::Stat64 { path: c(b"from") },
            Syscall::Open { path: c(b"from"), flags: 0o2100000, mode: 0o666 },
            Syscall::Fcntl { fd: 3, cmd: 2, arg: 1 },
            Syscall::Open { path: c(b"to"), flags: 0o2101101, mode: 0o666 },
            Syscall::Fcntl { fd: 4, cmd: 2, arg: 1 },
            Syscall::Fstat64 { fd: 3 },
            Syscall::Read { fd: 3, count: 8192 },
            Syscall::Write { fd: 4, count: 5 },
            Syscall::Read { fd: 3, count: 8192 },
            Syscall::Chmod { path: c(b"to"), mode: 0o755 },
            Syscall::Close { fd: 4 },
            Syscall::Close { fd: 3 },
        ]
    );
}

#[test]
fn copy_overwrites_a_target_that_is_there() {
    let mut k = Kernel::new();
    k.add(b"from", 0o100600, b"new content");
    k.add(b"to", 0o100666, b"something old and much longer than the new");
    assert_eq!(k.run(copy(b"from", b"to").unwrap()), Ok(11));
    assert_eq!(k.node(b"to").content, b"new content".to_vec());
    assert_eq!(k.node(b"to").mode & 0o777, 0o600);
}

#[test]
fn copy_of_an_empty_file() {
    let mut k = Kernel::new();
    k.add(b"from", 0o100444, b"");
    assert_eq!(k.run(copy(b"from", b"to").unwrap()), Ok(0));
    assert_eq!(k.node(b"to").content, Vec::<u8>::new());
    assert_eq!(k.node(b"to").mode & 0o777, 0o444);
}

#[test]
fn copy_survives_short_reads_short_writes_and_interruptions() {
    for (read_limit, write_limit, interrupt_every) in
        [(1000, 300, 0), (8192, 1, 0), (7, 5, 3), (usize::MAX, 4096, 2), (1, 1, 5)]
    {
        let mut k = Kernel::new();
        k.read_limit = read_limit;
        k.write_limit = write_limit;
        k.interrupt_every = interrupt_every;
        let content: Vec<u8> = ten_kib()[..3000].to_vec();
        k.add(b"from", 0o100664, &content);
        let r = k.run(copy(b"from", b"to").unwrap());
        assert_eq!(r, Ok(3000));
        assert_eq!(k.node(b"to").content, content);
        assert_eq!(k.node(b"to").mode & 0o777, 0o664);
        assert_eq!(k.closes(), vec![4, 3]);
    }
}

#[test]
fn copy_of_a_missing_source_fails_before_anything_is_opened() {
    let mut k = Kernel::new();
    let r = k.run(copy(b"from", b"to").unwrap());
    assert_eq!(r, Err(not_regular()));
    assert_eq!(r.unwrap_err().kind(), ErrorKind::InvalidInput);
    assert_eq!(k.log, vec![Syscall::Stat64 { path: c(b"from") }]);
    assert!(k.find(b"to").is_none());
}

#[test]
fn copy_of_a_directory_fails_before_anything_is_opened() {
    for mode in [0o040755u32, 0o120777, 0o020666, 0o060660, 0o010644, 0o140755] {
        let mut k = Kernel::new();
        k.add(b"from", mode, b"");
        k.add(b"to", 0o100644, b"precious");
        let r = k.run(copy(b"from", b"to").unwrap());
        assert_eq!(r, Err(not_regular()));
        assert_eq!(k.opens(), 0);
        assert_eq!(k.log.len(), 1);
        assert_eq!(k.node(b"to").content, b"precious".to_vec());
    }
}

#[test]
fn copy_of_a_name_with_a_nul_is_no_copy() {
    assert_eq!(copy(b"fr\0om", b"to").err(), Some(not_regular()));
    assert_eq!(copy(b"\0", b"\0").err(), Some(not_regular()));
}

#[test]
fn copy_to_a_name_with_a_nul_releases_the_source() {
    let mut k = Kernel::new();
    k.add(b"from", 0o100644, b"abc");
    let r = k.run(copy(b"from", b"t\0o").unwrap());
    assert_eq!(
        r,
        Err(Error::Custom {
            kind: ErrorKind::InvalidInput,
            message: "data provided contains a nul byte",
        })
    );
    assert_eq!(k.opens(), 1);
    assert_eq!(k.closes(), vec![3]);
    assert!(k.open.is_empty());
}

#[test]
fn copy_that_cannot_open_the_target_releases_the_source() {
    let mut k = Kernel::new();
    k.add(b"from", 0o100644, b"abc");
    k.add(b"to", 0o100444, b"read-only");
    let r = k.run(copy(b"from", b"to").unwrap());
    assert_eq!(r, Err(Error::Os { code: 13 }));
    assert_eq!(k.closes(), vec![3]);
    assert_eq!(k.node(b"to").content, b"read-only".to_vec());
    assert!(k.open.is_empty());
}

#[test]
fn copy_that_cannot_mark_the_target_releases_both() {
    let mut k = Kernel::new();
    k.add(b"from", 0o100644, b"abc");
    k.fail_fcntl_on = 4;
    let r = k.run(copy(b"from", b"to").unwrap());
    assert_eq!(r, Err(Error::Os { code: 9 }));
    assert_eq!(k.closes(), vec![4, 3]);
    assert!(k.open.is_empty());
}

#[test]
fn copy_that_cannot_inspect_the_source_releases_both() {
    let mut k = Kernel::new();
    k.add(b"from", 0o100644, b"abc");
    k.fail_fstat = -5;
    let r = k.run(copy(b"from", b"to").unwrap());
    assert_eq!(r, Err(Error::Os { code: 5 }));
    assert_eq!(k.closes(), vec![4, 3]);
    assert!(k.open.is_empty());
}

#[test]
fn copy_that_cannot_write_releases_both() {
    let mut k = Kernel::new();
    k.add(b"from", 0o100644, &ten_kib());
    k.write_limit = 1000;
    k.fail_write_after = 2000;
    let r = k.run(copy(b"from", b"to").unwrap());
    assert_eq!(r, Err(Error::Os { code: 28 }));
    assert_eq!(k.node(b"to").content, ten_kib()[..2000].to_vec());
    assert_eq!(k.closes(), vec![4, 3]);
    assert!(k.open.is_empty());
}

#[test]
fn copy_to_a_target_that_takes_nothing_fails() {
    let mut k = Kernel::new();
    k.add(b"from", 0o100644, b"abc");
    k.write_limit = 0;
    let r = k.run(copy(b"from", b"to").unwrap());
    assert_eq!(
        r,
        Err(Error::Custom {
            kind: ErrorKind::WriteZero,
            message: "failed to write whole buffer",
        })
    );
    assert_eq!(k.closes(), vec![4, 3]);
}

#[test]
fn copy_that_cannot_set_the_permissions_fails_after_the_bytes_are_copied() {
    let mut k = Kernel::new();
    k.add(b"from", 0o100600, b"abc");
    k.fail_chmod = -1;
    let r = k.run(copy(b"from", b"to").unwrap());
    assert_eq!(r, Err(Error::Os { code: 1 }));
    assert_eq!(k.node(b"to").content, b"abc".to_vec());
    assert_eq!(k.closes(), vec![4, 3]);
}

#[test]
fn copy_repeats_an_interrupted_chmod() {
    let mut k = Kernel::new();
    k.add(b"from", 0o100600, b"abc");
    let mut op = copy(b"from", b"to").unwrap();
    // Run up to the chmod.
    loop {
        let call = op.request();
        if matches!(call, Syscall::Chmod { .. }) {
            break;
        }
        let payload = op.payload().to_vec();
        let (ret, data, stat) = k.perform(call, &payload);
        op = match op.resume(ret, &data, &stat) {
            Progress::More(next) => next,
            Progress::Done(r) => panic!("ended: {:?}", r),
        };
    }
    let chmod = op.request();
    op = match op.resume(-4, &[], &empty_stat()) {
        Progress::More(next) => next,
        Progress::Done(r) => panic!("ended: {:?}", r),
    };
    assert_eq!(op.request(), chmod);
    assert_eq!(k.run(op), Ok(3));
    assert_eq!(k.node(b"to").mode & 0o777, 0o600);
}
