//! Command lines of the programs.
use vstd::prelude::*;

use crate::text::{parse_number, same_text};

verus! {

/// The smallest fragment size that a command line may ask for.
pub const MIN_FRAGMENT_BYTES: usize = 1024;

/// A flag that takes a value.
#[derive(Debug, Clone, Copy, PartialEq, Eq, Structural)]
pub enum Flag {
    /// `--signaling-url`.
    SignalingUrl,
    /// `--session-id`.
    SessionId,
    /// `--bind`.
    Bind,
    /// `--frames`.
    Frames,
    /// `--fps`.
    Fps,
    /// `--max-fragment-bytes`.
    MaxFragmentBytes,
    /// `--max-width`.
    MaxWidth,
    /// `--bitrate-kbps`.
    BitrateKbps,
}

impl Flag {
    /// The flag as it is written.
    pub open spec fn label(self) -> Seq<char> {
        match self {
            Flag::SignalingUrl => "--signaling-url"@,
            Flag::SessionId => "--session-id"@,
            Flag::Bind => "--bind"@,
            Flag::Frames => "--frames"@,
            Flag::Fps => "--fps"@,
            Flag::MaxFragmentBytes => "--max-fragment-bytes"@,
            Flag::MaxWidth => "--max-width"@,
            Flag::BitrateKbps => "--bitrate-kbps"@,
        }
    }

    /// The flag as it is written.
    pub fn name(self) -> (r: &'static str)
        ensures
            r@ == self.label(),
    {
        match self {
            Flag::SignalingUrl => "--signaling-url",
            Flag::SessionId => "--session-id",
            Flag::Bind => "--bind",
            Flag::Frames => "--frames",
            Flag::Fps => "--fps",
            Flag::MaxFragmentBytes => "--max-fragment-bytes",
            Flag::MaxWidth => "--max-width",
            Flag::BitrateKbps => "--bitrate-kbps",
        }
    }

    /// The flag that a word is.
    pub open spec fn of_word(s: Seq<char>) -> Option<Flag> {
        if s == "--signaling-url"@ {
            Some(Flag::SignalingUrl)
        } else if s == "--session-id"@ {
            Some(Flag::SessionId)
        } else if s == "--bind"@ {
            Some(Flag::Bind)
        } else if s == "--frames"@ {
            Some(Flag::Frames)
        } else if s == "--fps"@ {
            Some(Flag::Fps)
        } else if s == "--max-fragment-bytes"@ {
            Some(Flag::MaxFragmentBytes)
        } else if s == "--max-width"@ {
            Some(Flag::MaxWidth)
        } else if s == "--bitrate-kbps"@ {
            Some(Flag::BitrateKbps)
        } else {
            None
        }
    }

    /// The flag that a word is.
    fn read(s: &str) -> (r: Option<Flag>)
        ensures
            r == Flag::of_word(s@),
    {
        if same_text(s, "--signaling-url") {
            Some(Flag::SignalingUrl)
        } else if same_text(s, "--session-id") {
            Some(Flag::SessionId)
        } else if same_text(s, "--bind") {
            Some(Flag::Bind)
        } else if same_text(s, "--frames") {
            Some(Flag::Frames)
        } else if same_text(s, "--fps") {
            Some(Flag::Fps)
        } else if same_text(s, "--max-fragment-bytes") {
            Some(Flag::MaxFragmentBytes)
        } else if same_text(s, "--max-width") {
            Some(Flag::MaxWidth)
        } else if same_text(s, "--bitrate-kbps") {
            Some(Flag::BitrateKbps)
        } else {
            None
        }
    }
}

/// A command line is refused.
#[derive(Debug, Clone, Copy, PartialEq, Eq, Structural)]
pub enum ArgsError {
    /// The value of a flag is missing.
    Missing(Flag),
    /// The value of a flag is no number, or is too large.
    NotANumber(Flag),
    /// The value of a flag is too small.
    TooSmall(Flag),
}

/// A program with a command line of its own.
#[derive(Debug, Clone, Copy, PartialEq, Eq, Structural)]
pub enum Program {
    /// The host that replays a clip or echoes.
    Host,
    /// The host that captures the screen.
    Preview,
}

impl ArgsError {
    /// What is said behind the flag.
    pub open spec fn complaint(self, program: Program) -> Seq<char> {
        match (self, program) {
            (ArgsError::Missing(_), _) => " requires a value"@,
            (ArgsError::NotANumber(Flag::MaxFragmentBytes), _) => " must be an integer"@,
            (ArgsError::NotANumber(Flag::Frames), Program::Host) => " must be an integer frame count"@,
            (ArgsError::NotANumber(_), Program::Host) => " must be an integer"@,
            (ArgsError::NotANumber(_), Program::Preview) => " must be a positive integer"@,
            (ArgsError::TooSmall(Flag::MaxFragmentBytes), _) => " must be >= 1024"@,
            (ArgsError::TooSmall(_), Program::Host) => " must be a positive integer (> 0)"@,
            (ArgsError::TooSmall(_), Program::Preview) => " must be > 0"@,
        }
    }

    /// The flag that is at fault.
    pub open spec fn flag(self) -> Flag {
        match self {
            ArgsError::Missing(f) => f,
            ArgsError::NotANumber(f) => f,
            ArgsError::TooSmall(f) => f,
        }
    }

    /// What the error says.
    pub fn to_text(&self, program: Program) -> (r: String)
        ensures
            r@ == self.flag().label() + self.complaint(program),
    {
        let f = match *self {
            ArgsError::Missing(f) => f,
            ArgsError::NotANumber(f) => f,
            ArgsError::TooSmall(f) => f,
        };
        let mut s = f.name().to_owned();
        match (*self, program) {
            (ArgsError::Missing(_), _) => s.append(" requires a value"),
            (ArgsError::NotANumber(Flag::MaxFragmentBytes), _) => s.append(" must be an integer"),
            (ArgsError::NotANumber(Flag::Frames), Program::Host) => s.append(
                " must be an integer frame count",
            ),
            (ArgsError::NotANumber(_), Program::Host) => s.append(" must be an integer"),
            (ArgsError::NotANumber(_), Program::Preview) => s.append(" must be a positive integer"),
            (ArgsError::TooSmall(Flag::MaxFragmentBytes), _) => s.append(" must be >= 1024"),
            (ArgsError::TooSmall(_), Program::Host) => s.append(" must be a positive integer (> 0)"),
            (ArgsError::TooSmall(_), Program::Preview) => s.append(" must be > 0"),
        }
        s
    }
}

/// The value of a flag as a number between `min` and `max`.
pub open spec fn number_for(f: Flag, v: Seq<char>, min: int, max: int) -> Result<int, ArgsError> {
    match crate::text::number_in(v) {
        Some(n) => if n > max {
            Err(ArgsError::NotANumber(f))
        } else if n < min {
            Err(ArgsError::TooSmall(f))
        } else {
            Ok(n as int)
        },
        None => Err(ArgsError::NotANumber(f)),
    }
}

/// Read the value of a flag as a number between `min` and `max`.
fn read_number(f: Flag, v: &str, min: u64, max: u64) -> (r: Result<u64, ArgsError>)
    ensures
        match number_for(f, v@, min as int, max as int) {
            Ok(n) => r == Ok::<u64, ArgsError>(n as u64) && n == r->Ok_0,
            Err(e) => r == Err::<u64, ArgsError>(e),
        },
{
    match parse_number(v, max) {
        Some(n) => if n < min {
            Err(ArgsError::TooSmall(f))
        } else {
            Ok(n)
        },
        None => Err(ArgsError::NotANumber(f)),
    }
}

/// The words of a command line.
pub open spec fn words(args: Seq<String>) -> Seq<Seq<char>> {
    Seq::new(args.len(), |i: int| args[i]@)
}

/// The command line of a host that replays a clip or echoes.
#[derive(Debug, Clone, PartialEq, Eq)]
pub struct HostArgs {
    /// Signaling server.
    pub signaling_url: String,
    /// Session, as text.
    pub session_id_hex: String,
    /// Address to bind.
    pub bind: String,
    /// Whether to stream video.
    pub stream_video: bool,
    /// Frames to send.
    pub frames: usize,
    /// Frames per second.
    pub fps: u32,
    /// Bytes to a fragment.
    pub max_fragment_bytes: usize,
}

/// The command line of a host, as values.
pub struct HostArgsView {
    /// Signaling server.
    pub signaling_url: Seq<char>,
    /// Session, as text.
    pub session_id_hex: Seq<char>,
    /// Address to bind.
    pub bind: Seq<char>,
    /// Whether to stream video.
    pub stream_video: bool,
    /// Frames to send.
    pub frames: int,
    /// Frames per second.
    pub fps: int,
    /// Bytes to a fragment.
    pub max_fragment_bytes: int,
}

impl View for HostArgs {
    type V = HostArgsView;

    open spec fn view(&self) -> HostArgsView {
        HostArgsView {
            signaling_url: self.signaling_url@,
            session_id_hex: self.session_id_hex@,
            bind: self.bind@,
            stream_video: self.stream_video,
            frames: self.frames as int,
            fps: self.fps as int,
            max_fragment_bytes: self.max_fragment_bytes as int,
        }
    }
}

/// What an empty command line stands for.
pub open spec fn host_defaults() -> HostArgsView {
    HostArgsView {
        signaling_url: "ws://127.0.0.1:8765"@,
        session_id_hex: "00000000000000000000000000000000"@,
        bind: "127.0.0.1:0"@,
        stream_video: false,
        frames: 120,
        fps: 30,
        max_fragment_bytes: 65535,
    }
}

/// A flag that a host knows takes the value `v`.
pub open spec fn host_set(a: HostArgsView, f: Flag, v: Seq<char>) -> Result<HostArgsView, ArgsError> {
    match f {
        Flag::SignalingUrl => Ok(HostArgsView { signaling_url: v, ..a }),
        Flag::SessionId => Ok(HostArgsView { session_id_hex: v, ..a }),
        Flag::Bind => Ok(HostArgsView { bind: v, ..a }),
        Flag::Frames => match number_for(f, v, 0, usize::MAX as int) {
            Ok(n) => Ok(HostArgsView { frames: n, ..a }),
            Err(e) => Err(e),
        },
        Flag::Fps => match number_for(f, v, 1, u32::MAX as int) {
            Ok(n) => Ok(HostArgsView { fps: n, ..a }),
            Err(e) => Err(e),
        },
        Flag::MaxFragmentBytes => match number_for(
            f,
            v,
            MIN_FRAGMENT_BYTES as int,
            usize::MAX as int,
        ) {
            Ok(n) => Ok(HostArgsView { max_fragment_bytes: n, ..a }),
            Err(e) => Err(e),
        },
        Flag::MaxWidth | Flag::BitrateKbps => Ok(a),
    }
}

/// A host knows the flag.
pub open spec fn host_knows(s: Seq<char>) -> bool {
    Flag::of_word(s) matches Some(f) && f != Flag::MaxWidth && f != Flag::BitrateKbps
}

/// What the words make of `a`: they are read from the left, words that are no flags are passed
/// over, and the first fault decides.
pub open spec fn host_line(args: Seq<Seq<char>>, a: HostArgsView) -> Result<HostArgsView, ArgsError>
    decreases args.len(),
{
    if args.len() == 0 {
        Ok(a)
    } else if args[0] == "--stream-video"@ {
        host_line(args.skip(1), HostArgsView { stream_video: true, ..a })
    } else if !host_knows(args[0]) {
        host_line(args.skip(1), a)
    } else if args.len() < 2 {
        Err(ArgsError::Missing(Flag::of_word(args[0])->0))
    } else {
        match host_set(a, Flag::of_word(args[0])->0, args[1]) {
            Ok(b) => host_line(args.skip(2), b),
            Err(e) => Err(e),
        }
    }
}

/// A result over arguments as a result over values.
pub open spec fn host_outcome(r: Result<HostArgs, ArgsError>) -> Result<HostArgsView, ArgsError> {
    match r {
        Ok(a) => Ok(a@),
        Err(e) => Err(e),
    }
}

impl HostArgs {
    fn set(self, f: Flag, v: &String) -> (r: Result<HostArgs, ArgsError>)
        ensures
            host_outcome(r) == host_set(self@, f, v@),
    {
        let mut a = self;
        match f {
            Flag::SignalingUrl => {
                a.signaling_url = v.clone();
            },
            Flag::SessionId => {
                a.session_id_hex = v.clone();
            },
            Flag::Bind => {
                a.bind = v.clone();
            },
            Flag::Frames => match read_number(f, v.as_str(), 0, usize::MAX as u64) {
                Ok(n) => {
                    a.frames = n as usize;
                },
                Err(e) => {
                    return Err(e);
                },
            },
            Flag::Fps => match read_number(f, v.as_str(), 1, u32::MAX as u64) {
                Ok(n) => {
                    a.fps = n as u32;
                },
                Err(e) => {
                    return Err(e);
                },
            },
            Flag::MaxFragmentBytes => match read_number(
                f,
                v.as_str(),
                MIN_FRAGMENT_BYTES as u64,
                usize::MAX as u64,
            ) {
                Ok(n) => {
                    a.max_fragment_bytes = n as usize;
                },
                Err(e) => {
                    return Err(e);
                },
            },
            Flag::MaxWidth | Flag::BitrateKbps => {},
        }
        Ok(a)
    }

    /// Read a command line, without the program's own name.
    pub fn parse(args: &[String]) -> (r: Result<HostArgs, ArgsError>)
        ensures
            host_outcome(r) == host_line(words(args@), host_defaults()),
    {
        let ghost all = words(args@);
        let mut a = HostArgs {
            signaling_url: "ws://127.0.0.1:8765".to_owned(),
            session_id_hex: "00000000000000000000000000000000".to_owned(),
            bind: "127.0.0.1:0".to_owned(),
            stream_video: false,
            frames: 120,
            fps: 30,
            max_fragment_bytes: 65535,
        };
        let mut i: usize = 0;
        assert(all.skip(0) =~= all);
        while i < args.len()
            invariant
                i <= args@.len(),
                all == words(args@),
                host_line(all.skip(i as int), a@) == host_line(all, host_defaults()),
            decreases args@.len() - i,
        {
            let ghost rest = all.skip(i as int);
            assert(rest[0] == args@[i as int]@);
            assert(rest.skip(1) =~= all.skip(i as int + 1));
            let word = args[i].as_str();
            if same_text(word, "--stream-video") {
                a.stream_video = true;
                i = i + 1;
            } else {
                match Flag::read(word) {
                    Some(f) => {
                        if f == Flag::MaxWidth || f == Flag::BitrateKbps {
                            i = i + 1;
                        } else if i + 1 >= args.len() {
                            return Err(ArgsError::Missing(f));
                        } else {
                            assert(rest[1] == args@[i as int + 1]@);
                            assert(rest.skip(2) =~= all.skip(i as int + 2));
                            match a.set(f, &args[i + 1]) {
                                Ok(b) => {
                                    a = b;
                                },
                                Err(e) => {
                                    return Err(e);
                                },
                            }
                            i = i + 2;
                        }
                    },
                    None => {
                        i = i + 1;
                    },
                }
            }
        }
        Ok(a)
    }
}

/// The command line of a host that captures the screen.
#[derive(Debug, Clone, PartialEq, Eq)]
pub struct PreviewArgs {
    /// Signaling server.
    pub signaling_url: String,
    /// Session, as text.
    pub session_id_hex: String,
    /// Address to bind.
    pub bind: String,
    /// Width that frames are scaled down to.
    pub max_width: u32,
    /// Bitrate.
    pub bitrate_kbps: u32,
    /// Frames per second.
    pub fps: u32,
    /// Frames to send.
    pub frames: usize,
    /// Bytes to a fragment.
    pub max_fragment_bytes: usize,
}

/// The command line of a host that captures the screen, as values.
pub struct PreviewArgsView {
    /// Signaling server.
    pub signaling_url: Seq<char>,
    /// Session, as text.
    pub session_id_hex: Seq<char>,
    /// Address to bind.
    pub bind: Seq<char>,
    /// Width that frames are scaled down to.
    pub max_width: int,
    /// Bitrate.
    pub bitrate_kbps: int,
    /// Frames per second.
    pub fps: int,
    /// Frames to send.
    pub frames: int,
    /// Bytes to a fragment.
    pub max_fragment_bytes: int,
}

impl View for PreviewArgs {
    type V = PreviewArgsView;

    open spec fn view(&self) -> PreviewArgsView {
        PreviewArgsView {
            signaling_url: self.signaling_url@,
            session_id_hex: self.session_id_hex@,
            bind: self.bind@,
            max_width: self.max_width as int,
            bitrate_kbps: self.bitrate_kbps as int,
            fps: self.fps as int,
            frames: self.frames as int,
            max_fragment_bytes: self.max_fragment_bytes as int,
        }
    }
}

/// What an empty command line stands for: stream until the browser leaves.
pub open spec fn preview_defaults() -> PreviewArgsView {
    PreviewArgsView {
        signaling_url: "ws://127.0.0.1:8765"@,
        session_id_hex: "00000000000000000000000000000000"@,
        bind: "127.0.0.1:0"@,
        max_width: 3840,
        bitrate_kbps: 4000,
        fps: 30,
        frames: usize::MAX as int,
        max_fragment_bytes: 65535,
    }
}

/// A flag takes the value `v`.
pub open spec fn preview_set(a: PreviewArgsView, f: Flag, v: Seq<char>) -> Result<
    PreviewArgsView,
    ArgsError,
> {
    match f {
        Flag::SignalingUrl => Ok(PreviewArgsView { signaling_url: v, ..a }),
        Flag::SessionId => Ok(PreviewArgsView { session_id_hex: v, ..a }),
        Flag::Bind => Ok(PreviewArgsView { bind: v, ..a }),
        Flag::Frames => match number_for(f, v, 0, usize::MAX as int) {
            Ok(n) => Ok(PreviewArgsView { frames: n, ..a }),
            Err(e) => Err(e),
        },
        Flag::Fps => match number_for(f, v, 1, u32::MAX as int) {
            Ok(n) => Ok(PreviewArgsView { fps: n, ..a }),
            Err(e) => Err(e),
        },
        Flag::MaxFragmentBytes => match number_for(
            f,
            v,
            MIN_FRAGMENT_BYTES as int,
            usize::MAX as int,
        ) {
            Ok(n) => Ok(PreviewArgsView { max_fragment_bytes: n, ..a }),
            Err(e) => Err(e),
        },
        Flag::MaxWidth => match number_for(f, v, 1, u32::MAX as int) {
            Ok(n) => Ok(PreviewArgsView { max_width: n, ..a }),
            Err(e) => Err(e),
        },
        Flag::BitrateKbps => match number_for(f, v, 1, u32::MAX as int) {
            Ok(n) => Ok(PreviewArgsView { bitrate_kbps: n, ..a }),
            Err(e) => Err(e),
        },
    }
}

/// What the words make of `a`: they are read from the left, words that are no flags are passed
/// over, and the first fault decides.
pub open spec fn preview_line(args: Seq<Seq<char>>, a: PreviewArgsView) -> Result<
    PreviewArgsView,
    ArgsError,
>
    decreases args.len(),
{
    if args.len() == 0 {
        Ok(a)
    } else if Flag::of_word(args[0]) is None {
        preview_line(args.skip(1), a)
    } else if args.len() < 2 {
        Err(ArgsError::Missing(Flag::of_word(args[0])->0))
    } else {
        match preview_set(a, Flag::of_word(args[0])->0, args[1]) {
            Ok(b) => preview_line(args.skip(2), b),
            Err(e) => Err(e),
        }
    }
}

/// A result over arguments as a result over values.
pub open spec fn preview_outcome(r: Result<PreviewArgs, ArgsError>) -> Result<
    PreviewArgsView,
    ArgsError,
> {
    match r {
        Ok(a) => Ok(a@),
        Err(e) => Err(e),
    }
}

impl PreviewArgs {
    fn set(self, f: Flag, v: &String) -> (r: Result<PreviewArgs, ArgsError>)
        ensures
            preview_outcome(r) == preview_set(self@, f, v@),
    {
        let mut a = self;
        let min: u64 = match f {
            Flag::Frames => 0,
            Flag::MaxFragmentBytes => MIN_FRAGMENT_BYTES as u64,
            _ => 1,
        };
        let max: u64 = match f {
            Flag::Frames | Flag::MaxFragmentBytes => usize::MAX as u64,
            _ => u32::MAX as u64,
        };
        match f {
            Flag::SignalingUrl => {
                a.signaling_url = v.clone();
                return Ok(a);
            },
            Flag::SessionId => {
                a.session_id_hex = v.clone();
                return Ok(a);
            },
            Flag::Bind => {
                a.bind = v.clone();
                return Ok(a);
            },
            _ => {},
        }
        let n: u64 = match read_number(f, v.as_str(), min, max) {
            Ok(n) => n,
            Err(e) => {
                return Err(e);
            },
        };
        match f {
            Flag::Frames => {
                a.frames = n as usize;
            },
            Flag::Fps => {
                a.fps = n as u32;
            },
            Flag::MaxFragmentBytes => {
                a.max_fragment_bytes = n as usize;
            },
            Flag::MaxWidth => {
                a.max_width = n as u32;
            },
            Flag::BitrateKbps => {
                a.bitrate_kbps = n as u32;
            },
            _ => {},
        }
        Ok(a)
    }

    /// Read a command line, without the program's own name.
    pub fn parse(args: &[String]) -> (r: Result<PreviewArgs, ArgsError>)
        ensures
            preview_outcome(r) == preview_line(words(args@), preview_defaults()),
    {
        let ghost all = words(args@);
        let mut a = PreviewArgs {
            signaling_url: "ws://127.0.0.1:8765".to_owned(),
            session_id_hex: "00000000000000000000000000000000".to_owned(),
            bind: "127.0.0.1:0".to_owned(),
            max_width: 3840,
            bitrate_kbps: 4000,
            fps: 30,
            frames: usize::MAX,
            max_fragment_bytes: 65535,
        };
        let mut i: usize = 0;
        assert(all.skip(0) =~= all);
        while i < args.len()
            invariant
                i <= args@.len(),
                all == words(args@),
                preview_line(all.skip(i as int), a@) == preview_line(all, preview_defaults()),
            decreases args@.len() - i,
        {
            let ghost rest = all.skip(i as int);
            assert(rest[0] == args@[i as int]@);
            assert(rest.skip(1) =~= all.skip(i as int + 1));
            match Flag::read(args[i].as_str()) {
                Some(f) => {
                    if i + 1 >= args.len() {
                        return Err(ArgsError::Missing(f));
                    }
                    assert(rest[1] == args@[i as int + 1]@);
                    assert(rest.skip(2) =~= all.skip(i as int + 2));
                    match a.set(f, &args[i + 1]) {
                        Ok(b) => {
                            a = b;
                        },
                        Err(e) => {
                            return Err(e);
                        },
                    }
                    i = i + 2;
                },
                None => {
                    i = i + 1;
                },
            }
        }
        Ok(a)
    }
}

/// `--addr` has no value.
#[derive(Debug, Clone, Copy, PartialEq, Eq, Structural)]
pub struct MissingAddr;

impl MissingAddr {
    /// What the error says.
    pub fn to_text(&self) -> (r: String)
        ensures
            r@ == "--addr requires a value"@,
    {
        "--addr requires a value".to_owned()
    }
}

/// The word behind the first `--addr`; a default where there is none.
pub open spec fn addr_in(args: Seq<Seq<char>>) -> Result<Seq<char>, MissingAddr>
    decreases args.len(),
{
    if args.len() == 0 {
        Ok("127.0.0.1:8765"@)
    } else if args[0] != "--addr"@ {
        addr_in(args.skip(1))
    } else if args.len() < 2 {
        Err(MissingAddr)
    } else {
        Ok(args[1])
    }
}

/// The address that a signaling server listens on, as text.
pub fn parse_addr_arg(args: &[String]) -> (r: Result<String, MissingAddr>)
    ensures
        match addr_in(words(args@)) {
            Ok(a) => r matches Ok(s) && s@ == a,
            Err(_) => r is Err,
        },
{
    let ghost all = words(args@);
    let mut i: usize = 0;
    assert(all.skip(0) =~= all);
    while i < args.len()
        invariant
            i <= args@.len(),
            all == words(args@),
            addr_in(all.skip(i as int)) == addr_in(all),
        decreases args@.len() - i,
    {
        let ghost rest = all.skip(i as int);
        assert(rest[0] == args@[i as int]@);
        if same_text(args[i].as_str(), "--addr") {
            if i + 1 >= args.len() {
                return Err(MissingAddr);
            }
            assert(rest[1] == args@[i as int + 1]@);
            return Ok(args[i + 1].clone());
        }
        assert(rest.skip(1) =~= all.skip(i as int + 1));
        i = i + 1;
    }
    Ok("127.0.0.1:8765".to_owned())
}

/// A command line that is accepted asks for a rate of at least one frame per second, and for
/// fragments that keep the number of fragments in check.
pub proof fn law_accepted_lines_are_sound(args: Seq<Seq<char>>, a: HostArgsView)
    requires
        a.fps >= 1,
        a.max_fragment_bytes >= MIN_FRAGMENT_BYTES,
        host_line(args, a) is Ok,
    ensures
        host_line(args, a)->Ok_0.fps >= 1,
        host_line(args, a)->Ok_0.max_fragment_bytes >= MIN_FRAGMENT_BYTES,
    decreases args.len(),
{
    if args.len() == 0 {
    } else if args[0] == "--stream-video"@ {
        law_accepted_lines_are_sound(
            args.skip(1),
            HostArgsView { stream_video: true, ..a },
        );
    } else if !host_knows(args[0]) {
        law_accepted_lines_are_sound(args.skip(1), a);
    } else {
        match host_set(a, Flag::of_word(args[0])->0, args[1]) {
            Ok(b) => {
                law_accepted_lines_are_sound(args.skip(2), b);
            },
            Err(_) => {},
        }
    }
}

/// The words that are flags are told apart.
proof fn lemma_flag_words()
    ensures
        Flag::of_word("--signaling-url"@) == Some(Flag::SignalingUrl),
        Flag::of_word("--session-id"@) == Some(Flag::SessionId),
        Flag::of_word("--bind"@) == Some(Flag::Bind),
        Flag::of_word("--frames"@) == Some(Flag::Frames),
        Flag::of_word("--fps"@) == Some(Flag::Fps),
        Flag::of_word("--max-fragment-bytes"@) == Some(Flag::MaxFragmentBytes),
        Flag::of_word("--max-width"@) == Some(Flag::MaxWidth),
        Flag::of_word("--bitrate-kbps"@) == Some(Flag::BitrateKbps),
        Flag::of_word("--stream-video"@) is None,
        "--signaling-url"@ != "--stream-video"@,
        "--session-id"@ != "--stream-video"@,
        "--bind"@ != "--stream-video"@,
        "--frames"@ != "--stream-video"@,
        "--fps"@ != "--stream-video"@,
        "--max-fragment-bytes"@ != "--stream-video"@,
        "--max-width"@ != "--stream-video"@,
        "--bitrate-kbps"@ != "--stream-video"@,
{
    reveal_strlit("--signaling-url");
    reveal_strlit("--session-id");
    reveal_strlit("--bind");
    reveal_strlit("--frames");
    reveal_strlit("--fps");
    reveal_strlit("--max-fragment-bytes");
    reveal_strlit("--max-width");
    reveal_strlit("--bitrate-kbps");
    reveal_strlit("--stream-video");
    assert("--signaling-url"@.len() == 15);
    assert("--session-id"@.len() == 12);
    assert("--bind"@.len() == 6);
    assert("--frames"@.len() == 8);
    assert("--fps"@.len() == 5);
    assert("--max-fragment-bytes"@.len() == 20);
    assert("--max-width"@.len() == 11);
    assert("--bitrate-kbps"@.len() == 14);
    assert("--stream-video"@.len() == 14);
    assert("--stream-video"@[2] == 's' && "--bitrate-kbps"@[2] == 'b');
}

/// A word that is none of the flags is no flag, and each flag is written in one way only.
pub proof fn law_flags_are_written_in_full(s: Seq<char>)
    ensures
        Flag::of_word(s) == Some(Flag::SignalingUrl) <==> s == "--signaling-url"@,
        Flag::of_word(s) == Some(Flag::SessionId) <==> s == "--session-id"@,
        Flag::of_word(s) == Some(Flag::Bind) <==> s == "--bind"@,
        Flag::of_word(s) == Some(Flag::Frames) <==> s == "--frames"@,
        Flag::of_word(s) == Some(Flag::Fps) <==> s == "--fps"@,
        Flag::of_word(s) == Some(Flag::MaxFragmentBytes) <==> s == "--max-fragment-bytes"@,
        Flag::of_word(s) == Some(Flag::MaxWidth) <==> s == "--max-width"@,
        Flag::of_word(s) == Some(Flag::BitrateKbps) <==> s == "--bitrate-kbps"@,
        Flag::of_word(s) matches Some(f) ==> f.label() == s,
{
    lemma_flag_words();
}

/// How the command line of a host is read. An empty line changes nothing; a word that is no flag is
/// passed over; and a flag sets its own value to the word behind it, and nothing else.
pub proof fn law_host_line_is_read_in_order(
    v: Seq<char>,
    w: Seq<char>,
    rest: Seq<Seq<char>>,
    a: HostArgsView,
)
    requires
        w != "--signaling-url"@,
        w != "--session-id"@,
        w != "--bind"@,
        w != "--frames"@,
        w != "--fps"@,
        w != "--max-fragment-bytes"@,
        w != "--stream-video"@,
    ensures
        host_line(Seq::empty(), a) == Ok::<HostArgsView, ArgsError>(a),
        host_line(seq![w] + rest, a) == host_line(rest, a),
        host_line(seq!["--stream-video"@] + rest, a) == host_line(
            rest,
            HostArgsView { stream_video: true, ..a },
        ),
        host_line(seq!["--signaling-url"@, v] + rest, a) == host_line(
            rest,
            HostArgsView { signaling_url: v, ..a },
        ),
        host_line(seq!["--session-id"@, v] + rest, a) == host_line(
            rest,
            HostArgsView { session_id_hex: v, ..a },
        ),
        host_line(seq!["--bind"@, v] + rest, a) == host_line(
            rest,
            HostArgsView { bind: v, ..a },
        ),
        host_line(seq!["--signaling-url"@], a) == Err::<HostArgsView, ArgsError>(
            ArgsError::Missing(Flag::SignalingUrl),
        ),
        host_line(seq!["--session-id"@], a) == Err::<HostArgsView, ArgsError>(
            ArgsError::Missing(Flag::SessionId),
        ),
        host_line(seq!["--bind"@], a) == Err::<HostArgsView, ArgsError>(
            ArgsError::Missing(Flag::Bind),
        ),
        host_line(seq!["--frames"@], a) == Err::<HostArgsView, ArgsError>(
            ArgsError::Missing(Flag::Frames),
        ),
        host_line(seq!["--fps"@], a) == Err::<HostArgsView, ArgsError>(
            ArgsError::Missing(Flag::Fps),
        ),
        host_line(seq!["--max-fragment-bytes"@], a) == Err::<HostArgsView, ArgsError>(
            ArgsError::Missing(Flag::MaxFragmentBytes),
        ),
{
    lemma_flag_words();
    assert((seq![w] + rest).skip(1) =~= rest);
    assert((seq!["--stream-video"@] + rest).skip(1) =~= rest);
    assert((seq![w] + rest)[0] == w);
    assert((seq!["--signaling-url"@, v] + rest).skip(2) =~= rest);
    assert((seq!["--signaling-url"@, v] + rest)[0] == "--signaling-url"@ && (seq!["--signaling-url"@, v] + rest)[1] == v);
    assert((seq!["--session-id"@, v] + rest).skip(2) =~= rest);
    assert((seq!["--session-id"@, v] + rest)[0] == "--session-id"@ && (seq!["--session-id"@, v] + rest)[1] == v);
    assert((seq!["--bind"@, v] + rest).skip(2) =~= rest);
    assert((seq!["--bind"@, v] + rest)[0] == "--bind"@ && (seq!["--bind"@, v] + rest)[1] == v);
}

/// The numbers on the command line of a host: each has to be a number from its least value on that fits
/// its field; what is no such number is refused, and so is one below the least.
pub proof fn law_host_numbers(v: Seq<char>, rest: Seq<Seq<char>>, a: HostArgsView)
    ensures
        ({
            let r = host_line(seq!["--frames"@, v] + rest, a);
            match crate::text::number_in(v) {
                Some(n) => {
                    &&& 0 <= n <= usize::MAX ==> r == host_line(
                        rest,
                        HostArgsView { frames: n as int, ..a },
                    )
                    &&& n < 0 ==> r == Err::<HostArgsView, ArgsError>(
                        ArgsError::TooSmall(Flag::Frames),
                    )
                    &&& n > usize::MAX ==> r == Err::<HostArgsView, ArgsError>(
                        ArgsError::NotANumber(Flag::Frames),
                    )
                },
                None => r == Err::<HostArgsView, ArgsError>(
                    ArgsError::NotANumber(Flag::Frames),
                ),
            }
        }),
        ({
            let r = host_line(seq!["--fps"@, v] + rest, a);
            match crate::text::number_in(v) {
                Some(n) => {
                    &&& 1 <= n <= u32::MAX ==> r == host_line(
                        rest,
                        HostArgsView { fps: n as int, ..a },
                    )
                    &&& n < 1 ==> r == Err::<HostArgsView, ArgsError>(
                        ArgsError::TooSmall(Flag::Fps),
                    )
                    &&& n > u32::MAX ==> r == Err::<HostArgsView, ArgsError>(
                        ArgsError::NotANumber(Flag::Fps),
                    )
                },
                None => r == Err::<HostArgsView, ArgsError>(
                    ArgsError::NotANumber(Flag::Fps),
                ),
            }
        }),
        ({
            let r = host_line(seq!["--max-fragment-bytes"@, v] + rest, a);
            match crate::text::number_in(v) {
                Some(n) => {
                    &&& 1024 <= n <= usize::MAX ==> r == host_line(
                        rest,
                        HostArgsView { max_fragment_bytes: n as int, ..a },
                    )
                    &&& n < 1024 ==> r == Err::<HostArgsView, ArgsError>(
                        ArgsError::TooSmall(Flag::MaxFragmentBytes),
                    )
                    &&& n > usize::MAX ==> r == Err::<HostArgsView, ArgsError>(
                        ArgsError::NotANumber(Flag::MaxFragmentBytes),
                    )
                },
                None => r == Err::<HostArgsView, ArgsError>(
                    ArgsError::NotANumber(Flag::MaxFragmentBytes),
                ),
            }
        }),
{
    lemma_flag_words();
    assert((seq!["--frames"@, v] + rest).skip(2) =~= rest);
    assert((seq!["--frames"@, v] + rest)[0] == "--frames"@ && (seq!["--frames"@, v] + rest)[1] == v);
    assert((seq!["--fps"@, v] + rest).skip(2) =~= rest);
    assert((seq!["--fps"@, v] + rest)[0] == "--fps"@ && (seq!["--fps"@, v] + rest)[1] == v);
    assert((seq!["--max-fragment-bytes"@, v] + rest).skip(2) =~= rest);
    assert((seq!["--max-fragment-bytes"@, v] + rest)[0] == "--max-fragment-bytes"@ && (seq!["--max-fragment-bytes"@, v] + rest)[1] == v);
}

/// How the command line of a host that captures the screen is read. An empty line changes nothing; a word that is no flag is
/// passed over; and a flag sets its own value to the word behind it, and nothing else.
pub proof fn law_preview_line_is_read_in_order(
    v: Seq<char>,
    w: Seq<char>,
    rest: Seq<Seq<char>>,
    a: PreviewArgsView,
)
    requires
        w != "--signaling-url"@,
        w != "--session-id"@,
        w != "--bind"@,
        w != "--frames"@,
        w != "--fps"@,
        w != "--max-fragment-bytes"@,
        w != "--max-width"@,
        w != "--bitrate-kbps"@,
    ensures
        preview_line(Seq::empty(), a) == Ok::<PreviewArgsView, ArgsError>(a),
        preview_line(seq![w] + rest, a) == preview_line(rest, a),
        preview_line(seq!["--signaling-url"@, v] + rest, a) == preview_line(
            rest,
            PreviewArgsView { signaling_url: v, ..a },
        ),
        preview_line(seq!["--session-id"@, v] + rest, a) == preview_line(
            rest,
            PreviewArgsView { session_id_hex: v, ..a },
        ),
        preview_line(seq!["--bind"@, v] + rest, a) == preview_line(
            rest,
            PreviewArgsView { bind: v, ..a },
        ),
        preview_line(seq!["--signaling-url"@], a) == Err::<PreviewArgsView, ArgsError>(
            ArgsError::Missing(Flag::SignalingUrl),
        ),
        preview_line(seq!["--session-id"@], a) == Err::<PreviewArgsView, ArgsError>(
            ArgsError::Missing(Flag::SessionId),
        ),
        preview_line(seq!["--bind"@], a) == Err::<PreviewArgsView, ArgsError>(
            ArgsError::Missing(Flag::Bind),
        ),
        preview_line(seq!["--frames"@], a) == Err::<PreviewArgsView, ArgsError>(
            ArgsError::Missing(Flag::Frames),
        ),
        preview_line(seq!["--fps"@], a) == Err::<PreviewArgsView, ArgsError>(
            ArgsError::Missing(Flag::Fps),
        ),
        preview_line(seq!["--max-fragment-bytes"@], a) == Err::<PreviewArgsView, ArgsError>(
            ArgsError::Missing(Flag::MaxFragmentBytes),
        ),
        preview_line(seq!["--max-width"@], a) == Err::<PreviewArgsView, ArgsError>(
            ArgsError::Missing(Flag::MaxWidth),
        ),
        preview_line(seq!["--bitrate-kbps"@], a) == Err::<PreviewArgsView, ArgsError>(
            ArgsError::Missing(Flag::BitrateKbps),
        ),
{
    lemma_flag_words();
    assert((seq![w] + rest).skip(1) =~= rest);
    assert((seq![w] + rest)[0] == w);
    assert((seq!["--signaling-url"@, v] + rest).skip(2) =~= rest);
    assert((seq!["--signaling-url"@, v] + rest)[0] == "--signaling-url"@ && (seq!["--signaling-url"@, v] + rest)[1] == v);
    assert((seq!["--session-id"@, v] + rest).skip(2) =~= rest);
    assert((seq!["--session-id"@, v] + rest)[0] == "--session-id"@ && (seq!["--session-id"@, v] + rest)[1] == v);
    assert((seq!["--bind"@, v] + rest).skip(2) =~= rest);
    assert((seq!["--bind"@, v] + rest)[0] == "--bind"@ && (seq!["--bind"@, v] + rest)[1] == v);
}

/// The numbers on the command line of a host that captures the screen: each has to be a number from its least value on that fits
/// its field; what is no such number is refused, and so is one below the least.
pub proof fn law_preview_numbers(v: Seq<char>, rest: Seq<Seq<char>>, a: PreviewArgsView)
    ensures
        ({
            let r = preview_line(seq!["--frames"@, v] + rest, a);
            match crate::text::number_in(v) {
                Some(n) => {
                    &&& 0 <= n <= usize::MAX ==> r == preview_line(
                        rest,
                        PreviewArgsView { frames: n as int, ..a },
                    )
                    &&& n < 0 ==> r == Err::<PreviewArgsView, ArgsError>(
                        ArgsError::TooSmall(Flag::Frames),
                    )
                    &&& n > usize::MAX ==> r == Err::<PreviewArgsView, ArgsError>(
                        ArgsError::NotANumber(Flag::Frames),
                    )
                },
                None => r == Err::<PreviewArgsView, ArgsError>(
                    ArgsError::NotANumber(Flag::Frames),
                ),
            }
        }),
        ({
            let r = preview_line(seq!["--fps"@, v] + rest, a);
            match crate::text::number_in(v) {
                Some(n) => {
                    &&& 1 <= n <= u32::MAX ==> r == preview_line(
                        rest,
                        PreviewArgsView { fps: n as int, ..a },
                    )
                    &&& n < 1 ==> r == Err::<PreviewArgsView, ArgsError>(
                        ArgsError::TooSmall(Flag::Fps),
                    )
                    &&& n > u32::MAX ==> r == Err::<PreviewArgsView, ArgsError>(
                        ArgsError::NotANumber(Flag::Fps),
                    )
                },
                None => r == Err::<PreviewArgsView, ArgsError>(
                    ArgsError::NotANumber(Flag::Fps),
                ),
            }
        }),
        ({
            let r = preview_line(seq!["--max-fragment-bytes"@, v] + rest, a);
            match crate::text::number_in(v) {
                Some(n) => {
                    &&& 1024 <= n <= usize::MAX ==> r == preview_line(
                        rest,
                        PreviewArgsView { max_fragment_bytes: n as int, ..a },
                    )
                    &&& n < 1024 ==> r == Err::<PreviewArgsView, ArgsError>(
                        ArgsError::TooSmall(Flag::MaxFragmentBytes),
                    )
                    &&& n > usize::MAX ==> r == Err::<PreviewArgsView, ArgsError>(
                        ArgsError::NotANumber(Flag::MaxFragmentBytes),
                    )
                },
                None => r == Err::<PreviewArgsView, ArgsError>(
                    ArgsError::NotANumber(Flag::MaxFragmentBytes),
                ),
            }
        }),
        ({
            let r = preview_line(seq!["--max-width"@, v] + rest, a);
            match crate::text::number_in(v) {
                Some(n) => {
                    &&& 1 <= n <= u32::MAX ==> r == preview_line(
                        rest,
                        PreviewArgsView { max_width: n as int, ..a },
                    )
                    &&& n < 1 ==> r == Err::<PreviewArgsView, ArgsError>(
                        ArgsError::TooSmall(Flag::MaxWidth),
                    )
                    &&& n > u32::MAX ==> r == Err::<PreviewArgsView, ArgsError>(
                        ArgsError::NotANumber(Flag::MaxWidth),
                    )
                },
                None => r == Err::<PreviewArgsView, ArgsError>(
                    ArgsError::NotANumber(Flag::MaxWidth),
                ),
            }
        }),
        ({
            let r = preview_line(seq!["--bitrate-kbps"@, v] + rest, a);
            match crate::text::number_in(v) {
                Some(n) => {
                    &&& 1 <= n <= u32::MAX ==> r == preview_line(
                        rest,
                        PreviewArgsView { bitrate_kbps: n as int, ..a },
                    )
                    &&& n < 1 ==> r == Err::<PreviewArgsView, ArgsError>(
                        ArgsError::TooSmall(Flag::BitrateKbps),
                    )
                    &&& n > u32::MAX ==> r == Err::<PreviewArgsView, ArgsError>(
                        ArgsError::NotANumber(Flag::BitrateKbps),
                    )
                },
                None => r == Err::<PreviewArgsView, ArgsError>(
                    ArgsError::NotANumber(Flag::BitrateKbps),
                ),
            }
        }),
{
    lemma_flag_words();
    assert((seq!["--frames"@, v] + rest).skip(2) =~= rest);
    assert((seq!["--frames"@, v] + rest)[0] == "--frames"@ && (seq!["--frames"@, v] + rest)[1] == v);
    assert((seq!["--fps"@, v] + rest).skip(2) =~= rest);
    assert((seq!["--fps"@, v] + rest)[0] == "--fps"@ && (seq!["--fps"@, v] + rest)[1] == v);
    assert((seq!["--max-fragment-bytes"@, v] + rest).skip(2) =~= rest);
    assert((seq!["--max-fragment-bytes"@, v] + rest)[0] == "--max-fragment-bytes"@ && (seq!["--max-fragment-bytes"@, v] + rest)[1] == v);
    assert((seq!["--max-width"@, v] + rest).skip(2) =~= rest);
    assert((seq!["--max-width"@, v] + rest)[0] == "--max-width"@ && (seq!["--max-width"@, v] + rest)[1] == v);
    assert((seq!["--bitrate-kbps"@, v] + rest).skip(2) =~= rest);
    assert((seq!["--bitrate-kbps"@, v] + rest)[0] == "--bitrate-kbps"@ && (seq!["--bitrate-kbps"@, v] + rest)[1] == v);
}

/// What an empty command line stands for.
pub proof fn law_defaults()
    ensures
        host_defaults().signaling_url == "ws://127.0.0.1:8765"@,
        host_defaults().session_id_hex == "00000000000000000000000000000000"@,
        host_defaults().bind == "127.0.0.1:0"@,
        !host_defaults().stream_video,
        host_defaults().frames == 120,
        host_defaults().fps == 30,
        host_defaults().max_fragment_bytes == 65535,
        preview_defaults().signaling_url == host_defaults().signaling_url,
        preview_defaults().session_id_hex == host_defaults().session_id_hex,
        preview_defaults().bind == host_defaults().bind,
        preview_defaults().max_width == 3840,
        preview_defaults().bitrate_kbps == 4000,
        preview_defaults().fps == 30,
        preview_defaults().frames == usize::MAX,
        preview_defaults().max_fragment_bytes == 65535,
{
}

/// A server listens on the word behind the first `--addr`, whatever stands before it, and on a
/// default address when there is none. An `--addr` in the end is refused.
pub proof fn law_address_is_behind_the_first_flag(
    front: Seq<Seq<char>>,
    v: Seq<char>,
    rest: Seq<Seq<char>>,
)
    requires
        forall|i: int| 0 <= i < front.len() ==> #[trigger] front[i] != "--addr"@,
    ensures
        addr_in(front) == Ok::<Seq<char>, MissingAddr>("127.0.0.1:8765"@),
        addr_in(front + seq!["--addr"@, v] + rest) == Ok::<Seq<char>, MissingAddr>(v),
        addr_in(front.push("--addr"@)) is Err,
    decreases front.len(),
{
    if front.len() == 0 {
        assert((front + seq!["--addr"@, v] + rest)[0] == "--addr"@);
        assert((front + seq!["--addr"@, v] + rest)[1] == v);
        assert(front.push("--addr"@)[0] == "--addr"@);
    } else {
        let t = front.skip(1);
        assert forall|i: int| 0 <= i < t.len() implies #[trigger] t[i] != "--addr"@ by {
            assert(t[i] == front[i + 1]);
        }
        law_address_is_behind_the_first_flag(t, v, rest);
        assert(front[0] != "--addr"@);
        let all = front + seq!["--addr"@, v] + rest;
        assert(all[0] == front[0]);
        assert(all.skip(1) =~= t + seq!["--addr"@, v] + rest);
        assert(front.push("--addr"@)[0] == front[0]);
        assert(front.push("--addr"@).skip(1) =~= t.push("--addr"@));
    }
}

} // verus!
