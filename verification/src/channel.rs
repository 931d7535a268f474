//! The channel abstraction: the message vocabulary, per-direction
//! flow-control bookkeeping, the session-side per-channel state, the
//! consumer-facing handle with its request/response protocol, and a
//! buffering layer giving length-based reads and coalesced writes.

use vstd::prelude::*;

use tokio::sync::mpsc;

use crate::bytebuf::buf_advance;
use crate::bytebuf::buf_len;
use crate::bytebuf::buf_new;
use crate::bytebuf::buf_prefix;
use crate::bytebuf::buf_put;
use crate::bytebuf::buf_to_vec;
use crate::bytebuf::bview;
use crate::error::Error;
use crate::error::Result;
use crate::msg::Request;
use crate::pipe::await_completion;
use crate::pipe::clone_sender;
use crate::pipe::completion_pair;
use crate::pipe::pipe_recv;
use crate::pipe::pipe_send;
use crate::pipe::pipe_try_recv;
use crate::pipe::Pulled;
use bytes::BytesMut;

verus! {

/// A numeric reason code reported when a channel open is rejected, with the
/// standard connection-protocol values reachable as constructors.
#[derive(Debug, PartialEq, Eq, Structural, Clone, Copy)]
pub struct ChannelOpenFailureReson(pub u32);

impl ChannelOpenFailureReson {
    pub fn administratively_prohibited() -> (r: Self)
        ensures
            r.0 == 1,
    {
        ChannelOpenFailureReson(1)
    }

    pub fn connect_failed() -> (r: Self)
        ensures
            r.0 == 2,
    {
        ChannelOpenFailureReson(2)
    }

    pub fn unknown_channeltype() -> (r: Self)
        ensures
            r.0 == 3,
    {
        ChannelOpenFailureReson(3)
    }

    pub fn resource_shortage() -> (r: Self)
        ensures
            r.0 == 4,
    {
        ChannelOpenFailureReson(4)
    }
}

/// A symbolic signal name, as carried by a signal request.
#[derive(Debug, Clone, PartialEq, Eq, Hash)]
pub struct Signal(pub String);

impl Signal {
    pub const ABRT: &'static str = "ABRT";

    pub const FPE: &'static str = "FPE";

    pub const HUP: &'static str = "HUP";

    pub const ILL: &'static str = "ILL";

    pub const INT: &'static str = "INT";

    pub const KILL: &'static str = "KILL";

    pub const PIPE: &'static str = "PIPE";

    pub const QUIT: &'static str = "QUIT";

    pub const SEGV: &'static str = "SEGV";

    pub const TERM: &'static str = "TERM";

    pub const USR1: &'static str = "USR1";

    pub const USR2: &'static str = "USR2";
}

/// How a remote process ended: a plain exit code, or an interrupting signal
/// with its details.
#[derive(Debug, Clone)]
pub enum ExitStatus {
    Normal(u32),
    Interrupt { signal: Signal, core_dumped: bool, error_msg: String, tag: String },
}

impl ExitStatus {
    /// True exactly for a normal exit with code zero.
    pub fn success(&self) -> (r: bool)
        ensures
            r == (self is Normal && self->Normal_0 == 0),
    {
        match self {
            ExitStatus::Normal(code) => *code == 0,
            ExitStatus::Interrupt { .. } => false,
        }
    }
}

/// Everything the session may push onto a channel's message stream.
#[derive(Debug)]
pub enum Message {
    /// The channel was closed by the server; it can be neither read nor
    /// written any more.
    Close,
    /// No more data will be sent by the server.
    Eof,
    /// Standard-output payload.
    Stdout(Vec<u8>),
    /// Standard-error payload.
    Stderr(Vec<u8>),
    /// Sent when an executed process ends; it may arrive before Eof.
    Exit(ExitStatus),
}

/// A terminal mode opcode for a PTY request, paired with a value by callers.
#[allow(non_camel_case_types)]
#[derive(Debug, Clone, Copy, PartialEq, Eq, Structural)]
pub enum TerminalMode {
    VINTR,
    VQUIT,
    VERASE,
    VKILL,
    VEOF,
    VEOL,
    VEOL2,
    VSTART,
    VSTOP,
    VSUSP,
    VDSUSP,
    VREPRINT,
    VWERASE,
    VLNEXT,
    VFLUSH,
    VSWTCH,
    VSTATUS,
    VDISCARD,
    IGNPAR,
    PARMRK,
    INPCK,
    ISTRIP,
    INLCR,
    IGNCR,
    ICRNL,
    IUCLC,
    IXON,
    IXANY,
    IXOFF,
    IMAXBEL,
    ISIG,
    ICANON,
    XCASE,
    ECHO,
    ECHOE,
    ECHOK,
    ECHONL,
    NOFLSH,
    TOSTOP,
    IEXTEN,
    ECHOCTL,
    ECHOKE,
    PENDIN,
    OPOST,
    OLCUC,
    ONLCR,
    OCRNL,
    ONOCR,
    ONLRET,
    CS7,
    CS8,
    PARENB,
    PARODD,
    TTY_OP_ISPEED,
    TTY_OP_OSPEED,
}

impl TerminalMode {
    /// The numeric opcode of this mode on the wire.
    pub open spec fn opcode_spec(self) -> u8 {
        match self {
            TerminalMode::VINTR => 1,
            TerminalMode::VQUIT => 2,
            TerminalMode::VERASE => 3,
            TerminalMode::VKILL => 4,
            TerminalMode::VEOF => 5,
            TerminalMode::VEOL => 6,
            TerminalMode::VEOL2 => 7,
            TerminalMode::VSTART => 8,
            TerminalMode::VSTOP => 9,
            TerminalMode::VSUSP => 10,
            TerminalMode::VDSUSP => 11,
            TerminalMode::VREPRINT => 12,
            TerminalMode::VWERASE => 13,
            TerminalMode::VLNEXT => 14,
            TerminalMode::VFLUSH => 15,
            TerminalMode::VSWTCH => 16,
            TerminalMode::VSTATUS => 17,
            TerminalMode::VDISCARD => 18,
            TerminalMode::IGNPAR => 30,
            TerminalMode::PARMRK => 31,
            TerminalMode::INPCK => 32,
            TerminalMode::ISTRIP => 33,
            TerminalMode::INLCR => 34,
            TerminalMode::IGNCR => 35,
            TerminalMode::ICRNL => 36,
            TerminalMode::IUCLC => 37,
            TerminalMode::IXON => 38,
            TerminalMode::IXANY => 39,
            TerminalMode::IXOFF => 40,
            TerminalMode::IMAXBEL => 41,
            TerminalMode::ISIG => 50,
            TerminalMode::ICANON => 51,
            TerminalMode::XCASE => 52,
            TerminalMode::ECHO => 53,
            TerminalMode::ECHOE => 54,
            TerminalMode::ECHOK => 55,
            TerminalMode::ECHONL => 56,
            TerminalMode::NOFLSH => 57,
            TerminalMode::TOSTOP => 58,
            TerminalMode::IEXTEN => 59,
            TerminalMode::ECHOCTL => 60,
            TerminalMode::ECHOKE => 61,
            TerminalMode::PENDIN => 62,
            TerminalMode::OPOST => 70,
            TerminalMode::OLCUC => 71,
            TerminalMode::ONLCR => 72,
            TerminalMode::OCRNL => 73,
            TerminalMode::ONOCR => 74,
            TerminalMode::ONLRET => 75,
            TerminalMode::CS7 => 90,
            TerminalMode::CS8 => 91,
            TerminalMode::PARENB => 92,
            TerminalMode::PARODD => 93,
            TerminalMode::TTY_OP_ISPEED => 128,
            TerminalMode::TTY_OP_OSPEED => 129,
        }
    }

    /// The numeric opcode of this mode on the wire.
    pub fn opcode(self) -> (r: u8)
        ensures
            r == self.opcode_spec(),
    {
        match self {
            TerminalMode::VINTR => 1,
            TerminalMode::VQUIT => 2,
            TerminalMode::VERASE => 3,
            TerminalMode::VKILL => 4,
            TerminalMode::VEOF => 5,
            TerminalMode::VEOL => 6,
            TerminalMode::VEOL2 => 7,
            TerminalMode::VSTART => 8,
            TerminalMode::VSTOP => 9,
            TerminalMode::VSUSP => 10,
            TerminalMode::VDSUSP => 11,
            TerminalMode::VREPRINT => 12,
            TerminalMode::VWERASE => 13,
            TerminalMode::VLNEXT => 14,
            TerminalMode::VFLUSH => 15,
            TerminalMode::VSWTCH => 16,
            TerminalMode::VSTATUS => 17,
            TerminalMode::VDISCARD => 18,
            TerminalMode::IGNPAR => 30,
            TerminalMode::PARMRK => 31,
            TerminalMode::INPCK => 32,
            TerminalMode::ISTRIP => 33,
            TerminalMode::INLCR => 34,
            TerminalMode::IGNCR => 35,
            TerminalMode::ICRNL => 36,
            TerminalMode::IUCLC => 37,
            TerminalMode::IXON => 38,
            TerminalMode::IXANY => 39,
            TerminalMode::IXOFF => 40,
            TerminalMode::IMAXBEL => 41,
            TerminalMode::ISIG => 50,
            TerminalMode::ICANON => 51,
            TerminalMode::XCASE => 52,
            TerminalMode::ECHO => 53,
            TerminalMode::ECHOE => 54,
            TerminalMode::ECHOK => 55,
            TerminalMode::ECHONL => 56,
            TerminalMode::NOFLSH => 57,
            TerminalMode::TOSTOP => 58,
            TerminalMode::IEXTEN => 59,
            TerminalMode::ECHOCTL => 60,
            TerminalMode::ECHOKE => 61,
            TerminalMode::PENDIN => 62,
            TerminalMode::OPOST => 70,
            TerminalMode::OLCUC => 71,
            TerminalMode::ONLCR => 72,
            TerminalMode::OCRNL => 73,
            TerminalMode::ONOCR => 74,
            TerminalMode::ONLRET => 75,
            TerminalMode::CS7 => 90,
            TerminalMode::CS8 => 91,
            TerminalMode::PARENB => 92,
            TerminalMode::PARODD => 93,
            TerminalMode::TTY_OP_ISPEED => 128,
            TerminalMode::TTY_OP_OSPEED => 129,
        }
    }

    /// The mode a numeric opcode stands for, if any: the inverse of
    /// `opcode_spec` on its range, and None off it.
    pub open spec fn from_opcode_spec(value: u8) -> Option<TerminalMode> {
        if value == 1 {
            Some(TerminalMode::VINTR)
        } else if value == 2 {
            Some(TerminalMode::VQUIT)
        } else if value == 3 {
            Some(TerminalMode::VERASE)
        } else if value == 4 {
            Some(TerminalMode::VKILL)
        } else if value == 5 {
            Some(TerminalMode::VEOF)
        } else if value == 6 {
            Some(TerminalMode::VEOL)
        } else if value == 7 {
            Some(TerminalMode::VEOL2)
        } else if value == 8 {
            Some(TerminalMode::VSTART)
        } else if value == 9 {
            Some(TerminalMode::VSTOP)
        } else if value == 10 {
            Some(TerminalMode::VSUSP)
        } else if value == 11 {
            Some(TerminalMode::VDSUSP)
        } else if value == 12 {
            Some(TerminalMode::VREPRINT)
        } else if value == 13 {
            Some(TerminalMode::VWERASE)
        } else if value == 14 {
            Some(TerminalMode::VLNEXT)
        } else if value == 15 {
            Some(TerminalMode::VFLUSH)
        } else if value == 16 {
            Some(TerminalMode::VSWTCH)
        } else if value == 17 {
            Some(TerminalMode::VSTATUS)
        } else if value == 18 {
            Some(TerminalMode::VDISCARD)
        } else if value == 30 {
            Some(TerminalMode::IGNPAR)
        } else if value == 31 {
            Some(TerminalMode::PARMRK)
        } else if value == 32 {
            Some(TerminalMode::INPCK)
        } else if value == 33 {
            Some(TerminalMode::ISTRIP)
        } else if value == 34 {
            Some(TerminalMode::INLCR)
        } else if value == 35 {
            Some(TerminalMode::IGNCR)
        } else if value == 36 {
            Some(TerminalMode::ICRNL)
        } else if value == 37 {
            Some(TerminalMode::IUCLC)
        } else if value == 38 {
            Some(TerminalMode::IXON)
        } else if value == 39 {
            Some(TerminalMode::IXANY)
        } else if value == 40 {
            Some(TerminalMode::IXOFF)
        } else if value == 41 {
            Some(TerminalMode::IMAXBEL)
        } else if value == 50 {
            Some(TerminalMode::ISIG)
        } else if value == 51 {
            Some(TerminalMode::ICANON)
        } else if value == 52 {
            Some(TerminalMode::XCASE)
        } else if value == 53 {
            Some(TerminalMode::ECHO)
        } else if value == 54 {
            Some(TerminalMode::ECHOE)
        } else if value == 55 {
            Some(TerminalMode::ECHOK)
        } else if value == 56 {
            Some(TerminalMode::ECHONL)
        } else if value == 57 {
            Some(TerminalMode::NOFLSH)
        } else if value == 58 {
            Some(TerminalMode::TOSTOP)
        } else if value == 59 {
            Some(TerminalMode::IEXTEN)
        } else if value == 60 {
            Some(TerminalMode::ECHOCTL)
        } else if value == 61 {
            Some(TerminalMode::ECHOKE)
        } else if value == 62 {
            Some(TerminalMode::PENDIN)
        } else if value == 70 {
            Some(TerminalMode::OPOST)
        } else if value == 71 {
            Some(TerminalMode::OLCUC)
        } else if value == 72 {
            Some(TerminalMode::ONLCR)
        } else if value == 73 {
            Some(TerminalMode::OCRNL)
        } else if value == 74 {
            Some(TerminalMode::ONOCR)
        } else if value == 75 {
            Some(TerminalMode::ONLRET)
        } else if value == 90 {
            Some(TerminalMode::CS7)
        } else if value == 91 {
            Some(TerminalMode::CS8)
        } else if value == 92 {
            Some(TerminalMode::PARENB)
        } else if value == 93 {
            Some(TerminalMode::PARODD)
        } else if value == 128 {
            Some(TerminalMode::TTY_OP_ISPEED)
        } else if value == 129 {
            Some(TerminalMode::TTY_OP_OSPEED)
        } else {
            None
        }
    }

    /// The mode a numeric opcode stands for, if any.
    pub fn from_opcode(value: u8) -> (r: Option<TerminalMode>)
        ensures
            r == TerminalMode::from_opcode_spec(value),
            r is Some ==> (r->0).opcode_spec() == value,
    {
        match value {
            1 => Some(TerminalMode::VINTR),
            2 => Some(TerminalMode::VQUIT),
            3 => Some(TerminalMode::VERASE),
            4 => Some(TerminalMode::VKILL),
            5 => Some(TerminalMode::VEOF),
            6 => Some(TerminalMode::VEOL),
            7 => Some(TerminalMode::VEOL2),
            8 => Some(TerminalMode::VSTART),
            9 => Some(TerminalMode::VSTOP),
            10 => Some(TerminalMode::VSUSP),
            11 => Some(TerminalMode::VDSUSP),
            12 => Some(TerminalMode::VREPRINT),
            13 => Some(TerminalMode::VWERASE),
            14 => Some(TerminalMode::VLNEXT),
            15 => Some(TerminalMode::VFLUSH),
            16 => Some(TerminalMode::VSWTCH),
            17 => Some(TerminalMode::VSTATUS),
            18 => Some(TerminalMode::VDISCARD),
            30 => Some(TerminalMode::IGNPAR),
            31 => Some(TerminalMode::PARMRK),
            32 => Some(TerminalMode::INPCK),
            33 => Some(TerminalMode::ISTRIP),
            34 => Some(TerminalMode::INLCR),
            35 => Some(TerminalMode::IGNCR),
            36 => Some(TerminalMode::ICRNL),
            37 => Some(TerminalMode::IUCLC),
            38 => Some(TerminalMode::IXON),
            39 => Some(TerminalMode::IXANY),
            40 => Some(TerminalMode::IXOFF),
            41 => Some(TerminalMode::IMAXBEL),
            50 => Some(TerminalMode::ISIG),
            51 => Some(TerminalMode::ICANON),
            52 => Some(TerminalMode::XCASE),
            53 => Some(TerminalMode::ECHO),
            54 => Some(TerminalMode::ECHOE),
            55 => Some(TerminalMode::ECHOK),
            56 => Some(TerminalMode::ECHONL),
            57 => Some(TerminalMode::NOFLSH),
            58 => Some(TerminalMode::TOSTOP),
            59 => Some(TerminalMode::IEXTEN),
            60 => Some(TerminalMode::ECHOCTL),
            61 => Some(TerminalMode::ECHOKE),
            62 => Some(TerminalMode::PENDIN),
            70 => Some(TerminalMode::OPOST),
            71 => Some(TerminalMode::OLCUC),
            72 => Some(TerminalMode::ONLCR),
            73 => Some(TerminalMode::OCRNL),
            74 => Some(TerminalMode::ONOCR),
            75 => Some(TerminalMode::ONLRET),
            90 => Some(TerminalMode::CS7),
            91 => Some(TerminalMode::CS8),
            92 => Some(TerminalMode::PARENB),
            93 => Some(TerminalMode::PARODD),
            128 => Some(TerminalMode::TTY_OP_ISPEED),
            129 => Some(TerminalMode::TTY_OP_OSPEED),
            _ => None,
        }
    }
}

/// One direction's flow-control bookkeeping for a channel: remaining window
/// credit, bounded by the maximum, and the monotonic eof/closed flags.
#[derive(Debug, Clone, Copy)]
pub struct Endpoint {
    pub id: u32,
    pub initial: u32,
    pub size: u32,
    pub maximum: u32,
    pub eof: bool,
    pub closed: bool,
}

impl Endpoint {
    /// Window credit never exceeds the maximum.
    pub open spec fn wf(&self) -> bool {
        self.size <= self.maximum
    }

    pub fn new(id: u32, initial: u32, maximum: u32) -> (r: Self)
        requires
            initial <= maximum,
        ensures
            r.id == id,
            r.initial == initial,
            r.size == initial,
            r.maximum == maximum,
            !r.eof,
            !r.closed,
            r.wf(),
    {
        Endpoint { id, initial, size: initial, maximum, eof: false, closed: false }
    }

    /// A window adjust from the peer: credit grows by the advertised amount,
    /// saturating at the maximum.
    pub fn window_adjust(&mut self, amount: u32)
        requires
            old(self).wf(),
        ensures
            final(self).size == (if old(self).size + amount <= old(self).maximum {
                old(self).size + amount
            } else {
                old(self).maximum as int
            }),
            final(self).wf(),
            final(self).id == old(self).id,
            final(self).initial == old(self).initial,
            final(self).maximum == old(self).maximum,
            final(self).eof == old(self).eof,
            final(self).closed == old(self).closed,
    {
        let room = self.maximum - self.size;
        if amount < room {
            self.size = self.size + amount;
        } else {
            self.size = self.maximum;
        }
    }

    /// Grants a sender its next chunk: at most `want`, never more than the
    /// remaining credit, and debits the credit by exactly the grant. Writes
    /// larger than the window are thus split into window-sized chunks.
    pub fn take_window(&mut self, want: u32) -> (granted: u32)
        ensures
            granted == (if want <= old(self).size {
                want as int
            } else {
                old(self).size as int
            }),
            final(self).size == old(self).size - granted,
            final(self).id == old(self).id,
            final(self).initial == old(self).initial,
            final(self).maximum == old(self).maximum,
            final(self).eof == old(self).eof,
            final(self).closed == old(self).closed,
            old(self).wf() ==> final(self).wf(),
    {
        let granted = if want <= self.size {
            want
        } else {
            self.size
        };
        self.size = self.size - granted;
        granted
    }
}

/// Session-owned per-channel state: the two directions' bookkeeping plus the
/// sole sender of the channel's message stream.
pub struct ChannelInner {
    pub client: Endpoint,
    pub server: Endpoint,
    pub sender: mpsc::UnboundedSender<Message>,
}

impl ChannelInner {
    pub fn new(client: Endpoint, server: Endpoint, sender: mpsc::UnboundedSender<Message>) -> (r:
        Self)
        ensures
            r.client == client,
            r.server == server,
    {
        ChannelInner { client, server, sender }
    }

    /// The session decoded a close for this channel: the flag is set and a
    /// Close message is pushed best-effort, delivery failure ignored.
    pub fn server_close(&mut self)
        ensures
            final(self).server.closed,
            final(self).server.eof == old(self).server.eof,
            final(self).server.id == old(self).server.id,
            final(self).server.initial == old(self).server.initial,
            final(self).server.size == old(self).server.size,
            final(self).server.maximum == old(self).server.maximum,
            final(self).client == old(self).client,
    {
        self.server.closed = true;
        let _ = pipe_send(&self.sender, Message::Close);
    }

    /// The session decoded an eof for this channel: the flag is set and an
    /// Eof message is pushed best-effort, delivery failure ignored.
    pub fn server_eof(&mut self)
        ensures
            final(self).server.eof,
            final(self).server.closed == old(self).server.closed,
            final(self).server.id == old(self).server.id,
            final(self).server.initial == old(self).server.initial,
            final(self).server.size == old(self).server.size,
            final(self).server.maximum == old(self).server.maximum,
            final(self).client == old(self).client,
    {
        self.server.eof = true;
        let _ = pipe_send(&self.sender, Message::Eof);
    }
}

/// The detached, exclusive read-only half of a channel's message stream.
pub struct Receiver {
    recver: mpsc::UnboundedReceiver<Message>,
}

impl Receiver {
    /// Waits for the next message; fails as disconnected once the stream is
    /// closed and drained.
    ///
    /// Waits by blocking the calling thread: not for use from inside an
    /// async execution context.
    pub fn recv(&mut self) -> (r: Result<Message>)
        ensures
            r is Err ==> r->Err_0 is Disconnected,
    {
        match pipe_recv(&mut self.recver) {
            Some(msg) => Ok(msg),
            None => Err(Error::Disconnected),
        }
    }

    /// Never waits: distinguishes "nothing yet" (Ok(None)) from a stream
    /// whose sending half is gone (Err).
    pub fn try_recv(&mut self) -> (r: Result<Option<Message>>)
        ensures
            r is Err ==> r->Err_0 is Disconnected,
    {
        match pipe_try_recv(&mut self.recver) {
            Pulled::Item(msg) => Ok(Some(msg)),
            Pulled::Empty => Ok(None),
            Pulled::Closed => Err(Error::Disconnected),
        }
    }
}

/// The consumer handle of one channel. Every mutating operation builds a
/// request carrying a single-use completion slot, hands it to the session,
/// and waits for the answer. The stream and session fields move one-way from
/// present to absent; afterwards operations fail predictably.
pub struct Channel {
    pub(crate) id: u32,
    recver: Option<mpsc::UnboundedReceiver<Message>>,
    session: Option<mpsc::UnboundedSender<Request>>,
}

impl Channel {
    /// The immutable channel id, unique per connection.
    pub closed spec fn spec_id(&self) -> u32 {
        self.id
    }

    /// Whether this handle still owns the message stream.
    pub closed spec fn spec_has_receiver(&self) -> bool {
        self.recver is Some
    }

    /// Whether this handle can still reach the session.
    pub closed spec fn spec_has_session(&self) -> bool {
        self.session is Some
    }

    pub fn new(
        id: u32,
        channel: mpsc::UnboundedReceiver<Message>,
        session: mpsc::UnboundedSender<Request>,
    ) -> (r: Self)
        ensures
            r.spec_id() == id,
            r.spec_has_receiver(),
            r.spec_has_session(),
    {
        Channel { id, recver: Some(channel), session: Some(session) }
    }

    /// Moves the message stream out, leaving this handle write-only. The
    /// stream has one owner at a time: a second take yields nothing.
    pub fn take_receiver(&mut self) -> (r: Option<Receiver>)
        ensures
            r is Some <==> old(self).spec_has_receiver(),
            !final(self).spec_has_receiver(),
            final(self).spec_id() == old(self).spec_id(),
            final(self).spec_has_session() == old(self).spec_has_session(),
    {
        match self.recver.take() {
            Some(recver) => Some(Receiver { recver }),
            None => None,
        }
    }

    /// Whether the message stream is still owned by this handle.
    pub fn has_receiver(&self) -> (r: bool)
        ensures
            r == self.spec_has_receiver(),
    {
        self.recver.is_some()
    }

    /// Waits for the next message pushed by the session; fails if the stream
    /// was detached, or as disconnected once it is closed and drained.
    ///
    /// Waits by blocking the calling thread: not for use from inside an
    /// async execution context.
    pub fn recv(&mut self) -> (r: Result<Message>)
        ensures
            final(self).spec_id() == old(self).spec_id(),
            final(self).spec_has_receiver() == old(self).spec_has_receiver(),
            final(self).spec_has_session() == old(self).spec_has_session(),
            (r is Err && r->Err_0 is ChannelReceiverIsNone) <==> !old(self).spec_has_receiver(),
            r is Err ==> (r->Err_0 is ChannelReceiverIsNone || r->Err_0 is Disconnected),
    {
        match &mut self.recver {
            Some(recver) => match pipe_recv(recver) {
                Some(msg) => Ok(msg),
                None => Err(Error::Disconnected),
            },
            None => Err(Error::ChannelReceiverIsNone),
        }
    }

    /// Never waits: Ok(None) when nothing has arrived yet, an error when the
    /// stream was detached or its sending half is gone.
    pub fn try_recv(&mut self) -> (r: Result<Option<Message>>)
        ensures
            final(self).spec_id() == old(self).spec_id(),
            final(self).spec_has_receiver() == old(self).spec_has_receiver(),
            final(self).spec_has_session() == old(self).spec_has_session(),
            (r is Err && r->Err_0 is ChannelReceiverIsNone) <==> !old(self).spec_has_receiver(),
            r is Err ==> (r->Err_0 is ChannelReceiverIsNone || r->Err_0 is Disconnected),
    {
        match &mut self.recver {
            Some(recver) => match pipe_try_recv(recver) {
                Pulled::Item(msg) => Ok(Some(msg)),
                Pulled::Empty => Ok(None),
                Pulled::Closed => Err(Error::Disconnected),
            },
            None => Err(Error::ChannelReceiverIsNone),
        }
    }

    /// Hands a request to the session without waiting for its answer. Fails
    /// as a bad operation exactly when this handle was already neutered, and
    /// as disconnected when the session's request stream is gone.
    pub(crate) fn send_request(&self, msg: Request) -> (r: Result<()>)
        ensures
            (r is Err && r->Err_0 is BadOperation) <==> !self.spec_has_session(),
            r is Err ==> (r->Err_0 is BadOperation || r->Err_0 is Disconnected),
    {
        match &self.session {
            Some(session) => if pipe_send(session, msg) {
                Ok(())
            } else {
                Err(Error::Disconnected)
            },
            None => Err(Error::BadOperation { detail: "Channel has been closed" }),
        }
    }

    /// Another handle on the session's request stream, shared by every
    /// channel and listener of one connection.
    pub(crate) fn session(&self) -> (r: Result<mpsc::UnboundedSender<Request>>)
        ensures
            r is Ok <==> self.spec_has_session(),
            r is Err ==> r->Err_0 is BadOperation,
    {
        match &self.session {
            Some(session) => Ok(clone_sender(session)),
            None => Err(Error::BadOperation { detail: "Channel has been closed" }),
        }
    }

    /// Sends the close request, waits for confirmation, then neuters the
    /// handle so that the scope-exit cleanup has nothing left to do. On any
    /// failure the handle is dropped untouched, which still issues the
    /// fire-and-forget close; the session tolerates the duplicate.
    ///
    /// Waits by blocking the calling thread: not for use from inside an
    /// async execution context.
    pub fn close(self) -> (r: Result<()>)
        ensures
            !self.spec_has_session() ==> r is Err && r->Err_0 is BadOperation,
    {
        let mut this = self;
        let (sender, recver) = completion_pair();
        let request = Request::make_drop(this.id, Some(sender));
        match this.send_request(request) {
            Ok(()) => {},
            Err(e) => {
                return Err(e);
            },
        }
        match settle(await_completion(recver)) {
            Err(e) => Err(e),
            Ok(()) => {
                this.recver = None;
                this.session = None;
                Ok(())
            },
        }
    }

    /// Asks the session to deliver a signal to the remote process.
    ///
    /// Waits by blocking the calling thread: not for use from inside an
    /// async execution context.
    pub fn send_signal(&self, signal: Signal) -> (r: Result<()>)
        ensures
            !self.spec_has_session() ==> r is Err && r->Err_0 is BadOperation,
    {
        let (sender, recver) = completion_pair();
        let request = Request::make_send_signal(self.id, signal, sender);
        match self.send_request(request) {
            Ok(()) => {},
            Err(e) => {
                return Err(e);
            },
        }
        settle(await_completion(recver))
    }

    /// Asks the session to set an environment variable for the channel.
    ///
    /// Waits by blocking the calling thread: not for use from inside an
    /// async execution context.
    pub fn set_env(&self, name: String, value: Vec<u8>) -> (r: Result<()>)
        ensures
            !self.spec_has_session() ==> r is Err && r->Err_0 is BadOperation,
    {
        let (sender, recver) = completion_pair();
        let request = Request::make_set_env(self.id, name, value, sender);
        match self.send_request(request) {
            Ok(()) => {},
            Err(e) => {
                return Err(e);
            },
        }
        settle(await_completion(recver))
    }

    /// Asks the session to execute a command on the channel.
    ///
    /// Waits by blocking the calling thread: not for use from inside an
    /// async execution context.
    pub fn exec(&self, cmd: String) -> (r: Result<()>)
        ensures
            !self.spec_has_session() ==> r is Err && r->Err_0 is BadOperation,
    {
        let (sender, recver) = completion_pair();
        let request = Request::make_exec(self.id, cmd, sender);
        match self.send_request(request) {
            Ok(()) => {},
            Err(e) => {
                return Err(e);
            },
        }
        settle(await_completion(recver))
    }

    /// Hands outbound data to the session and returns how many bytes it
    /// actually accepted, which flow control may bound below the amount
    /// offered; all-or-nothing delivery requires looping.
    ///
    /// Waits by blocking the calling thread: not for use from inside an
    /// async execution context.
    pub fn write(&self, data: Vec<u8>) -> (r: Result<usize>)
        ensures
            !self.spec_has_session() ==> r is Err && r->Err_0 is BadOperation,
    {
        let (sender, recver) = completion_pair();
        let request = Request::make_write_stdout(self.id, data, sender);
        match self.send_request(request) {
            Ok(()) => {},
            Err(e) => {
                return Err(e);
            },
        }
        settle(await_completion(recver))
    }

    /// Tells the session no more data will be written from this side.
    ///
    /// Waits by blocking the calling thread: not for use from inside an
    /// async execution context.
    pub fn eof(&self) -> (r: Result<()>)
        ensures
            !self.spec_has_session() ==> r is Err && r->Err_0 is BadOperation,
    {
        let (sender, recver) = completion_pair();
        let request = Request::make_eof(self.id, sender);
        match self.send_request(request) {
            Ok(()) => {},
            Err(e) => {
                return Err(e);
            },
        }
        settle(await_completion(recver))
    }

    /// Asks the session to start a shell on the channel.
    ///
    /// Waits by blocking the calling thread: not for use from inside an
    /// async execution context.
    pub fn request_shell(&self) -> (r: Result<()>)
        ensures
            !self.spec_has_session() ==> r is Err && r->Err_0 is BadOperation,
    {
        let (sender, recver) = completion_pair();
        let request = Request::make_request_shell(self.id, sender);
        match self.send_request(request) {
            Ok(()) => {},
            Err(e) => {
                return Err(e);
            },
        }
        settle(await_completion(recver))
    }

    /// Asks the session for a PTY. The mode pairs travel in the request in
    /// their given order, each value verbatim.
    ///
    /// Waits by blocking the calling thread: not for use from inside an
    /// async execution context.
    pub fn request_pty(
        &self,
        term: String,
        columns: u32,
        rows: u32,
        width: u32,
        height: u32,
        terminal_modes: Vec<(TerminalMode, u32)>,
    ) -> (r: Result<()>)
        ensures
            !self.spec_has_session() ==> r is Err && r->Err_0 is BadOperation,
    {
        let (sender, recver) = completion_pair();
        let request = Request::make_request_pty(
            self.id,
            term,
            columns,
            rows,
            width,
            height,
            terminal_modes,
            sender,
        );
        match self.send_request(request) {
            Ok(()) => {},
            Err(e) => {
                return Err(e);
            },
        }
        settle(await_completion(recver))
    }

    /// Reports a changed terminal size to the session.
    ///
    /// Waits by blocking the calling thread: not for use from inside an
    /// async execution context.
    pub fn pty_change_size(&self, columns: u32, rows: u32, width: u32, height: u32) -> (r: Result<
        (),
    >)
        ensures
            !self.spec_has_session() ==> r is Err && r->Err_0 is BadOperation,
    {
        let (sender, recver) = completion_pair();
        let request = Request::make_pty_change_size(self.id, columns, rows, width, height, sender);
        match self.send_request(request) {
            Ok(()) => {},
            Err(e) => {
                return Err(e);
            },
        }
        settle(await_completion(recver))
    }

    /// Asks the session to forward X11 connections over this channel.
    ///
    /// Waits by blocking the calling thread: not for use from inside an
    /// async execution context.
    pub fn request_x11_forward(
        &self,
        single_connection: bool,
        protocol: String,
        cookie: String,
        screen_number: u32,
    ) -> (r: Result<()>)
        ensures
            !self.spec_has_session() ==> r is Err && r->Err_0 is BadOperation,
    {
        let (sender, recver) = completion_pair();
        let request = Request::make_x11_forward(
            self.id,
            single_connection,
            protocol,
            cookie,
            screen_number,
            sender,
        );
        match self.send_request(request) {
            Ok(()) => {},
            Err(e) => {
                return Err(e);
            },
        }
        settle(await_completion(recver))
    }

    /// Tells the session whether client-side flow control is allowed.
    ///
    /// Waits by blocking the calling thread: not for use from inside an
    /// async execution context.
    pub fn xon_xoff(&self, allow: bool) -> (r: Result<()>)
        ensures
            !self.spec_has_session() ==> r is Err && r->Err_0 is BadOperation,
    {
        let (sender, recver) = completion_pair();
        let request = Request::make_xon_xoff(self.id, allow, sender);
        match self.send_request(request) {
            Ok(()) => {},
            Err(e) => {
                return Err(e);
            },
        }
        settle(await_completion(recver))
    }
}

impl Drop for Channel {
    /// Scope-exit fallback: a handle not closed explicitly still sends a
    /// fire-and-forget close request; delivery failure is ignored, as the
    /// session may already be gone.
    fn drop(&mut self)
        opens_invariants none
        no_unwind
    {
        match &self.session {
            Some(session) => {
                let _ = pipe_send(session, Request::ChannelDrop { id: self.id, sender: None });
            },
            None => {},
        }
    }
}

/// How one awaited completion outcome is read: a slot the session resolved
/// yields the session's own verdict; a slot dropped unresolved means the
/// session is gone, reported as disconnected and never conflated with an
/// application-level failure.
pub(crate) fn settle<T>(outcome: Option<Result<T>>) -> (r: Result<T>)
    ensures
        outcome is Some ==> r == outcome->0,
        outcome is None ==> r is Err && r->Err_0 is Disconnected,
{
    match outcome {
        Some(res) => res,
        None => Err(Error::Disconnected),
    }
}

/// A buffering layer over a channel: length-based blocking reads from a
/// stdout buffer, a silently accumulating stderr buffer, and coalesced
/// writes through a pending outbound buffer.
pub struct BufferChannel {
    channel: Channel,
    stdout: BytesMut,
    stderr: BytesMut,
    stdin: BytesMut,
    closed: bool,
    eof: bool,
}

impl BufferChannel {
    /// The buffered stdout bytes, arrival order kept.
    pub closed spec fn stdout_view(&self) -> Seq<u8> {
        bview(self.stdout)
    }

    /// The silently accumulated stderr bytes.
    pub closed spec fn stderr_view(&self) -> Seq<u8> {
        bview(self.stderr)
    }

    /// The outbound bytes not yet accepted by the session.
    pub closed spec fn stdin_view(&self) -> Seq<u8> {
        bview(self.stdin)
    }

    /// Whether a Close was observed: terminal, sticky.
    pub closed spec fn is_closed(&self) -> bool {
        self.closed
    }

    /// Whether an Eof was observed: terminal for reads, sticky.
    pub closed spec fn is_eof(&self) -> bool {
        self.eof
    }

    /// The wrapped channel.
    pub closed spec fn inner_channel(&self) -> Channel {
        self.channel
    }

    pub fn new(channel: Channel) -> (r: Self)
        ensures
            r.stdout_view() == Seq::<u8>::empty(),
            r.stderr_view() == Seq::<u8>::empty(),
            r.stdin_view() == Seq::<u8>::empty(),
            !r.is_closed(),
            !r.is_eof(),
            r.inner_channel() == channel,
    {
        BufferChannel {
            channel,
            stdout: buf_new(),
            stderr: buf_new(),
            stdin: buf_new(),
            closed: false,
            eof: false,
        }
    }

    /// Gives the wrapped channel back; buffered bytes are discarded.
    pub fn into_inner(self) -> (r: Channel)
        ensures
            r == self.inner_channel(),
    {
        self.channel
    }

    /// Classifies one inbound message. Stdout appends to the read buffer and
    /// decides the pending read; Stderr accumulates silently; Exit is
    /// consumed and ignored; Close and Eof set their sticky flag and decide
    /// the read with the matching terminal failure.
    pub fn absorb(&mut self, msg: Message) -> (r: Option<Result<()>>)
        ensures
            final(self).stdin_view() == old(self).stdin_view(),
            final(self).inner_channel() == old(self).inner_channel(),
            msg is Stdout ==> {
                &&& r == Some(Ok::<(), Error>(()))
                &&& final(self).stdout_view() == old(self).stdout_view() + msg->Stdout_0@
                &&& final(self).stderr_view() == old(self).stderr_view()
                &&& final(self).is_closed() == old(self).is_closed()
                &&& final(self).is_eof() == old(self).is_eof()
            },
            msg is Stderr ==> {
                &&& r is None
                &&& final(self).stderr_view() == old(self).stderr_view() + msg->Stderr_0@
                &&& final(self).stdout_view() == old(self).stdout_view()
                &&& final(self).is_closed() == old(self).is_closed()
                &&& final(self).is_eof() == old(self).is_eof()
            },
            msg is Exit ==> r is None && *final(self) == *old(self),
            msg is Close ==> {
                &&& r == Some(Err::<(), Error>(Error::ChannelClosed))
                &&& final(self).is_closed()
                &&& final(self).is_eof() == old(self).is_eof()
                &&& final(self).stdout_view() == old(self).stdout_view()
                &&& final(self).stderr_view() == old(self).stderr_view()
            },
            msg is Eof ==> {
                &&& r == Some(Err::<(), Error>(Error::ChannelEof))
                &&& final(self).is_eof()
                &&& final(self).is_closed() == old(self).is_closed()
                &&& final(self).stdout_view() == old(self).stdout_view()
                &&& final(self).stderr_view() == old(self).stderr_view()
            },
    {
        match msg {
            Message::Close => {
                self.closed = true;
                Some(Err(Error::ChannelClosed))
            },
            Message::Eof => {
                self.eof = true;
                Some(Err(Error::ChannelEof))
            },
            Message::Stdout(data) => {
                buf_put(&mut self.stdout, data.as_slice());
                Some(Ok(()))
            },
            Message::Stderr(data) => {
                buf_put(&mut self.stderr, data.as_slice());
                None
            },
            Message::Exit(_) => None,
        }
    }

    /// Blocks until `len` bytes of stdout are buffered and returns exactly
    /// the first `len`, in arrival order, without consuming them: while the
    /// target is not reached it pulls and classifies the next message, as
    /// `absorb` says. Fails with the matching terminal error whenever the
    /// target is out of reach, and then hands out no data at all.
    ///
    /// Waits by blocking the calling thread: not for use from inside an
    /// async execution context.
    pub fn fill(&mut self, len: usize) -> (r: Result<Vec<u8>>)
        ensures
            final(self).stdin_view() == old(self).stdin_view(),
            final(self).inner_channel().spec_id() == old(self).inner_channel().spec_id(),
            final(self).inner_channel().spec_has_receiver() == old(
                self,
            ).inner_channel().spec_has_receiver(),
            final(self).inner_channel().spec_has_session() == old(
                self,
            ).inner_channel().spec_has_session(),
            old(self).stdout_view().is_prefix_of(final(self).stdout_view()),
            old(self).stderr_view().is_prefix_of(final(self).stderr_view()),
            old(self).is_closed() ==> final(self).is_closed(),
            old(self).is_eof() ==> final(self).is_eof(),
            old(self).is_closed() && old(self).stdout_view().len() < len ==> *final(self) == *old(self),
            !old(self).is_closed() && old(self).is_eof() && old(self).stdout_view().len() < len
                ==> *final(self) == *old(self),
            r is Ok ==> r->Ok_0@ == final(self).stdout_view().take(len as int)
                && final(self).stdout_view().len() >= len
                && final(self).is_closed() == old(self).is_closed()
                && final(self).is_eof() == old(self).is_eof(),
            old(self).stdout_view().len() >= len ==> r is Ok && *final(self) == *old(self),
            r is Err ==> final(self).stdout_view().len() < len,
            r is Err ==> (r->Err_0 is ChannelClosed || r->Err_0 is ChannelEof || r->Err_0 is
                Disconnected || r->Err_0 is ChannelReceiverIsNone),
            r is Err && r->Err_0 is ChannelClosed ==> final(self).is_closed(),
            r is Err && r->Err_0 is ChannelEof ==> final(self).is_eof(),
            old(self).is_closed() && old(self).stdout_view().len() < len ==> r is Err && r->Err_0 is
                ChannelClosed,
            !old(self).is_closed() && old(self).is_eof() && old(self).stdout_view().len() < len
                ==> r is Err && r->Err_0 is ChannelEof,
    {
        if buf_len(&self.stdout) >= len {
            let out = buf_prefix(&self.stdout, len);
            return Ok(out);
        }
        if self.closed {
            return Err(Error::ChannelClosed);
        }
        if self.eof {
            return Err(Error::ChannelEof);
        }
        // The session would have to push this many messages that bring the
        // target no closer before one call gives the stream up as dead.
        let mut patience: usize = usize::MAX;
        loop
            invariant
                self.stdout_view().len() < len,
                !self.is_closed(),
                !self.is_eof(),
                !old(self).is_closed(),
                !old(self).is_eof(),
                self.stdin_view() == old(self).stdin_view(),
                self.inner_channel().spec_id() == old(self).inner_channel().spec_id(),
                self.inner_channel().spec_has_receiver() == old(
                    self,
                ).inner_channel().spec_has_receiver(),
                self.inner_channel().spec_has_session() == old(
                    self,
                ).inner_channel().spec_has_session(),
                old(self).stdout_view().is_prefix_of(self.stdout_view()),
                old(self).stderr_view().is_prefix_of(self.stderr_view()),
            decreases len - self.stdout_view().len(), patience,
        {
            let before = buf_len(&self.stdout);
            let msg = match self.channel.recv() {
                Ok(msg) => msg,
                Err(e) => {
                    return Err(e);
                },
            };
            match self.absorb(msg) {
                Some(Ok(())) => {},
                Some(Err(e)) => {
                    return Err(e);
                },
                None => {},
            }
            let now = buf_len(&self.stdout);
            if now >= len {
                let out = buf_prefix(&self.stdout, len);
                return Ok(out);
            }
            if now > before {
                patience = usize::MAX;
            } else {
                if patience == 0 {
                    return Err(Error::Disconnected);
                }
                patience = patience - 1;
            }
        }
    }

    /// Advances past `len` already-filled bytes; a prior successful
    /// `fill` of at least `len` is what guarantees they are buffered.
    pub fn consume(&mut self, len: usize)
        requires
            len <= old(self).stdout_view().len(),
        ensures
            final(self).stdout_view() == old(self).stdout_view().skip(len as int),
            final(self).stderr_view() == old(self).stderr_view(),
            final(self).stdin_view() == old(self).stdin_view(),
            final(self).is_closed() == old(self).is_closed(),
            final(self).is_eof() == old(self).is_eof(),
            final(self).inner_channel() == old(self).inner_channel(),
    {
        buf_advance(&mut self.stdout, len);
    }

    /// Drops from the front of the pending buffer exactly what the session
    /// accepted, clamped at the pending length: the count is the session's
    /// own answer and is never trusted past what is actually buffered.
    fn drop_accepted(&mut self, accepted: usize)
        ensures
            final(self).stdin_view() == old(self).stdin_view().skip(
                if accepted <= old(self).stdin_view().len() {
                    accepted as int
                } else {
                    old(self).stdin_view().len() as int
                },
            ),
            final(self).stdout_view() == old(self).stdout_view(),
            final(self).stderr_view() == old(self).stderr_view(),
            final(self).is_closed() == old(self).is_closed(),
            final(self).is_eof() == old(self).is_eof(),
            final(self).inner_channel() == old(self).inner_channel(),
    {
        let have = buf_len(&self.stdin);
        let granted = if accepted < have {
            accepted
        } else {
            have
        };
        buf_advance(&mut self.stdin, granted);
    }

    /// Appends the data to the pending outbound buffer and makes exactly one
    /// write attempt; whatever the session did not accept stays pending,
    /// dropped only up to the count the session answered. Fails at once when
    /// already closed.
    ///
    /// Waits by blocking the calling thread: not for use from inside an
    /// async execution context.
    pub fn write(&mut self, data: &[u8]) -> (r: Result<()>)
        ensures
            final(self).stdout_view() == old(self).stdout_view(),
            final(self).stderr_view() == old(self).stderr_view(),
            final(self).is_closed() == old(self).is_closed(),
            final(self).is_eof() == old(self).is_eof(),
            final(self).inner_channel() == old(self).inner_channel(),
            old(self).is_closed() ==> r is Err && r->Err_0 is ChannelClosed && *final(self) == *old(self),
            r is Ok ==> exists|k: int|
                0 <= k <= old(self).stdin_view().len() + data@.len() && final(self).stdin_view()
                    == (old(self).stdin_view() + data@).skip(k),
            r is Err && !old(self).is_closed() ==> final(self).stdin_view() == old(
                self,
            ).stdin_view() + data@,
    {
        if self.closed {
            return Err(Error::ChannelClosed);
        }
        buf_put(&mut self.stdin, data);
        let pending = buf_to_vec(&self.stdin);
        let accepted = match self.channel.write(pending) {
            Ok(accepted) => accepted,
            Err(e) => {
                return Err(e);
            },
        };
        self.drop_accepted(accepted);
        proof {
            let total = old(self).stdin_view() + data@;
            let k: int = if accepted <= total.len() {
                accepted as int
            } else {
                total.len() as int
            };
            assert(self.stdin_view() == total.skip(k));
        }
        Ok(())
    }

    /// Appends the data, then writes until nothing is pending: on success the
    /// outbound buffer is empty. Fails at once when already closed; a session
    /// answer accepting none of a nonempty buffer counts as a dead session.
    ///
    /// Waits by blocking the calling thread: not for use from inside an
    /// async execution context.
    pub fn write_all(&mut self, data: &[u8]) -> (r: Result<()>)
        ensures
            final(self).stdout_view() == old(self).stdout_view(),
            final(self).stderr_view() == old(self).stderr_view(),
            final(self).is_closed() == old(self).is_closed(),
            final(self).is_eof() == old(self).is_eof(),
            final(self).inner_channel() == old(self).inner_channel(),
            old(self).is_closed() ==> r is Err && r->Err_0 is ChannelClosed && *final(self) == *old(self),
            r is Ok ==> final(self).stdin_view().len() == 0,
            !old(self).is_closed() ==> exists|k: int|
                0 <= k <= old(self).stdin_view().len() + data@.len() && final(self).stdin_view()
                    == (old(self).stdin_view() + data@).skip(k),
    {
        if self.closed {
            return Err(Error::ChannelClosed);
        }
        buf_put(&mut self.stdin, data);
        let ghost total = old(self).stdin_view() + data@;
        proof {
            assert(self.stdin_view() == total.skip(0));
        }
        loop
            invariant
                self.stdout_view() == old(self).stdout_view(),
                self.stderr_view() == old(self).stderr_view(),
                self.is_closed() == old(self).is_closed(),
                self.is_eof() == old(self).is_eof(),
                self.inner_channel() == old(self).inner_channel(),
                !old(self).is_closed(),
                total == old(self).stdin_view() + data@,
                exists|k: int| 0 <= k <= total.len() && self.stdin_view() == total.skip(k),
            decreases self.stdin_view().len(),
        {
            if buf_len(&self.stdin) == 0 {
                return Ok(());
            }
            let pending = buf_to_vec(&self.stdin);
            let accepted = match self.channel.write(pending) {
                Ok(accepted) => accepted,
                Err(e) => {
                    return Err(e);
                },
            };
            if accepted == 0 {
                return Err(Error::Disconnected);
            }
            let ghost pre = self.stdin_view();
            self.drop_accepted(accepted);
            proof {
                let g: int = if accepted <= pre.len() {
                    accepted as int
                } else {
                    pre.len() as int
                };
                let k0 = choose|k: int| 0 <= k <= total.len() && pre == total.skip(k);
                assert(total.skip(k0).skip(g) =~= total.skip(k0 + g));
                assert(self.stdin_view() == total.skip(k0 + g));
            }
        }
    }

    /// Writes until nothing is pending, whether or not a close was observed:
    /// a close mid-stream surfaces only through the underlying write's own
    /// failure. On success the outbound buffer is empty; a session answer
    /// accepting none of a nonempty buffer counts as a dead session.
    ///
    /// Waits by blocking the calling thread: not for use from inside an
    /// async execution context.
    pub fn flush(&mut self) -> (r: Result<()>)
        ensures
            final(self).stdout_view() == old(self).stdout_view(),
            final(self).stderr_view() == old(self).stderr_view(),
            final(self).is_closed() == old(self).is_closed(),
            final(self).is_eof() == old(self).is_eof(),
            final(self).inner_channel() == old(self).inner_channel(),
            r is Ok ==> final(self).stdin_view().len() == 0,
            old(self).stdin_view().len() == 0 ==> r is Ok && *final(self) == *old(self),
            exists|k: int|
                0 <= k <= old(self).stdin_view().len() && final(self).stdin_view() == old(
                    self,
                ).stdin_view().skip(k),
    {
        if buf_len(&self.stdin) == 0 {
            proof {
                assert(self.stdin_view() == old(self).stdin_view().skip(0));
            }
            return Ok(());
        }
        let ghost total = old(self).stdin_view();
        proof {
            assert(self.stdin_view() == total.skip(0));
        }
        loop
            invariant
                self.stdout_view() == old(self).stdout_view(),
                self.stderr_view() == old(self).stderr_view(),
                self.is_closed() == old(self).is_closed(),
                self.is_eof() == old(self).is_eof(),
                self.inner_channel() == old(self).inner_channel(),
                total == old(self).stdin_view(),
                total.len() > 0,
                exists|k: int| 0 <= k <= total.len() && self.stdin_view() == total.skip(k),
            decreases self.stdin_view().len(),
        {
            if buf_len(&self.stdin) == 0 {
                return Ok(());
            }
            let pending = buf_to_vec(&self.stdin);
            let accepted = match self.channel.write(pending) {
                Ok(accepted) => accepted,
                Err(e) => {
                    return Err(e);
                },
            };
            if accepted == 0 {
                return Err(Error::Disconnected);
            }
            let ghost pre = self.stdin_view();
            self.drop_accepted(accepted);
            proof {
                let g: int = if accepted <= pre.len() {
                    accepted as int
                } else {
                    pre.len() as int
                };
                let k0 = choose|k: int| 0 <= k <= total.len() && pre == total.skip(k);
                assert(total.skip(k0).skip(g) =~= total.skip(k0 + g));
                assert(self.stdin_view() == total.skip(k0 + g));
            }
        }
    }
}

/// The two opcode tables agree: decoding a mode's own opcode on the wire
/// gives exactly that mode back.
pub proof fn lemma_opcode_round_trip(mode: TerminalMode)
    ensures
        TerminalMode::from_opcode_spec(mode.opcode_spec()) == Some(mode),
{
}

/// Stdout payloads absorbed one arrival at a time accumulate as their
/// concatenation in arrival order, and a fill of the combined length hands
/// back exactly that concatenation: here for two arrivals into an empty
/// buffer, each `absorb` appending its payload and `fill` taking the prefix.
pub proof fn lemma_fill_sees_arrival_order(first: Seq<u8>, second: Seq<u8>)
    ensures
        ((Seq::<u8>::empty() + first) + second).take((first.len() + second.len()) as int) == first
            + second,
{
    assert(((Seq::<u8>::empty() + first) + second).take((first.len() + second.len()) as int) =~= first
        + second);
}

/// Once the first `len` bytes of the buffered stream are consumed, any later
/// read of `m` bytes sees exactly the positions `len .. len + m` of the
/// overall arrival stream: consumed bytes are never handed out again.
pub proof fn lemma_consumed_bytes_not_returned(
    buffered: Seq<u8>,
    arrived: Seq<u8>,
    len: int,
    m: int,
)
    requires
        0 <= len <= buffered.len(),
        0 <= m <= buffered.len() - len + arrived.len(),
    ensures
        (buffered.skip(len) + arrived).take(m) == (buffered + arrived).subrange(len, len + m),
{
    assert((buffered.skip(len) + arrived).take(m) =~= (buffered + arrived).subrange(len, len + m));
}

/// A successful underlying write strictly shrinks a nonempty pending buffer,
/// as long as the session accepted at least one byte; the pending length
/// never goes below zero.
pub proof fn lemma_pending_shrinks(pending: Seq<u8>, accepted: int)
    requires
        1 <= accepted,
        pending.len() > 0,
    ensures
        pending.skip(
            if accepted <= pending.len() {
                accepted
            } else {
                pending.len() as int
            },
        ).len() < pending.len(),
{
}

} // verus!
