//! The outbound half of the boundary protocol with the session: every
//! mutating channel or listener operation is one of these requests, carrying
//! the channel id, the operation's parameters, and a single-use completion
//! slot that the session resolves with the outcome.

use vstd::prelude::*;

use tokio::sync::oneshot;

use crate::channel::Signal;
use crate::channel::TerminalMode;
use crate::error::Result;
use crate::forward::SocketAddr;

verus! {

/// One request to the session. The close and cancel variants may carry no
/// completion slot: that is the fire-and-forget cleanup issued on scope
/// exit, whose outcome nobody awaits.
pub enum Request {
    ChannelDrop { id: u32, sender: Option<oneshot::Sender<Result<()>>> },
    ChannelSendSignal { id: u32, signal: Signal, sender: oneshot::Sender<Result<()>> },
    ChannelSetEnv { id: u32, name: String, value: Vec<u8>, sender: oneshot::Sender<Result<()>> },
    ChannelExec { id: u32, cmd: String, sender: oneshot::Sender<Result<()>> },
    ChannelWriteStdout { id: u32, data: Vec<u8>, sender: oneshot::Sender<Result<usize>> },
    ChannelEof { id: u32, sender: oneshot::Sender<Result<()>> },
    ChannelRequestShell { id: u32, sender: oneshot::Sender<Result<()>> },
    ChannelRequestPty {
        id: u32,
        term: String,
        columns: u32,
        rows: u32,
        width: u32,
        height: u32,
        terminal_modes: Vec<(TerminalMode, u32)>,
        sender: oneshot::Sender<Result<()>>,
    },
    ChannelPtyChangeSize {
        id: u32,
        columns: u32,
        rows: u32,
        width: u32,
        height: u32,
        sender: oneshot::Sender<Result<()>>,
    },
    X11Forward {
        id: u32,
        single_connection: bool,
        protocol: String,
        cookie: String,
        screen_number: u32,
        sender: oneshot::Sender<Result<()>>,
    },
    XonXoff { id: u32, allow: bool, sender: oneshot::Sender<Result<()>> },
    CancelTcpipForward { address: SocketAddr, sender: Option<oneshot::Sender<Result<()>>> },
}

/// Contracted constructors: each builds exactly the request its caller hands
/// to the session, every field verbatim, so what goes out on the wire side of
/// the boundary is pinned by an `ensures` rather than read off a body.
impl Request {
    pub fn make_drop(id: u32, sender: Option<oneshot::Sender<Result<()>>>) -> (r: Request)
        ensures
            r == (Request::ChannelDrop { id, sender }),
    {
        Request::ChannelDrop { id, sender }
    }

    pub fn make_send_signal(id: u32, signal: Signal, sender: oneshot::Sender<Result<()>>) -> (r:
        Request)
        ensures
            r == (Request::ChannelSendSignal { id, signal, sender }),
    {
        Request::ChannelSendSignal { id, signal, sender }
    }

    pub fn make_set_env(
        id: u32,
        name: String,
        value: Vec<u8>,
        sender: oneshot::Sender<Result<()>>,
    ) -> (r: Request)
        ensures
            r == (Request::ChannelSetEnv { id, name, value, sender }),
    {
        Request::ChannelSetEnv { id, name, value, sender }
    }

    pub fn make_exec(id: u32, cmd: String, sender: oneshot::Sender<Result<()>>) -> (r: Request)
        ensures
            r == (Request::ChannelExec { id, cmd, sender }),
    {
        Request::ChannelExec { id, cmd, sender }
    }

    pub fn make_write_stdout(id: u32, data: Vec<u8>, sender: oneshot::Sender<Result<usize>>) -> (r:
        Request)
        ensures
            r == (Request::ChannelWriteStdout { id, data, sender }),
    {
        Request::ChannelWriteStdout { id, data, sender }
    }

    pub fn make_eof(id: u32, sender: oneshot::Sender<Result<()>>) -> (r: Request)
        ensures
            r == (Request::ChannelEof { id, sender }),
    {
        Request::ChannelEof { id, sender }
    }

    pub fn make_request_shell(id: u32, sender: oneshot::Sender<Result<()>>) -> (r: Request)
        ensures
            r == (Request::ChannelRequestShell { id, sender }),
    {
        Request::ChannelRequestShell { id, sender }
    }

    /// The terminal mode pairs travel in their given order, each value
    /// verbatim.
    pub fn make_request_pty(
        id: u32,
        term: String,
        columns: u32,
        rows: u32,
        width: u32,
        height: u32,
        terminal_modes: Vec<(TerminalMode, u32)>,
        sender: oneshot::Sender<Result<()>>,
    ) -> (r: Request)
        ensures
            r == (Request::ChannelRequestPty {
                id,
                term,
                columns,
                rows,
                width,
                height,
                terminal_modes,
                sender,
            }),
    {
        Request::ChannelRequestPty { id, term, columns, rows, width, height, terminal_modes, sender }
    }

    pub fn make_pty_change_size(
        id: u32,
        columns: u32,
        rows: u32,
        width: u32,
        height: u32,
        sender: oneshot::Sender<Result<()>>,
    ) -> (r: Request)
        ensures
            r == (Request::ChannelPtyChangeSize { id, columns, rows, width, height, sender }),
    {
        Request::ChannelPtyChangeSize { id, columns, rows, width, height, sender }
    }

    pub fn make_x11_forward(
        id: u32,
        single_connection: bool,
        protocol: String,
        cookie: String,
        screen_number: u32,
        sender: oneshot::Sender<Result<()>>,
    ) -> (r: Request)
        ensures
            r == (Request::X11Forward {
                id,
                single_connection,
                protocol,
                cookie,
                screen_number,
                sender,
            }),
    {
        Request::X11Forward { id, single_connection, protocol, cookie, screen_number, sender }
    }

    pub fn make_xon_xoff(id: u32, allow: bool, sender: oneshot::Sender<Result<()>>) -> (r: Request)
        ensures
            r == (Request::XonXoff { id, allow, sender }),
    {
        Request::XonXoff { id, allow, sender }
    }

    pub fn make_cancel_tcpip_forward(
        address: SocketAddr,
        sender: Option<oneshot::Sender<Result<()>>>,
    ) -> (r: Request)
        ensures
            r == (Request::CancelTcpipForward { address, sender }),
    {
        Request::CancelTcpipForward { address, sender }
    }
}

} // verus!
