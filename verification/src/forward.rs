//! The port-forwarding layer: a `Stream` wraps a channel as one tunneled TCP
//! connection, and a `Listener` yields inbound streams for a registered bind
//! address until it is cancelled.

use vstd::prelude::*;

use tokio::sync::mpsc;

use crate::channel::settle;
use crate::channel::Channel;
use crate::channel::Message;
use crate::error::Error;
use crate::error::Result;
use crate::msg::Request;
use crate::pipe::await_completion;
use crate::pipe::completion_pair;
use crate::pipe::pipe_recv;
use crate::pipe::pipe_send;

verus! {

/// A forwarding endpoint: host and port, with the usual any-address and
/// localhost names as constants.
#[derive(Debug, Clone, PartialEq, Eq, Hash)]
pub struct SocketAddr {
    pub host: String,
    pub port: u32,
}

impl SocketAddr {
    pub const ALL: &'static str = "";

    pub const IPV4_ALL: &'static str = "0.0.0.0";

    pub const IPV6_ALL: &'static str = "::";

    pub const LOCALHOST: &'static str = "localhost";

    pub const IPV4_LOCALHOST: &'static str = "127.0.0.1";

    pub const IPV6_LOCALHOST: &'static str = "::1";

    pub fn new(host: String, port: u32) -> (r: Self)
        ensures
            r.host == host,
            r.port == port,
    {
        SocketAddr { host, port }
    }
}

/// One tunneled TCP connection, carried by a channel.
pub struct Stream {
    channel: Channel,
    address: SocketAddr,
}

impl Stream {
    /// The peer address this stream was opened for.
    pub closed spec fn spec_address(&self) -> SocketAddr {
        self.address
    }

    /// The wrapped channel.
    pub closed spec fn spec_channel(&self) -> Channel {
        self.channel
    }

    pub fn new(channel: Channel, address: SocketAddr) -> (r: Self)
        ensures
            r.spec_channel() == channel,
            r.spec_address() == address,
    {
        Stream { channel, address }
    }

    /// How a read classifies one inbound message: Stdout yields its bytes,
    /// Stderr is refused as unexpected (forwarding carries no stderr
    /// semantics), and every other variant means the channel is done.
    pub fn classify_read(msg: Message) -> (r: Result<Vec<u8>>)
        ensures
            msg is Stdout ==> r is Ok && r->Ok_0@ == msg->Stdout_0@,
            msg is Stderr ==> r is Err && r->Err_0 is BadMessage,
            (msg is Close || msg is Eof || msg is Exit) ==> r is Err && r->Err_0 is ChannelClosed,
    {
        match msg {
            Message::Stdout(items) => Ok(items),
            Message::Stderr(_) => Err(Error::BadMessage { tip: "unexpected message" }),
            _ => Err(Error::ChannelClosed),
        }
    }

    /// Hands outbound data to the session and returns how many bytes it
    /// accepted.
    ///
    /// Waits by blocking the calling thread: not for use from inside an
    /// async execution context.
    pub fn write(&self, data: Vec<u8>) -> (r: Result<usize>)
        ensures
            !self.spec_channel().spec_has_session() ==> r is Err && r->Err_0 is BadOperation,
    {
        self.channel.write(data)
    }

    /// Waits for the next message and reads it as tunneled data, as
    /// `classify_read` says.
    ///
    /// Waits by blocking the calling thread: not for use from inside an
    /// async execution context.
    pub fn read(&mut self) -> (r: Result<Vec<u8>>)
        ensures
            final(self).spec_address() == old(self).spec_address(),
            (r is Err && r->Err_0 is ChannelReceiverIsNone) <==> !old(
                self,
            ).spec_channel().spec_has_receiver(),
            r is Err ==> (r->Err_0 is ChannelReceiverIsNone || r->Err_0 is Disconnected || r->Err_0
                is BadMessage || r->Err_0 is ChannelClosed),
    {
        let msg = match self.channel.recv() {
            Ok(msg) => msg,
            Err(e) => {
                return Err(e);
            },
        };
        Stream::classify_read(msg)
    }

    /// Waits for the next raw message, for callers wanting Exit or Eof
    /// visibility.
    ///
    /// Waits by blocking the calling thread: not for use from inside an
    /// async execution context.
    pub fn message(&mut self) -> (r: Result<Message>)
        ensures
            final(self).spec_address() == old(self).spec_address(),
            (r is Err && r->Err_0 is ChannelReceiverIsNone) <==> !old(
                self,
            ).spec_channel().spec_has_receiver(),
            r is Err ==> (r->Err_0 is ChannelReceiverIsNone || r->Err_0 is Disconnected),
    {
        self.channel.recv()
    }

    /// Closes the underlying channel, waiting for confirmation.
    ///
    /// Waits by blocking the calling thread: not for use from inside an
    /// async execution context.
    pub fn close(self) -> (r: Result<()>)
        ensures
            !self.spec_channel().spec_has_session() ==> r is Err && r->Err_0 is BadOperation,
    {
        self.channel.close()
    }

    /// The peer address this stream was opened for.
    pub fn address(&self) -> (r: &SocketAddr)
        ensures
            *r == self.spec_address(),
    {
        &self.address
    }
}

/// Yields inbound streams for one registered bind address; cancellable, with
/// a fire-and-forget cancellation on scope exit.
pub struct Listener {
    session: Option<mpsc::UnboundedSender<Request>>,
    recver: mpsc::UnboundedReceiver<Stream>,
    address: SocketAddr,
}

impl Listener {
    /// Whether this listener can still reach the session.
    pub closed spec fn spec_has_session(&self) -> bool {
        self.session is Some
    }

    /// The bind address this listener was registered for.
    pub closed spec fn spec_address(&self) -> SocketAddr {
        self.address
    }

    pub fn new(
        session: mpsc::UnboundedSender<Request>,
        recver: mpsc::UnboundedReceiver<Stream>,
        address: SocketAddr,
    ) -> (r: Self)
        ensures
            r.spec_has_session(),
            r.spec_address() == address,
    {
        Listener { session: Some(session), recver, address }
    }

    /// Waits for the next inbound stream; fails as disconnected once the
    /// session side is gone.
    ///
    /// Waits by blocking the calling thread: not for use from inside an
    /// async execution context.
    pub fn accpet(&mut self) -> (r: Result<Stream>)
        ensures
            final(self).spec_address() == old(self).spec_address(),
            final(self).spec_has_session() == old(self).spec_has_session(),
            r is Err ==> r->Err_0 is Disconnected,
    {
        match pipe_recv(&mut self.recver) {
            Some(stream) => Ok(stream),
            None => Err(Error::Disconnected),
        }
    }

    /// Sends the cancellation request, waits for confirmation, then neuters
    /// this listener so the scope-exit cleanup has nothing left to do. Fails
    /// as a bad operation when already cancelled.
    ///
    /// Waits by blocking the calling thread: not for use from inside an
    /// async execution context.
    pub fn cancel(self) -> (r: Result<()>)
        ensures
            !self.spec_has_session() ==> r is Err && r->Err_0 is BadOperation,
    {
        let mut this = self;
        let (sender, recver) = completion_pair();
        let request = Request::make_cancel_tcpip_forward(this.address.clone(), Some(sender));
        match &this.session {
            Some(session) => {
                if !pipe_send(session, request) {
                    return Err(Error::Disconnected);
                }
            },
            None => {
                return Err(Error::BadOperation { detail: "Listener has been cancelled" });
            },
        }
        match settle(await_completion(recver)) {
            Err(e) => Err(e),
            Ok(()) => {
                this.session = None;
                Ok(())
            },
        }
    }

    /// The bind address this listener was registered for.
    pub fn listen_address(&self) -> (r: &SocketAddr)
        ensures
            *r == self.spec_address(),
    {
        &self.address
    }
}

impl Drop for Listener {
    /// Scope-exit fallback: a listener not cancelled explicitly still sends a
    /// fire-and-forget cancellation; delivery failure is ignored, as the
    /// session may already be gone.
    #[verifier::external_body]
    fn drop(&mut self)
        opens_invariants none
        no_unwind
    {
        if let Some(session) = &self.session {
            let _ = session.send(
                Request::CancelTcpipForward { address: self.address.clone(), sender: None },
            );
        }
    }
}

} // verus!
