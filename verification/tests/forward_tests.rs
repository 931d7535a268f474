use ssh_mux::channel::{Channel, ExitStatus, Message};
use ssh_mux::error::Error;
use ssh_mux::forward::{Listener, SocketAddr, Stream};
use ssh_mux::msg::Request;
use tokio::sync::mpsc::unbounded_channel;

fn fresh_stream() -> (
    Stream,
    tokio::sync::mpsc::UnboundedSender<Message>,
    tokio::sync::mpsc::UnboundedReceiver<Request>,
) {
    let (req_tx, req_rx) = unbounded_channel::<Request>();
    let (msg_tx, msg_rx) = unbounded_channel::<Message>();
    let chan = Channel::new(1, msg_rx, req_tx);
    let addr = SocketAddr::new(SocketAddr::LOCALHOST.to_string(), 8080);
    (Stream::new(chan, addr), msg_tx, req_rx)
}

#[test]
fn stream_read_returns_stdout_bytes() {
    let (mut stream, msg_tx, _req_rx) = fresh_stream();
    msg_tx.send(Message::Stdout(b"payload".to_vec())).unwrap();
    assert_eq!(stream.read().unwrap(), b"payload".to_vec());
}

#[test]
fn stream_read_refuses_stderr_as_bad_message() {
    let (mut stream, msg_tx, _req_rx) = fresh_stream();
    msg_tx.send(Message::Stderr(b"oops".to_vec())).unwrap();
    assert_eq!(stream.read().unwrap_err(), Error::BadMessage { tip: "unexpected message" });
}

#[test]
fn stream_read_treats_close_as_channel_closed() {
    let (mut stream, msg_tx, _req_rx) = fresh_stream();
    msg_tx.send(Message::Close).unwrap();
    assert_eq!(stream.read().unwrap_err(), Error::ChannelClosed);
}

#[test]
fn stream_read_treats_eof_and_exit_as_channel_closed() {
    let (mut stream, msg_tx, _req_rx) = fresh_stream();
    msg_tx.send(Message::Eof).unwrap();
    msg_tx.send(Message::Exit(ExitStatus::Normal(0))).unwrap();
    assert_eq!(stream.read().unwrap_err(), Error::ChannelClosed);
    assert_eq!(stream.read().unwrap_err(), Error::ChannelClosed);
}

#[test]
fn stream_message_exposes_the_raw_variant() {
    let (mut stream, msg_tx, _req_rx) = fresh_stream();
    msg_tx.send(Message::Exit(ExitStatus::Normal(3))).unwrap();
    assert!(matches!(stream.message().unwrap(), Message::Exit(ExitStatus::Normal(3))));
}

#[test]
fn stream_address_and_write_delegate() {
    let rt = tokio::runtime::Runtime::new().unwrap();
    let (req_tx, mut req_rx) = unbounded_channel::<Request>();
    let (_msg_tx, msg_rx) = unbounded_channel::<Message>();
    rt.spawn(async move {
        while let Some(req) = req_rx.recv().await {
            if let Request::ChannelWriteStdout { data, sender, .. } = req {
                let _ = sender.send(Ok(data.len()));
            }
        }
    });
    let chan = Channel::new(1, msg_rx, req_tx);
    let addr = SocketAddr::new("example.net".to_string(), 4022);
    let stream = Stream::new(chan, addr.clone());
    assert_eq!(*stream.address(), addr);
    assert_eq!(stream.write(b"tunnel".to_vec()).unwrap(), 6);
}

#[test]
fn listener_accepts_inbound_streams_until_the_session_dies() {
    let (req_tx, _req_rx) = unbounded_channel::<Request>();
    let (stream_tx, stream_rx) = unbounded_channel::<Stream>();
    let addr = SocketAddr::new(SocketAddr::IPV4_ALL.to_string(), 2222);
    let mut listener = Listener::new(req_tx, stream_rx, addr.clone());
    assert_eq!(*listener.listen_address(), addr);
    let (inner, _msg_tx, _inner_req_rx) = fresh_stream();
    stream_tx.send(inner).unwrap();
    let accepted = listener.accpet().unwrap();
    assert_eq!(accepted.address().port, 8080);
    drop(stream_tx);
    match listener.accpet() {
        Err(e) => assert_eq!(e, Error::Disconnected),
        Ok(_) => panic!("expected a disconnected listener"),
    }
}

#[test]
fn cancel_confirms_and_sends_no_duplicate() {
    let rt = tokio::runtime::Runtime::new().unwrap();
    let (req_tx, mut req_rx) = unbounded_channel::<Request>();
    let (_stream_tx, stream_rx) = unbounded_channel::<Stream>();
    let (obs_tx, mut obs_rx) = unbounded_channel::<SocketAddr>();
    rt.spawn(async move {
        while let Some(req) = req_rx.recv().await {
            if let Request::CancelTcpipForward { address, sender } = req {
                let _ = obs_tx.send(address);
                if let Some(sender) = sender {
                    let _ = sender.send(Ok(()));
                }
            }
        }
    });
    let addr = SocketAddr::new(SocketAddr::IPV6_LOCALHOST.to_string(), 9000);
    let listener = Listener::new(req_tx, stream_rx, addr.clone());
    assert!(listener.cancel().is_ok());
    assert_eq!(obs_rx.blocking_recv().unwrap(), addr);
    assert!(obs_rx.try_recv().is_err());
}

#[test]
fn dropping_a_listener_sends_the_cancellation() {
    let (req_tx, mut req_rx) = unbounded_channel::<Request>();
    let (_stream_tx, stream_rx) = unbounded_channel::<Stream>();
    let addr = SocketAddr::new(SocketAddr::LOCALHOST.to_string(), 1080);
    let listener = Listener::new(req_tx, stream_rx, addr.clone());
    drop(listener);
    match req_rx.try_recv().unwrap() {
        Request::CancelTcpipForward { address, sender } => {
            assert_eq!(address, addr);
            assert!(sender.is_none());
        }
        _ => panic!("expected the fire-and-forget cancellation"),
    }
}

#[test]
fn socket_addr_names_and_fields() {
    assert_eq!(SocketAddr::ALL, "");
    assert_eq!(SocketAddr::IPV4_ALL, "0.0.0.0");
    assert_eq!(SocketAddr::IPV6_ALL, "::");
    assert_eq!(SocketAddr::LOCALHOST, "localhost");
    assert_eq!(SocketAddr::IPV4_LOCALHOST, "127.0.0.1");
    assert_eq!(SocketAddr::IPV6_LOCALHOST, "::1");
    let addr = SocketAddr::new("host".to_string(), 22);
    assert_eq!(addr.host, "host");
    assert_eq!(addr.port, 22);
}
