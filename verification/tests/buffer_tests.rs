use ssh_mux::channel::{BufferChannel, Channel, ExitStatus, Message};
use ssh_mux::error::Error;
use ssh_mux::msg::Request;
use tokio::sync::mpsc::unbounded_channel;

fn fresh() -> (
    BufferChannel,
    tokio::sync::mpsc::UnboundedSender<Message>,
    tokio::sync::mpsc::UnboundedReceiver<Request>,
) {
    let (req_tx, req_rx) = unbounded_channel::<Request>();
    let (msg_tx, msg_rx) = unbounded_channel::<Message>();
    let chan = Channel::new(1, msg_rx, req_tx);
    (BufferChannel::new(chan), msg_tx, req_rx)
}

#[test]
fn fill_returns_bytes_in_arrival_order() {
    let (mut buf, msg_tx, _req_rx) = fresh();
    msg_tx.send(Message::Stdout(b"ab".to_vec())).unwrap();
    msg_tx.send(Message::Stderr(b"zz".to_vec())).unwrap();
    msg_tx.send(Message::Stdout(b"cd".to_vec())).unwrap();
    let got = buf.fill(4).unwrap();
    assert_eq!(got, b"abcd".to_vec());
}

#[test]
fn fill_scenario_exit_then_eof() {
    let (mut buf, msg_tx, _req_rx) = fresh();
    msg_tx.send(Message::Stdout(b"hello".to_vec())).unwrap();
    msg_tx.send(Message::Stdout(b" world".to_vec())).unwrap();
    msg_tx.send(Message::Exit(ExitStatus::Normal(0))).unwrap();
    msg_tx.send(Message::Eof).unwrap();
    msg_tx.send(Message::Close).unwrap();
    let got = buf.fill(11).unwrap();
    assert_eq!(got, b"hello world".to_vec());
    buf.consume(11);
    let err = buf.fill(1).unwrap_err();
    assert_eq!(err, Error::ChannelEof);
}

#[test]
fn fill_unreachable_target_gives_no_partial_data() {
    let (mut buf, msg_tx, _req_rx) = fresh();
    msg_tx.send(Message::Stdout(b"abc".to_vec())).unwrap();
    msg_tx.send(Message::Close).unwrap();
    let err = buf.fill(10).unwrap_err();
    assert_eq!(err, Error::ChannelClosed);
    // The three buffered bytes are still intact and readable.
    let got = buf.fill(3).unwrap();
    assert_eq!(got, b"abc".to_vec());
}

#[test]
fn close_is_sticky_for_fill_and_writes() {
    let (mut buf, msg_tx, _req_rx) = fresh();
    msg_tx.send(Message::Close).unwrap();
    assert_eq!(buf.fill(1).unwrap_err(), Error::ChannelClosed);
    assert_eq!(buf.fill(1).unwrap_err(), Error::ChannelClosed);
    assert_eq!(buf.write(b"x").unwrap_err(), Error::ChannelClosed);
    assert_eq!(buf.write_all(b"x").unwrap_err(), Error::ChannelClosed);
}

#[test]
fn eof_is_sticky_for_fill() {
    let (mut buf, msg_tx, _req_rx) = fresh();
    msg_tx.send(Message::Eof).unwrap();
    assert_eq!(buf.fill(1).unwrap_err(), Error::ChannelEof);
    assert_eq!(buf.fill(1).unwrap_err(), Error::ChannelEof);
}

#[test]
fn fill_zero_always_succeeds() {
    let (mut buf, _msg_tx, _req_rx) = fresh();
    assert_eq!(buf.fill(0).unwrap(), Vec::<u8>::new());
}

#[test]
fn consume_discards_bytes_for_good() {
    let (mut buf, msg_tx, _req_rx) = fresh();
    msg_tx.send(Message::Stdout(b"abcde".to_vec())).unwrap();
    let got = buf.fill(5).unwrap();
    assert_eq!(got, b"abcde".to_vec());
    buf.consume(2);
    let got = buf.fill(3).unwrap();
    assert_eq!(got, b"cde".to_vec());
}

#[test]
fn exit_messages_are_consumed_and_ignored() {
    let (mut buf, msg_tx, _req_rx) = fresh();
    msg_tx.send(Message::Exit(ExitStatus::Normal(7))).unwrap();
    msg_tx.send(Message::Stdout(b"ok".to_vec())).unwrap();
    assert_eq!(buf.fill(2).unwrap(), b"ok".to_vec());
}

#[test]
fn write_all_empties_pending_with_shrinking_chunks() {
    let rt = tokio::runtime::Runtime::new().unwrap();
    let (req_tx, mut req_rx) = unbounded_channel::<Request>();
    let (_msg_tx, msg_rx) = unbounded_channel::<Message>();
    let (obs_tx, mut obs_rx) = unbounded_channel::<Vec<u8>>();
    rt.spawn(async move {
        while let Some(req) = req_rx.recv().await {
            if let Request::ChannelWriteStdout { data, sender, .. } = req {
                let accepted = if data.len() < 3 { data.len() } else { 3 };
                let _ = obs_tx.send(data);
                let _ = sender.send(Ok(accepted));
            }
        }
    });
    let mut buf = BufferChannel::new(Channel::new(1, msg_rx, req_tx));
    buf.write(b"hello").unwrap();
    buf.write_all(b" world").unwrap();
    // One attempt for write, then write_all drains in strictly shrinking steps.
    assert_eq!(obs_rx.try_recv().unwrap(), b"hello".to_vec());
    assert_eq!(obs_rx.try_recv().unwrap(), b"lo world".to_vec());
    assert_eq!(obs_rx.try_recv().unwrap(), b"world".to_vec());
    assert_eq!(obs_rx.try_recv().unwrap(), b"ld".to_vec());
    assert!(obs_rx.try_recv().is_err());
    // Nothing pending any more: flush sends no further request.
    buf.flush().unwrap();
    assert!(obs_rx.try_recv().is_err());
}

#[test]
fn flush_drains_what_a_single_write_left() {
    let rt = tokio::runtime::Runtime::new().unwrap();
    let (req_tx, mut req_rx) = unbounded_channel::<Request>();
    let (_msg_tx, msg_rx) = unbounded_channel::<Message>();
    let (obs_tx, mut obs_rx) = unbounded_channel::<usize>();
    rt.spawn(async move {
        let mut first = true;
        while let Some(req) = req_rx.recv().await {
            if let Request::ChannelWriteStdout { data, sender, .. } = req {
                let accepted = if first { 2 } else { data.len() };
                first = false;
                let _ = obs_tx.send(data.len());
                let _ = sender.send(Ok(accepted));
            }
        }
    });
    let mut buf = BufferChannel::new(Channel::new(1, msg_rx, req_tx));
    buf.write(b"hello").unwrap();
    buf.flush().unwrap();
    assert_eq!(obs_rx.try_recv().unwrap(), 5);
    assert_eq!(obs_rx.try_recv().unwrap(), 3);
    assert!(obs_rx.try_recv().is_err());
}

#[test]
fn write_fails_as_disconnected_when_session_is_gone() {
    let (req_tx, req_rx) = unbounded_channel::<Request>();
    let (_msg_tx, msg_rx) = unbounded_channel::<Message>();
    drop(req_rx);
    let mut buf = BufferChannel::new(Channel::new(1, msg_rx, req_tx));
    assert_eq!(buf.write(b"hi").unwrap_err(), Error::Disconnected);
}

#[test]
fn a_session_accepting_nothing_fails_the_flush() {
    let rt = tokio::runtime::Runtime::new().unwrap();
    let (req_tx, mut req_rx) = unbounded_channel::<Request>();
    let (_msg_tx, msg_rx) = unbounded_channel::<Message>();
    rt.spawn(async move {
        while let Some(req) = req_rx.recv().await {
            if let Request::ChannelWriteStdout { sender, .. } = req {
                let _ = sender.send(Ok(0));
            }
        }
    });
    let mut buf = BufferChannel::new(Channel::new(1, msg_rx, req_tx));
    buf.write(b"hello").unwrap();
    assert_eq!(buf.flush().unwrap_err(), Error::Disconnected);
}

#[test]
fn into_inner_gives_the_channel_back() {
    let (req_tx, _req_rx) = unbounded_channel::<Request>();
    let (msg_tx, msg_rx) = unbounded_channel::<Message>();
    let buf = BufferChannel::new(Channel::new(9, msg_rx, req_tx));
    let mut chan = buf.into_inner();
    msg_tx.send(Message::Eof).unwrap();
    assert!(matches!(chan.recv().unwrap(), Message::Eof));
}
