use kcp_link::conn_id::ConnId;
use kcp_link::connect::{ConnectAction, ConnectAttempt, ConnectEvent};
use kcp_link::connection::{
    is_drained, is_passed_on, output_packet, recv_action, ConnectionFlags, MessageSend, RecvAction,
    RecvEvent, RecvTask, RecvTaskAction, SendAction, SendEvent, SendTask, SendTaskAction,
};
use kcp_link::error::{check_call, Error, KcpCall};
use kcp_link::ffi_safe::{
    clock_ms, max_chunk_size, next_update_delay_ms, received_len, sendwnd, sent_len, KcpConfig,
    KcpSetup, SetupAction,
};
use kcp_link::log_throttle::{LogThrottle, LOG_THROTTLE_INTERVAL};
use kcp_link::state::ACK_DATA;

const MILLI: u64 = 1_000_000;

#[test]
fn plain_config_leaves_everything_open() {
    let config = KcpConfig::new(9);
    assert_eq!(config.conv, 9);
    assert_eq!(
        (config.mtu, config.sndwnd, config.rcvwnd, config.nodelay),
        (None, None, None, None)
    );
    assert_eq!((config.interval, config.resend, config.nc), (None, None, None));
}

#[test]
fn turbo_config_is_tuned_for_latency() {
    let config = KcpConfig::new_turbo(9);
    assert_eq!(config.conv, 9);
    assert_eq!(config.mtu, Some(1200));
    assert_eq!((config.sndwnd, config.rcvwnd), (Some(1024), Some(1024)));
    assert_eq!((config.nodelay, config.interval), (Some(1), Some(10)));
    assert_eq!((config.resend, config.nc), (Some(2), Some(1)));
}

fn run_setup(config: KcpConfig) -> Vec<SetupAction> {
    let mut setup = KcpSetup::new(config);
    let mut actions = Vec::new();
    loop {
        let action = setup.action();
        if action == SetupAction::Done {
            return actions;
        }
        actions.push(action);
        setup.advance(0).unwrap();
    }
}

#[test]
fn setup_goes_through_all_steps() {
    assert_eq!(
        run_setup(KcpConfig::new_turbo(4)),
        vec![
            SetupAction::Create { conv: 4 },
            SetupAction::SetStream,
            SetupAction::SetOutput,
            SetupAction::SetMtu { mtu: 1200 },
            SetupAction::SetWndSize { sndwnd: 1024, rcvwnd: 1024 },
            SetupAction::SetNoDelay { nodelay: 1, interval: 10, resend: 2, nc: 1 },
            SetupAction::SetInterval { millis: 10 },
        ]
    );
    let plain = run_setup(KcpConfig::new(4));
    assert_eq!(
        plain[3..],
        [
            SetupAction::SetMtu { mtu: 1200 },
            SetupAction::SetWndSize { sndwnd: -1, rcvwnd: -1 },
            SetupAction::SetNoDelay { nodelay: -1, interval: -1, resend: -1, nc: -1 },
        ]
    );
    let mut zero = KcpConfig::new(4);
    zero.interval = Some(0);
    assert_eq!(run_setup(zero).len(), 6);
}

#[test]
fn setup_stops_at_the_first_failure() {
    let failures = [
        (0, Some(Error::CreateConnectionFailed)),
        (1, None),
        (2, None),
        (3, Some(Error::CallFailed { call: KcpCall::SetMtu, ret: -2 })),
        (4, Some(Error::CallFailed { call: KcpCall::WndSize, ret: -2 })),
        (5, Some(Error::CallFailed { call: KcpCall::NoDelay, ret: -2 })),
        (6, None),
        (7, None),
    ];
    for (good, expected) in failures {
        let mut setup = KcpSetup::new(KcpConfig::new_turbo(1));
        for _ in 0..good {
            setup.advance(0).unwrap();
        }
        let before = setup.action();
        assert_eq!(setup.advance(-2).err(), expected);
        if expected.is_some() {
            assert_eq!(setup.action(), before);
        }
    }
}

#[test]
fn return_codes_become_results() {
    assert_eq!(check_call(KcpCall::Input, 0), Ok(0));
    assert_eq!(
        check_call(KcpCall::Input, -1),
        Err(Error::CallFailed { call: KcpCall::Input, ret: -1 })
    );
    assert_eq!(sent_len(5), Ok(5));
    assert_eq!(
        sent_len(-2),
        Err(Error::CallFailed { call: KcpCall::Send, ret: -2 })
    );
    assert_eq!(received_len(6), Ok(6));
    assert_eq!(
        received_len(-3),
        Err(Error::CallFailed { call: KcpCall::Recv, ret: -3 })
    );
}

#[test]
fn chunk_size_follows_the_windows() {
    assert_eq!(max_chunk_size(1176, 1024, 1024), 127 * 1176);
    assert_eq!(max_chunk_size(1176, 32, 128), 32 * 1176);
    assert_eq!(max_chunk_size(1176, 128, 20), 20 * 1176);
    assert_eq!(max_chunk_size(10, 2, 2), 1024);
    assert_eq!(max_chunk_size(0, 0, 0), 1024);
}

#[test]
fn update_delay_survives_the_wrap_of_the_clock() {
    assert_eq!(next_update_delay_ms(110, 100), 10);
    assert_eq!(next_update_delay_ms(4, u32::MAX - 5), 10);
    assert_eq!(next_update_delay_ms(7, 7), 0);
    assert_eq!(clock_ms(0x1_0000_0000 + 3), 3);
    assert_eq!(clock_ms(12), 12);
}

#[test]
fn effective_window_is_reported_as_it_is() {
    assert_eq!(sendwnd(32), 32);
    assert_eq!(sendwnd(1024), 1024);
    assert_eq!(sendwnd(u32::MAX), -1);
    // An idle connection can send.
    assert!(matches!(
        MessageSend::new(1, 1024).next(0, sendwnd(32)),
        SendAction::Send { start: 0, end: 1 }
    ));
}

#[test]
fn message_is_sent_chunk_by_chunk() {
    let data: Vec<u8> = (0u8..=99).collect();
    let mut message = MessageSend::new(data.len(), 30);
    let mut sent = Vec::new();
    let mut sizes = Vec::new();
    loop {
        match message.next(0, 32) {
            SendAction::Send { start, end } => {
                sent.extend_from_slice(&data[start..end]);
                sizes.push(end - start);
                message.sent(Ok(end - start));
            }
            SendAction::WaitWindow => panic!("there is room"),
            SendAction::Done => break,
        }
    }
    assert_eq!(sent, data);
    assert_eq!(sizes, vec![30, 30, 30, 10]);
    assert_eq!(MessageSend::new(0, 30).next(0, 32), SendAction::Done);
}

#[test]
fn flow_control_waits_beyond_two_windows() {
    let message = MessageSend::new(10, 30);
    assert_eq!(message.next(64, 32), SendAction::Send { start: 0, end: 10 });
    assert_eq!(message.next(65, 32), SendAction::WaitWindow);
}

#[test]
fn failed_send_gives_up_the_message() {
    let mut message = MessageSend::new(100, 30);
    message.sent(Ok(30));
    message.sent(Err(Error::CallFailed { call: KcpCall::Send, ret: -2 }));
    assert_eq!(message.next(0, 32), SendAction::Done);
}

#[test]
fn connection_is_drained_when_nothing_waits() {
    assert!(is_drained(0));
    assert!(!is_drained(1));
}

#[test]
fn receive_makes_room_when_it_has_too_little() {
    assert_eq!(recv_action(-1, 0), RecvAction::Wait);
    assert_eq!(recv_action(0, 0), RecvAction::Read { reserve: 4096 });
    assert_eq!(recv_action(100, 99), RecvAction::Read { reserve: 4096 });
    assert_eq!(recv_action(5000, 99), RecvAction::Read { reserve: 5000 });
    assert_eq!(recv_action(100, 100), RecvAction::Read { reserve: 0 });
    assert!(is_passed_on(1));
    assert!(!is_passed_on(0));
}

#[test]
fn output_is_addressed_and_flagged() {
    let id = ConnId { conv: 1, src_session_id: 2, dst_session_id: 3 };
    let p = output_packet(&id, b"data");
    assert_eq!(ConnId::from(&p), id);
    assert_eq!(p.header().flag, ACK_DATA);
    assert_eq!(p.payload(), b"data");
}

#[test]
fn flags_wake_up_the_tasks() {
    let mut flags = ConnectionFlags::new();
    assert_eq!(flags.after_update(), (false, false));
    flags.after_input(Err(Error::Shutdown));
    assert_eq!(flags.after_update(), (false, false));
    flags.after_input(Ok(()));
    flags.wait_for_window();
    assert_eq!(flags.after_update(), (true, true));
    assert_eq!(flags.after_update(), (false, false));
    flags.close_recv();
    assert_eq!(flags.after_update(), (true, false));
    assert_eq!(flags.after_update(), (true, false));
}

#[test]
fn syn_is_sent_again_at_growing_intervals_until_the_deadline() {
    let mut attempt = ConnectAttempt::new(0, 5000 * MILLI);
    let mut now = 0;
    let mut event = ConnectEvent::Started;
    let mut waits = Vec::new();
    let mut syns = 0;
    loop {
        match attempt.step(event, now) {
            ConnectAction::AwaitRoom { nanos } => {
                assert_eq!(nanos, attempt.time_left(now));
                event = ConnectEvent::RoomFound;
            }
            ConnectAction::SendSyn => {
                syns += 1;
                event = ConnectEvent::SynSent;
            }
            ConnectAction::Wait { nanos } => {
                waits.push(nanos);
                now += nanos;
                event = ConnectEvent::WaitElapsed;
            }
            ConnectAction::Finish { notified } => {
                assert!(!notified);
                break;
            }
        }
    }
    assert_eq!(
        waits,
        vec![
            250_000_000,
            375_000_000,
            562_500_000,
            843_750_000,
            1_000_000_000,
            1_000_000_000,
            968_750_000,
        ]
    );
    assert_eq!(syns, 7);
    assert_eq!(now, 5000 * MILLI);
}

#[test]
fn attempt_ends_when_notified_or_late() {
    let mut attempt = ConnectAttempt::new(10, 20);
    assert_eq!(
        attempt.step(ConnectEvent::Notified, 100),
        ConnectAction::Finish { notified: true }
    );
    assert_eq!(
        attempt.step(ConnectEvent::SynSent, 30),
        ConnectAction::Finish { notified: false }
    );
    assert_eq!(
        attempt.step(ConnectEvent::Started, 30),
        ConnectAction::Finish { notified: false }
    );
    assert_eq!(attempt.step(ConnectEvent::SynSent, 25), ConnectAction::Wait { nanos: 5 });
}

#[test]
fn full_channel_does_not_stretch_the_attempt() {
    let mut attempt = ConnectAttempt::new(100, 50);
    assert_eq!(attempt.time_left(110), 40);
    assert_eq!(attempt.time_left(150), 0);
    assert_eq!(attempt.time_left(200), 0);
    assert_eq!(
        attempt.step(ConnectEvent::Started, 110),
        ConnectAction::AwaitRoom { nanos: 40 }
    );
    assert_eq!(attempt.step(ConnectEvent::RoomFound, 149), ConnectAction::SendSyn);
    // No room, or room at the deadline only: no SYN.
    assert_eq!(
        attempt.step(ConnectEvent::RoomElapsed, 150),
        ConnectAction::Finish { notified: false }
    );
    assert_eq!(
        attempt.step(ConnectEvent::RoomFound, 150),
        ConnectAction::Finish { notified: false }
    );
    // The clock of the wait ran a little ahead.
    assert_eq!(
        attempt.step(ConnectEvent::RoomElapsed, 149),
        ConnectAction::AwaitRoom { nanos: 1 }
    );
}

#[test]
fn send_side_closes_only_when_all_is_delivered() {
    let mut task = SendTask::new();
    assert_eq!(task.step(SendEvent::Started), SendTaskAction::Receive);
    let message = SendEvent::Received { len: 50, max_chunk: 30 };
    assert_eq!(task.step(message), SendTaskAction::AskRoom);
    let full = SendEvent::Room { waitsnd: 65, sndwnd: 32 };
    let room = SendEvent::Room { waitsnd: 64, sndwnd: 32 };
    assert_eq!(task.step(full), SendTaskAction::WaitWindow);
    assert_eq!(task.step(SendEvent::Woken), SendTaskAction::AskRoom);
    assert_eq!(task.step(room), SendTaskAction::Send { start: 0, end: 30 });
    assert_eq!(task.step(SendEvent::Sent { result: Ok(30) }), SendTaskAction::AskRoom);
    assert_eq!(task.step(room), SendTaskAction::Send { start: 30, end: 50 });
    assert_eq!(task.step(SendEvent::Sent { result: Ok(20) }), SendTaskAction::Receive);
    let empty = SendEvent::Received { len: 0, max_chunk: 30 };
    assert_eq!(task.step(empty), SendTaskAction::Receive);
    assert_eq!(task.step(SendEvent::Ended), SendTaskAction::AskWaiting);
    let busy = SendEvent::Waiting { waitsnd: 1 };
    assert_eq!(task.step(busy), SendTaskAction::WaitWindow);
    assert_eq!(task.step(SendEvent::Woken), SendTaskAction::AskWaiting);
    let idle = SendEvent::Waiting { waitsnd: 0 };
    assert_eq!(task.step(idle), SendTaskAction::AnnounceClose);
    assert_eq!(task.step(idle), SendTaskAction::Stop);
}

#[test]
fn send_side_gives_up_a_refused_message_and_goes_on() {
    let mut task = SendTask::new();
    let _ = task.step(SendEvent::Received { len: 50, max_chunk: 30 });
    let room = SendEvent::Room { waitsnd: 0, sndwnd: 32 };
    assert_eq!(task.step(room), SendTaskAction::Send { start: 0, end: 30 });
    let refused = Err(Error::CallFailed { call: KcpCall::Send, ret: -2 });
    assert_eq!(task.step(SendEvent::Sent { result: refused }), SendTaskAction::Receive);
    // Nothing is announced while the channel is open.
    let idle = SendEvent::Waiting { waitsnd: 0 };
    assert_eq!(task.step(idle), SendTaskAction::Receive);
}

#[test]
fn throttle_reports_first_and_then_once_per_interval() {
    let mut throttle = LogThrottle::new(LOG_THROTTLE_INTERVAL);
    assert_eq!(throttle.due(1000), Some(1));
    for i in 0..36 {
        assert_eq!(throttle.due(1000 + i), None);
    }
    assert_eq!(throttle.due(1000 + LOG_THROTTLE_INTERVAL - 1), None);
    assert_eq!(throttle.due(1000 + LOG_THROTTLE_INTERVAL), Some(38));
    assert_eq!(throttle.due(0), None);
    assert_eq!(throttle.due(1000 + 2 * LOG_THROTTLE_INTERVAL), Some(2));
}

#[test]
fn sendwnd_reports_the_effective_window() {
    // The engine keeps its own window of 32 where it is handed one that is not positive.
    let effective = |config: KcpConfig| -> u32 {
        let mut window = 32;
        for action in run_setup(config) {
            if let SetupAction::SetWndSize { sndwnd, .. } = action {
                if sndwnd > 0 {
                    window = sndwnd as u32;
                }
            }
        }
        window
    };
    for bad in [Some(-1), Some(0), None] {
        let mut config = KcpConfig::new_turbo(1);
        config.sndwnd = bad;
        let window = sendwnd(effective(config));
        assert_eq!(window, 32, "effective default for {bad:?}");
        assert_eq!(
            MessageSend::new(1, 1024).next(0, window),
            SendAction::Send { start: 0, end: 1 },
            "flow control must be satisfiable on an idle conn ({bad:?})"
        );
    }

    let mut config = KcpConfig::new_turbo(1);
    config.sndwnd = Some(1024);
    assert_eq!(sendwnd(effective(config)), 1024);
}

#[test]
fn messages_reach_the_engine_unchanged_and_in_order() {
    let messages: Vec<Vec<u8>> = vec![(0u8..70).collect(), vec![], (100u8..130).collect()];
    let mut task = SendTask::new();
    let mut event = SendEvent::Started;
    let mut taken: Vec<u8> = Vec::new();
    let mut handed: Vec<u8> = Vec::new();
    let mut current: Vec<u8> = Vec::new();
    let mut left = messages.iter();
    loop {
        event = match task.step(event) {
            SendTaskAction::Receive => match left.next() {
                Some(message) => {
                    current = message.clone();
                    taken.extend_from_slice(message);
                    SendEvent::Received { len: message.len(), max_chunk: 30 }
                }
                None => SendEvent::Ended,
            },
            SendTaskAction::AskRoom => SendEvent::Room { waitsnd: 3, sndwnd: 32 },
            SendTaskAction::AskWaiting => SendEvent::Waiting { waitsnd: 0 },
            SendTaskAction::Send { start, end } => {
                handed.extend_from_slice(&current[start..end]);
                SendEvent::Sent { result: Ok(end - start) }
            }
            SendTaskAction::AnnounceClose => break,
            other => panic!("unexpected {other:?}"),
        };
    }
    assert_eq!(handed, taken);
    assert_eq!(handed.len(), 100);
}

#[test]
fn receive_side_passes_on_until_it_is_closed() {
    let open = RecvEvent::Checked { closed: false };
    let mut task = RecvTask::new();
    assert_eq!(task.step(RecvEvent::Started), RecvTaskAction::CheckClosed);
    assert_eq!(task.step(open), RecvTaskAction::Peek);
    let nothing = RecvEvent::Peeked { peeksize: -1, capacity: 0 };
    assert_eq!(task.step(nothing), RecvTaskAction::Wait);
    assert_eq!(task.step(RecvEvent::Woken), RecvTaskAction::CheckClosed);
    assert_eq!(task.step(open), RecvTaskAction::Peek);
    let message = RecvEvent::Peeked { peeksize: 10, capacity: 0 };
    assert_eq!(task.step(message), RecvTaskAction::Read { reserve: 4096 });
    assert_eq!(task.step(RecvEvent::Read { result: Ok(10) }), RecvTaskAction::PassOn);
    assert_eq!(task.step(RecvEvent::PassedOn { taken: true }), RecvTaskAction::CheckClosed);
    assert_eq!(task.step(RecvEvent::Checked { closed: true }), RecvTaskAction::Stop);
    assert_eq!(task.step(RecvEvent::Read { result: Ok(10) }), RecvTaskAction::Stop);
    assert_eq!(task.step(open), RecvTaskAction::Stop);
}

#[test]
fn receive_side_goes_on_after_empty_and_failed_reads() {
    let open = RecvEvent::Checked { closed: false };
    let message = RecvEvent::Peeked { peeksize: 0, capacity: 1 };
    let mut task = RecvTask::new();
    let failed = Err(Error::CallFailed { call: KcpCall::Recv, ret: -3 });
    for result in [Ok(0), failed] {
        assert_eq!(task.step(open), RecvTaskAction::Peek);
        assert_eq!(task.step(message), RecvTaskAction::Read { reserve: 0 });
        assert_eq!(task.step(RecvEvent::Read { result }), RecvTaskAction::CheckClosed);
    }
    assert_eq!(task.step(open), RecvTaskAction::Peek);
    let _ = task.step(message);
    assert_eq!(task.step(RecvEvent::Read { result: Ok(1) }), RecvTaskAction::PassOn);
    // The reader is gone.
    assert_eq!(task.step(RecvEvent::PassedOn { taken: false }), RecvTaskAction::Stop);
}
