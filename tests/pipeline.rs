use go2_video::config::{image_topic, stream_locator, ConnectionParams, GRACE_PERIOD_SECS};
use go2_video::image::{
    big_endian_from_repr, build_header, endianness_flag, host_is_big_endian, HeaderError, Stamp,
};
use go2_video::options::get_decoder_options;
use go2_video::pipeline::{Action, DecodeLoop, Exit, Phase, Pulled};

struct Published {
    width: u32,
    height: u32,
    step: u32,
    encoding: String,
    frame_id: String,
    stamp: Stamp,
    data: Vec<u8>,
}

struct Run {
    exit: Exit,
    pulls: usize,
    clock_reads: usize,
    messages: Vec<Published>,
}

/// Drives the loop against a mock session of `frames` frames followed by the
/// end of the stream, a clock that ticks one second per reading (failing on
/// reading `clock_fails_at`, counted from 1), and a sink that reports failure
/// on every call whose 1-based number is a multiple of `sink_fails_every`.
fn run(
    geometry: Option<(u32, u32)>,
    frames: usize,
    clock_fails_at: Option<usize>,
    sink_fails_every: Option<usize>,
) -> Run {
    let mut out = Run { exit: Exit::Success, pulls: 0, clock_reads: 0, messages: Vec::new() };
    let mut l = match DecodeLoop::open(geometry, false) {
        Ok(l) => l,
        Err(e) => {
            out.exit = e;
            return out;
        }
    };
    let mut sink_calls = 0usize;
    let mut action = l.next_action();
    loop {
        action = match action {
            Action::Pull => {
                out.pulls += 1;
                if out.pulls <= frames {
                    let (w, h) = geometry.unwrap();
                    let byte = out.pulls as u8;
                    l.on_pulled(Pulled::Frame(vec![byte; (w * h * 3) as usize]))
                } else {
                    l.on_pulled(Pulled::End)
                }
            }
            Action::ReadClock => {
                out.clock_reads += 1;
                if clock_fails_at == Some(out.clock_reads) {
                    l.on_clock(None)
                } else {
                    l.on_clock(Some(Stamp { sec: out.clock_reads as i32, nanosec: 0 }))
                }
            }
            Action::Publish => {
                sink_calls += 1;
                let h = l.header();
                out.messages.push(Published {
                    width: h.width,
                    height: h.height,
                    step: h.step,
                    encoding: h.encoding.clone(),
                    frame_id: h.frame_id.clone(),
                    stamp: l.stamp(),
                    data: l.data().clone(),
                });
                let delivered = match sink_fails_every {
                    Some(k) => sink_calls % k != 0,
                    None => true,
                };
                l.on_published(delivered)
            }
            Action::Stop(e) => {
                out.exit = e;
                return out;
            }
        };
    }
}

#[test]
fn five_frames_of_64_by_48() {
    let r = run(Some((64, 48)), 5, None, None);
    assert_eq!(r.exit, Exit::Success);
    assert_eq!(r.exit.code(), 0);
    assert_eq!(r.messages.len(), 5);
    for (i, m) in r.messages.iter().enumerate() {
        assert_eq!(m.width, 64);
        assert_eq!(m.height, 48);
        assert_eq!(m.step, 192);
        assert_eq!(m.encoding, "rgb8");
        assert_eq!(m.frame_id, "front_camera");
        assert_eq!(m.data.len(), 64 * 48 * 3);
        assert_eq!(m.data[0], (i + 1) as u8);
    }
    for w in r.messages.windows(2) {
        assert!(w[0].stamp.sec < w[1].stamp.sec);
    }
}

#[test]
fn session_failure_exits_nonzero_without_messages() {
    let r = run(None, 5, None, None);
    assert_eq!(r.exit, Exit::SessionFailed);
    assert_ne!(r.exit.code(), 0);
    assert_eq!(r.messages.len(), 0);
    assert_eq!(r.pulls, 0);
}

#[test]
fn end_of_stream_on_pull_n_leaves_n_minus_one_messages() {
    for n in 1..6usize {
        let r = run(Some((4, 2)), n - 1, None, None);
        assert_eq!(r.pulls, n);
        assert_eq!(r.messages.len(), n - 1);
        assert_eq!(r.exit, Exit::Success);
    }
}

#[test]
fn failing_sink_does_not_change_pull_count() {
    let ok = run(Some((4, 2)), 9, None, None);
    let flaky = run(Some((4, 2)), 9, None, Some(3));
    assert_eq!(ok.pulls, 10);
    assert_eq!(flaky.pulls, ok.pulls);
    assert_eq!(flaky.messages.len(), 9);
    assert_eq!(flaky.exit, Exit::Success);
}

#[test]
fn timestamps_follow_an_increasing_clock() {
    let r = run(Some((8, 8)), 7, None, None);
    let secs: Vec<i32> = r.messages.iter().map(|m| m.stamp.sec).collect();
    assert_eq!(secs, vec![1, 2, 3, 4, 5, 6, 7]);
}

#[test]
fn clock_failure_ends_loop_without_publishing_that_frame() {
    let r = run(Some((4, 2)), 5, Some(3), None);
    assert_eq!(r.exit, Exit::ClockFailed);
    assert_eq!(r.exit.code(), 1);
    assert_eq!(r.messages.len(), 2);
    assert_eq!(r.pulls, 3);
}

#[test]
fn oversized_width_is_rejected() {
    let r = run(Some((u32::MAX / 3 + 1, 1)), 1, None, None);
    assert_eq!(r.exit, Exit::InvalidGeometry);
    assert_eq!(r.exit.code(), 1);
    assert_eq!(r.messages.len(), 0);
}

#[test]
fn payload_is_replaced_not_appended() {
    let mut l = DecodeLoop::open(Some((2, 1)), false).ok().unwrap();
    assert_eq!(l.on_pulled(Pulled::Frame(vec![1; 6])), Action::ReadClock);
    assert_eq!(l.on_clock(Some(Stamp { sec: 1, nanosec: 5 })), Action::Publish);
    assert_eq!(l.on_published(true), Action::Pull);
    assert_eq!(l.on_pulled(Pulled::Frame(vec![2; 6])), Action::ReadClock);
    assert_eq!(l.data(), &vec![2u8; 6]);
    assert_eq!(l.on_clock(Some(Stamp { sec: 2, nanosec: 0 })), Action::Publish);
    assert_eq!(l.stamp(), Stamp { sec: 2, nanosec: 0 });
}

#[test]
fn events_out_of_phase_are_ignored() {
    let mut l = DecodeLoop::open(Some((2, 1)), false).ok().unwrap();
    assert_eq!(l.on_clock(Some(Stamp { sec: 1, nanosec: 0 })), Action::Pull);
    assert_eq!(l.on_published(false), Action::Pull);
    assert_eq!(l.phase(), Phase::AwaitFrame);
    assert_eq!(l.on_pulled(Pulled::End), Action::Stop(Exit::Success));
    assert_eq!(l.on_pulled(Pulled::Frame(vec![0; 6])), Action::Stop(Exit::Success));
    assert_eq!(l.phase(), Phase::Finished(Exit::Success));
}

#[test]
fn header_for_64_by_48() {
    let h = build_header(64, 48, false).ok().unwrap();
    assert_eq!(h.width, 64);
    assert_eq!(h.height, 48);
    assert_eq!(h.step, 192);
    assert_eq!(h.encoding, "rgb8");
    assert_eq!(h.frame_id, "front_camera");
    assert_eq!(h.is_bigendian, 0);
    let b = build_header(1, 1, true).ok().unwrap();
    assert_eq!(b.is_bigendian, 1);
    assert_eq!(b.step, 3);
}

#[test]
fn header_stride_overflow() {
    assert!(matches!(build_header(u32::MAX / 3 + 1, 1, false), Err(HeaderError::StrideOverflow)));
    assert_eq!(build_header(u32::MAX / 3, 1, false).ok().unwrap().step, u32::MAX / 3 * 3);
}

#[test]
fn endianness_flag_values() {
    assert_eq!(endianness_flag(false), 0);
    assert_eq!(endianness_flag(true), 1);
    assert!(!big_endian_from_repr([1, 0]));
    assert!(big_endian_from_repr([0, 1]));
}

#[test]
fn host_endianness_matches_target() {
    let expected = 1u16.to_be() == 1u16;
    assert_eq!(host_is_big_endian(), expected);
    let flag = endianness_flag(host_is_big_endian());
    assert_eq!(flag, if expected { 1 } else { 0 });
}

#[test]
fn decoder_options_table() {
    let o = get_decoder_options();
    let want = [
        ("protocol_whitelist", "file,rtp,udp,https,tls,tcp"),
        ("flags", "low_delay"),
        ("analyzeduration", "4M"),
        ("probesize", "4M"),
        ("vf", "setpts=0"),
    ];
    assert_eq!(o.len(), want.len());
    for (got, (k, v)) in o.iter().zip(want.iter()) {
        assert_eq!(got.0, *k);
        assert_eq!(got.1, *v);
    }
}

#[test]
fn connection_defaults() {
    let p = ConnectionParams::from_settings(None, None);
    assert_eq!(p.robot_ip, "");
    assert_eq!(p.robot_token, "");
    assert_eq!(p.video_port, 4002);
    assert_eq!(p.audio_port, 4000);
    assert!(p.debug_webrtc);
    let q = ConnectionParams::from_settings(Some("10.0.0.5".to_string()), Some("tok".to_string()));
    assert_eq!(q.robot_ip, "10.0.0.5");
    assert_eq!(q.robot_token, "tok");
}

#[test]
fn fixed_names() {
    assert_eq!(image_topic(), "/go2_camera/color/image");
    assert!(stream_locator().ends_with("connection.sdp"));
    assert_eq!(GRACE_PERIOD_SECS, 3);
}
