use presence_daemon::actors::ingress::webcam_v4l2::{
    dqbuf_call, format_call, ioc, ioctl_failure, open_failure, qbuf_call, querybuf_call,
    querycap_call, reqbufs_call, requeue_call, rgb_to_rgba, streamoff_call, streamon_call,
    videoc_dqbuf, videoc_qbuf, videoc_querybuf, videoc_querycap, videoc_reqbufs, videoc_s_fmt,
    videoc_streamoff, videoc_streamon, CallOutcome, FrameAction, FrameStage, OpenAction, OpenStage,
    WebcamOpen, WebcamStream, BUFFER_BYTES, CAPABILITY_BYTES, FORMAT_BYTES, PIX_FORMAT_BYTES,
    REQUEST_BUFFERS_BYTES, V4L2_PIX_FMT_RGB24,
};

fn put(bytes: &mut [u8], at: usize, word: u32) {
    bytes[at..at + 4].copy_from_slice(&word.to_le_bytes());
}

fn get(bytes: &[u8], at: usize) -> u32 {
    u32::from_le_bytes([bytes[at], bytes[at + 1], bytes[at + 2], bytes[at + 3]])
}

#[test]
fn struct_sizes_match_kernel_abi() {
    assert_eq!(PIX_FORMAT_BYTES, 48);
    assert_eq!(FORMAT_BYTES, 208);
    assert_eq!(CAPABILITY_BYTES, 104);
    assert_eq!(REQUEST_BUFFERS_BYTES, 20);
    assert_eq!(BUFFER_BYTES, 88);
    assert_eq!(format_call(1, 1).arg.len(), 208);
    assert_eq!(querycap_call().arg.len(), 104);
    assert_eq!(reqbufs_call().arg.len(), 20);
    assert_eq!(querybuf_call().arg.len(), 88);
    assert_eq!(streamon_call().arg.len(), 4);
}

#[test]
fn ioctl_numbers_match_gcc_compiled_kernel_header() {
    assert_eq!(videoc_querycap(), 0x80685600);
    assert_eq!(videoc_s_fmt(), 0xc0d05605);
    assert_eq!(videoc_reqbufs(), 0xc0145608);
    assert_eq!(videoc_querybuf(), 0xc0585609);
    assert_eq!(videoc_qbuf(), 0xc058560f);
    assert_eq!(videoc_dqbuf(), 0xc0585611);
    assert_eq!(videoc_streamon(), 0x40045612);
    assert_eq!(videoc_streamoff(), 0x40045613);
}

#[test]
fn fourcc_rgb24_matches_kernel_macro() {
    let expected = (b'R' as u32) | (b'G' as u32) << 8 | (b'B' as u32) << 16 | (b'3' as u32) << 24;
    assert_eq!(V4L2_PIX_FMT_RGB24, expected);
    assert_eq!(V4L2_PIX_FMT_RGB24, 0x3342_4752);
}

#[test]
fn request_codes_pack_their_parts() {
    assert_eq!(ioc(0, 0, 0, 0), 0);
    assert_eq!(ioc(3, 0xff, 0xff, 0x3fff), 0xffff_ffff);
    assert_eq!(ioc(1, 0x12, 0x34, 0x56), 0x4056_1234);
}

#[test]
fn arguments_hold_their_fields() {
    let fmt = format_call(640, 480);
    assert_eq!(fmt.request, videoc_s_fmt());
    assert_eq!(fmt.what, "VIDIOC_S_FMT");
    assert_eq!(get(&fmt.arg, 0), 1);
    assert_eq!(get(&fmt.arg, 8), 640);
    assert_eq!(get(&fmt.arg, 12), 480);
    assert_eq!(get(&fmt.arg, 16), V4L2_PIX_FMT_RGB24);
    assert_eq!(get(&fmt.arg, 20), 1);
    assert!(fmt.arg[24..].iter().all(|&b| b == 0));
    let req = reqbufs_call();
    assert_eq!((get(&req.arg, 0), get(&req.arg, 4), get(&req.arg, 8)), (1, 1, 1));
    let again = requeue_call(5);
    assert_eq!(again.request, videoc_qbuf());
    assert_eq!(again.what, "VIDIOC_QBUF (requeue)");
    assert_eq!((get(&again.arg, 0), get(&again.arg, 4), get(&again.arg, 60)), (5, 1, 1));
    assert_eq!(get(&qbuf_call().arg, 0), 0);
    assert_eq!(dqbuf_call().request, videoc_dqbuf());
    assert_eq!(streamoff_call().arg, vec![1, 0, 0, 0]);
}

fn capability(caps: u32) -> CallOutcome {
    let mut bytes = vec![0u8; 104];
    put(&mut bytes, 84, caps);
    CallOutcome::Done(bytes)
}

fn format(width: u32, height: u32, fourcc: u32) -> CallOutcome {
    let mut bytes = vec![0u8; 208];
    put(&mut bytes, 8, width);
    put(&mut bytes, 12, height);
    put(&mut bytes, 16, fourcc);
    CallOutcome::Done(bytes)
}

fn buffers(count: u32) -> CallOutcome {
    let mut bytes = vec![0u8; 20];
    put(&mut bytes, 0, count);
    CallOutcome::Done(bytes)
}

fn location(offset: u32, length: u32) -> CallOutcome {
    let mut bytes = vec![0u8; 88];
    put(&mut bytes, 64, offset);
    put(&mut bytes, 72, length);
    CallOutcome::Done(bytes)
}

fn request_of(action: &OpenAction) -> u32 {
    match action {
        OpenAction::Call(call) => call.request,
        other => panic!("expected a call, got {other:?}"),
    }
}

fn message_of(action: OpenAction) -> String {
    match action {
        OpenAction::Refused(message) => message,
        other => panic!("expected a refusal, got {other:?}"),
    }
}

#[test]
fn a_device_opens_with_the_size_it_negotiates() {
    let (mut open, first) = WebcamOpen::begin("/dev/video0", 640, 480);
    assert_eq!(first.request, videoc_querycap());
    assert_eq!(request_of(&open.step(capability(0x0420_0001))), videoc_s_fmt());
    assert_eq!(request_of(&open.step(format(320, 240, V4L2_PIX_FMT_RGB24))), videoc_reqbufs());
    assert_eq!(request_of(&open.step(buffers(2))), videoc_querybuf());
    match open.step(location(4096, 230_400)) {
        OpenAction::MapBuffer { length, offset } => assert_eq!((length, offset), (230_400, 4096)),
        other => panic!("expected a mapping, got {other:?}"),
    }
    match open.step(CallOutcome::Done(Vec::new())) {
        OpenAction::Opened { width, height, length } => {
            assert_eq!((width, height, length), (320, 240, 230_400))
        }
        other => panic!("expected an open device, got {other:?}"),
    }
    assert_eq!(open.stage, OpenStage::Over);
}

#[test]
fn unfit_devices_are_refused() {
    let (mut open, _) = WebcamOpen::begin("/dev/video9", 1, 1);
    assert_eq!(
        message_of(open.step(capability(0x0420_0000))),
        "/dev/video9 doesn't report V4L2_CAP_VIDEO_CAPTURE"
    );
    let (mut open, _) = WebcamOpen::begin("/dev/video9", 1, 1);
    open.step(capability(1));
    assert_eq!(
        message_of(open.step(format(1, 1, 0x5659_5559))),
        "/dev/video9 doesn't support RGB24 (got fourcc 0x56595559) — this minimal backend doesn't do YUV conversion"
    );
    let (mut open, _) = WebcamOpen::begin("/dev/video9", 1, 1);
    open.step(capability(1));
    assert_eq!(
        message_of(open.step(format(1, 1, 0))),
        "/dev/video9 doesn't support RGB24 (got fourcc 0x0) — this minimal backend doesn't do YUV conversion"
    );
    let (mut open, _) = WebcamOpen::begin("/dev/video9", 1, 1);
    open.step(capability(1));
    open.step(format(1, 1, V4L2_PIX_FMT_RGB24));
    assert_eq!(message_of(open.step(buffers(0))), "/dev/video9 granted 0 capture buffers");
}

#[test]
fn failed_calls_are_named() {
    let failed = || CallOutcome::Failed("Invalid argument (os error 22)".to_string());
    let (mut open, _) = WebcamOpen::begin("/dev/video9", 1, 1);
    assert_eq!(
        message_of(open.step(failed())),
        "VIDIOC_QUERYCAP failed: Invalid argument (os error 22)"
    );
    let (mut open, _) = WebcamOpen::begin("/dev/video9", 1, 1);
    open.step(capability(1));
    open.step(format(1, 1, V4L2_PIX_FMT_RGB24));
    open.step(buffers(1));
    open.step(location(0, 3));
    assert_eq!(
        message_of(open.step(failed())),
        "mmap of capture buffer failed: Invalid argument (os error 22)"
    );
    assert_eq!(ioctl_failure("VIDIOC_STREAMOFF", "gone"), "VIDIOC_STREAMOFF failed: gone");
    assert_eq!(
        open_failure("/dev/does-not-exist-in-this-sandbox", "No such file or directory (os error 2)"),
        "couldn't open /dev/does-not-exist-in-this-sandbox: No such file or directory (os error 2)"
    );
}

fn dequeued(index: u32, used: u32) -> CallOutcome {
    let mut bytes = vec![0u8; 88];
    put(&mut bytes, 0, index);
    put(&mut bytes, 8, used);
    CallOutcome::Done(bytes)
}

fn done() -> CallOutcome {
    CallOutcome::Done(Vec::new())
}

fn frame_request(action: &FrameAction) -> u32 {
    match action {
        FrameAction::Call(call) => call.request,
        other => panic!("expected a call, got {other:?}"),
    }
}

#[test]
fn the_first_frame_switches_streaming_on() {
    let mut stream = WebcamStream::new(2, 1);
    assert!(stream.finish().is_none());
    assert_eq!(stream.begin_frame().request, videoc_qbuf());
    assert_eq!(frame_request(&stream.step(done(), &[])), videoc_streamon());
    assert!(!stream.streaming);
    assert_eq!(frame_request(&stream.step(done(), &[])), videoc_dqbuf());
    assert!(stream.streaming);
    let captured = [1, 2, 3, 4, 5, 6, 7, 8];
    let action = stream.step(dequeued(3, 8), &captured);
    assert_eq!(frame_request(&action), videoc_qbuf());
    match action {
        FrameAction::Call(call) => assert_eq!(get(&call.arg, 0), 3),
        other => panic!("expected a call, got {other:?}"),
    }
    match stream.step(done(), &[]) {
        FrameAction::Frame(frame) => {
            assert_eq!((frame.width, frame.height), (2, 1));
            assert_eq!(frame.rgba, vec![1, 2, 3, 255, 4, 5, 6, 255]);
        }
        other => panic!("expected a frame, got {other:?}"),
    }
    assert_eq!(stream.begin_frame().request, videoc_dqbuf());
    assert_eq!(stream.finish().unwrap().request, videoc_streamoff());
}

#[test]
fn a_failed_frame_can_be_asked_for_again() {
    let mut stream = WebcamStream::new(2, 1);
    stream.begin_frame();
    match stream.step(CallOutcome::Failed("busy".to_string()), &[]) {
        FrameAction::Refused(message) => assert_eq!(message, "VIDIOC_QBUF failed: busy"),
        other => panic!("expected a refusal, got {other:?}"),
    }
    assert_eq!(stream.stage, FrameStage::Idle);
    assert_eq!(stream.begin_frame().request, videoc_qbuf());
}

#[test]
fn a_camera_without_a_frame_gives_none() {
    let wait = || CallOutcome::WouldBlock("busy".to_string());
    let mut stream = WebcamStream::new(2, 1);
    stream.begin_frame();
    match stream.step(wait(), &[]) {
        FrameAction::Refused(message) => assert_eq!(message, "VIDIOC_QBUF failed: busy"),
        other => panic!("expected a refusal, got {other:?}"),
    }
    stream.begin_frame();
    stream.step(done(), &[]);
    stream.step(done(), &[]);
    assert!(matches!(stream.step(wait(), &[]), FrameAction::Nothing));
    assert_eq!((stream.stage, stream.streaming), (FrameStage::Idle, true));
    assert_eq!(stream.begin_frame().request, videoc_dqbuf());
    assert_eq!(frame_request(&stream.step(dequeued(0, 3), &[1, 2, 3])), videoc_qbuf());
    let (mut open, _) = WebcamOpen::begin("/dev/video0", 2, 1);
    match open.step(wait()) {
        OpenAction::Refused(message) => assert_eq!(message, "VIDIOC_QUERYCAP failed: busy"),
        other => panic!("expected a refusal, got {other:?}"),
    }
}

#[test]
fn pixels_gain_an_opaque_alpha() {
    assert_eq!(rgb_to_rgba(&[9, 8, 7, 6, 5, 4], 6), vec![9, 8, 7, 255, 6, 5, 4, 255]);
    assert_eq!(rgb_to_rgba(&[9, 8, 7, 6, 5, 4], 5), vec![9, 8, 7, 255]);
    assert_eq!(rgb_to_rgba(&[9, 8], 2), Vec::<u8>::new());
}
