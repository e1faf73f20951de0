use ds4u::firmware::{
    body_chunk, body_progress, check_battery_level, check_firmware_compatibility,
    check_update_request, classify_status, data_packet, finalize_packet, firmware_version,
    get_product_name, prologue_chunk, read_status, status_request, verify_packet, FirmwareError,
    PollOutcome, StatusVerdict,
    StatusVerdict::{Done, NoSuchPhase, Rejected, Retry, Unknown},
};
use ds4u::dualsense::{DeviceInfo, DualSense};
use ds4u::updater::{FlashEvent, FlashOp, FlashStage, FlashStep, Flasher};

const SIZE: usize = 950272;

fn image(product_id: u16) -> Vec<u8> {
    let mut fw: Vec<u8> = (0..SIZE).map(|i| (i * 7 + i / 251) as u8).collect();
    fw[0x62] = (product_id & 0xff) as u8;
    fw[0x63] = (product_id >> 8) as u8;
    fw[0x78] = 0x30;
    fw[0x79] = 0x04;
    fw
}

fn battery_report(status: u8) -> Vec<u8> {
    let mut r = vec![0u8; 64];
    r[0] = 0x01;
    r[53] = status;
    r
}

fn status(phase: u8, code: u8) -> Vec<u8> {
    let mut r = vec![0u8; 64];
    r[0] = 0xf5;
    r[1] = phase;
    r[2] = code;
    r
}

fn abort_of(step: FlashStep) -> FirmwareError {
    match step.op {
        FlashOp::Abort(e) => e,
        other => panic!("no abort: {:?}", other),
    }
}

/// Brings an update up to the first packet of the prologue.
fn started(product_id: u16) -> (Flasher, FlashStep) {
    let mut f = Flasher::new(false, product_id, image(product_id));
    let step = f.step(FlashEvent::Start, 0);
    assert_eq!(step.op, FlashOp::Read);
    let step = f.step(FlashEvent::Report(battery_report(0x08)), 0);
    (f, step)
}

#[test]
fn precheck_of_product_and_size() {
    let fw = image(0x0ce6);
    assert_eq!(check_firmware_compatibility(0x0ce6, &fw), Ok(()));
    assert_eq!(
        check_firmware_compatibility(0x0df2, &fw),
        Err(FirmwareError::Incompatible { firmware: 0x0ce6, device: 0x0df2 })
    );
    assert_eq!(check_update_request(false, SIZE), Ok(()));
    assert_eq!(
        check_update_request(false, SIZE - 1),
        Err(FirmwareError::InvalidSize { size: 950271 })
    );

    // through the update itself
    let (_, step) = started(0x0ce6);
    assert_eq!(step.op, FlashOp::Send);
    let mut edge = Flasher::new(false, 0x0df2, image(0x0ce6));
    edge.step(FlashEvent::Start, 0);
    let step = edge.step(FlashEvent::Report(battery_report(0x08)), 0);
    assert_eq!(
        abort_of(step),
        FirmwareError::Incompatible { firmware: 0x0ce6, device: 0x0df2 }
    );
    for product in [0x0ce6u16, 0x0df2] {
        let mut short = image(product);
        short.pop();
        let mut f = Flasher::new(false, product, short);
        let step = f.step(FlashEvent::Start, 0);
        assert_eq!(abort_of(step), FirmwareError::InvalidSize { size: 950271 });
        assert!(f.is_finished());
    }
}

#[test]
fn checks_come_in_order() {
    // Bluetooth before size
    assert_eq!(check_update_request(true, 3), Err(FirmwareError::Bluetooth));
    assert_eq!(check_update_request(true, SIZE), Err(FirmwareError::Bluetooth));
    assert_eq!(check_update_request(false, 0), Err(FirmwareError::InvalidSize { size: 0 }));
    let mut f = Flasher::new(true, 0x0ce6, vec![0; 3]);
    assert_eq!(abort_of(f.step(FlashEvent::Start, 0)), FirmwareError::Bluetooth);
    // battery before product
    let mut f = Flasher::new(false, 0x0df2, image(0x0ce6));
    f.step(FlashEvent::Start, 0);
    let step = f.step(FlashEvent::Report(battery_report(0x00)), 0);
    assert_eq!(abort_of(step), FirmwareError::BatteryLow { capacity: 5 });
}

#[test]
fn battery_threshold() {
    assert_eq!(check_battery_level(9), Err(FirmwareError::BatteryLow { capacity: 9 }));
    assert_eq!(check_battery_level(0), Err(FirmwareError::BatteryLow { capacity: 0 }));
    assert_eq!(check_battery_level(10), Ok(()));
    assert_eq!(check_battery_level(100), Ok(()));
    // "not charging" reads as an empty battery
    let mut f = Flasher::new(false, 0x0ce6, image(0x0ce6));
    f.step(FlashEvent::Start, 0);
    let step = f.step(FlashEvent::Report(battery_report(0xa9)), 0);
    assert_eq!(abort_of(step), FirmwareError::BatteryLow { capacity: 0 });
}

#[test]
fn battery_read_failures() {
    let mut f = Flasher::new(false, 0x0ce6, image(0x0ce6));
    f.step(FlashEvent::Start, 0);
    assert_eq!(abort_of(f.step(FlashEvent::Report(vec![]), 0)), FirmwareError::BatteryTimeout);
    let mut f = Flasher::new(false, 0x0ce6, image(0x0ce6));
    f.step(FlashEvent::Start, 0);
    assert_eq!(
        abort_of(f.step(FlashEvent::Report(vec![0x31; 78]), 0)),
        FirmwareError::BatteryReport
    );
    let mut f = Flasher::new(false, 0x0ce6, image(0x0ce6));
    f.step(FlashEvent::Start, 0);
    assert_eq!(
        abort_of(f.step(FlashEvent::Failed("unplugged".to_string()), 0)),
        FirmwareError::Transport("unplugged".to_string())
    );
}

#[test]
fn image_header() {
    let fw = image(0x0df2);
    assert_eq!(firmware_version(&fw), Some(0x0430));
    assert_eq!(firmware_version(&fw[..0x80]), Some(0x0430));
    assert_eq!(firmware_version(&fw[..0x7f]), None);
    assert_eq!(check_firmware_compatibility(0x0df2, &fw[..0x80]), Ok(()));
    assert_eq!(check_firmware_compatibility(0x0df2, &fw[..0x7f]), Err(FirmwareError::TooSmall));
    assert_eq!(check_firmware_compatibility(0x0df2, &[]), Err(FirmwareError::TooSmall));
}

#[test]
fn status_table() {
    let start: [(u8, StatusVerdict); 11] = [
        (0x00, Done),
        (0x04, Retry),
        (0x10, Retry),
        (0x01, Rejected),
        (0x02, Rejected),
        (0x03, Rejected),
        (0x05, Rejected),
        (0x06, Rejected),
        (0x11, Rejected),
        (0xff, Rejected),
        (0x07, Unknown),
    ];
    for (code, verdict) in start {
        assert_eq!(classify_status(0x00, code), verdict);
    }
    let write: [(u8, StatusVerdict); 10] = [
        (0x00, Done),
        (0x03, Done),
        (0x01, Retry),
        (0x10, Retry),
        (0x02, Rejected),
        (0x04, Rejected),
        (0x11, Rejected),
        (0xff, Rejected),
        (0x05, Unknown),
        (0x06, Unknown),
    ];
    for (code, verdict) in write {
        assert_eq!(classify_status(0x01, code), verdict);
    }
    let verify: [(u8, StatusVerdict); 10] = [
        (0x00, Done),
        (0x10, Retry),
        (0x01, Rejected),
        (0x02, Rejected),
        (0x03, Rejected),
        (0x04, Rejected),
        (0x11, Rejected),
        (0xff, Rejected),
        (0x05, Unknown),
        (0x12, Unknown),
    ];
    for (code, verdict) in verify {
        assert_eq!(classify_status(0x02, code), verdict);
    }
    for phase in 3..=255u8 {
        assert_eq!(classify_status(phase, 0), NoSuchPhase);
    }
    // every status has exactly one meaning, and the known ones are as many as listed
    for (phase, known) in [(0u8, 10usize), (1, 8), (2, 8)] {
        let n = (0..=255u8).filter(|c| classify_status(phase, *c) != Unknown).count();
        assert_eq!(n, known);
    }
}

#[test]
fn status_reports() {
    assert_eq!(read_status(0, &status(0, 0)), PollOutcome::Done);
    assert_eq!(read_status(0, &status(0, 4)), PollOutcome::Retry);
    assert_eq!(read_status(1, &status(1, 3)), PollOutcome::Done);
    assert_eq!(
        read_status(1, &status(0, 0)),
        PollOutcome::Failed(FirmwareError::UnexpectedPhase { phase: 0, expected: 1 })
    );
    assert_eq!(
        read_status(2, &status(2, 2)),
        PollOutcome::Failed(FirmwareError::Status { expected: 2, status: 2 })
    );
    assert_eq!(
        read_status(2, &status(2, 0x77)),
        PollOutcome::Failed(FirmwareError::Status { expected: 2, status: 0x77 })
    );
    assert_eq!(
        read_status(9, &status(9, 0)),
        PollOutcome::Failed(FirmwareError::UnknownPhase { expected: 9 })
    );
    assert_eq!(
        read_status(0, &[0xf5, 0]),
        PollOutcome::Failed(FirmwareError::ShortStatus { size: 2 })
    );
}

#[test]
fn packets() {
    let fw = image(0x0ce6);
    let p = data_packet(0x00, &fw, 0, 57);
    assert_eq!(p.len(), 64);
    assert_eq!(&p[..3], &[0xf4, 0x00, 57]);
    assert_eq!(&p[3..60], &fw[..57]);
    assert_eq!(&p[60..], &[0, 0, 0, 0]);
    let p = data_packet(0x01, &fw, 1000, 22);
    assert_eq!(&p[..3], &[0xf4, 0x01, 22]);
    assert_eq!(&p[3..25], &fw[1000..1022]);
    assert!(p[25..].iter().all(|b| *b == 0));
    let p = data_packet(0x01, &fw, SIZE, 0);
    assert_eq!(&p[..3], &[0xf4, 0x01, 0]);
    assert!(p[3..].iter().all(|b| *b == 0));

    let mut expected = vec![0u8; 64];
    expected[0] = 0xf5;
    assert_eq!(status_request(), expected);
    expected[0] = 0xf4;
    expected[1] = 0x02;
    assert_eq!(verify_packet(), expected);
    expected[1] = 0x03;
    assert_eq!(finalize_packet(), expected);
}

#[test]
fn chunk_sizes() {
    assert_eq!(prologue_chunk(0), 57);
    assert_eq!(prologue_chunk(171), 57);
    assert_eq!(prologue_chunk(228), 28);
    assert_eq!(prologue_chunk(255), 1);
    assert_eq!(body_chunk(SIZE, 256), 57);
    // the last packet of a page is cut at the end of the page
    assert_eq!(body_chunk(SIZE, 256 + 574 * 57), 50);
    assert_eq!(body_chunk(SIZE, 256 + 0x8000), 57);
    assert_eq!(body_chunk(SIZE, 256 + 0x8000 - 1), 1);
    // the last packet of the image is cut at its end
    assert_eq!(body_chunk(SIZE, SIZE - 22), 22);
    assert_eq!(body_chunk(SIZE, SIZE - 1), 1);
    assert_eq!(body_chunk(300, 256), 44);
}

#[test]
fn progress_of_the_body() {
    assert_eq!(body_progress(0), 5);
    assert_eq!(body_progress(57), 5);
    assert_eq!(body_progress(950016), 95);
    assert_eq!(body_progress(950016 / 2), 50);
    assert_eq!(body_progress(10555), 5);
    assert_eq!(body_progress(10556), 6);
    assert_eq!(body_progress(950015), 94);
}

/// A device that takes every packet, is busy now and then, and keeps what it is sent.
struct Device {
    prologue: Vec<u8>,
    body: Vec<u8>,
    packets: usize,
    busy: u32,
    verified: bool,
    finalized: bool,
    phase: u8,
}

impl Device {
    fn new() -> Device {
        Device {
            prologue: Vec::new(),
            body: Vec::new(),
            packets: 0,
            busy: 0,
            verified: false,
            finalized: false,
            phase: 0,
        }
    }

    fn send(&mut self, packet: &[u8]) {
        assert_eq!(packet.len(), 64);
        assert_eq!(packet[0], 0xf4);
        self.packets += 1;
        self.phase = packet[1];
        let n = packet[2] as usize;
        match packet[1] {
            0 => self.prologue.extend_from_slice(&packet[3..3 + n]),
            1 => self.body.extend_from_slice(&packet[3..3 + n]),
            2 => self.verified = true,
            3 => self.finalized = true,
            other => panic!("phase {}", other),
        }
        assert!(packet[3 + n..].iter().all(|b| *b == 0));
        if self.packets % 1000 == 0 {
            self.busy = 2;
        }
    }

    fn poll(&mut self, request: &[u8]) -> Vec<u8> {
        assert_eq!(request.len(), 64);
        assert_eq!(request[0], 0xf5);
        if self.busy > 0 {
            self.busy -= 1;
            status(self.phase, 0x10)
        } else {
            status(self.phase, 0x00)
        }
    }
}

#[test]
fn a_whole_update() {
    let fw = image(0x0ce6);
    let mut flasher = Flasher::new(false, 0x0ce6, fw.clone());
    let mut device = Device::new();
    let mut progress: Vec<u32> = Vec::new();
    let mut delays: Vec<u64> = Vec::new();
    let mut now: u64 = 0;
    let mut event = FlashEvent::Start;
    let mut steps = 0usize;
    loop {
        let before = flasher.progress();
        let step = flasher.step(event, now);
        steps += 1;
        for p in step.progress.iter() {
            assert!(before <= *p && *p <= flasher.progress());
        }
        progress.extend_from_slice(&step.progress);
        now += step.delay_ms + 1;
        if delays.len() < 8 {
            delays.push(step.delay_ms);
        }
        event = match step.op {
            FlashOp::Read => FlashEvent::Report(battery_report(0x15)),
            FlashOp::Send => {
                device.send(&step.packet);
                FlashEvent::Sent
            },
            FlashOp::Poll => FlashEvent::Status(device.poll(&step.packet)),
            FlashOp::Complete => break,
            other => panic!("{:?}", other),
        };
        assert!(!flasher.is_finished());
    }
    assert!(flasher.is_finished());
    assert_eq!(flasher.stage(), FlashStage::Finished);
    assert_eq!(device.prologue, &fw[..256]);
    assert_eq!(device.body, &fw[256..]);
    assert!(device.verified && device.finalized);
    // five packets of prologue, 28 pages of 575 packets and one of 571, verify, finalize
    assert_eq!(device.packets, 5 + 28 * 575 + 571 + 2);
    assert!(steps > 2 * device.packets);
    // start, read, first packet, pause behind the first packet, ...
    assert_eq!(delays, vec![0, 0, 50, 0, 0, 0, 0, 0]);

    assert_eq!(progress[0], 0);
    assert_eq!(progress[1], 5);
    assert!(progress.windows(2).all(|w| w[0] <= w[1]));
    assert_eq!(&progress[progress.len() - 4..], &[95, 95, 98, 100]);
    assert_eq!(progress.len(), 2 + (28 * 575 + 571) + 1 + 2);
    for p in 5..=95u32 {
        assert!(progress.contains(&p));
    }

    // an update that is over stays so
    let step = flasher.step(FlashEvent::Sent, now);
    assert_eq!(step.op, FlashOp::Stopped);
    assert!(step.progress.is_empty() && step.packet.is_empty());
    assert_eq!(flasher.step(FlashEvent::Start, now).op, FlashOp::Stopped);
}

#[test]
fn prologue_packets_and_pauses() {
    let fw = image(0x0df2);
    let (mut f, mut step) = started(0x0df2);
    assert_eq!(step.progress, vec![0]);
    let sizes = [57usize, 57, 57, 57, 28];
    let mut offset = 0;
    for (i, size) in sizes.iter().enumerate() {
        assert_eq!(step.op, FlashOp::Send);
        assert_eq!(f.stage(), FlashStage::Prologue { offset });
        assert_eq!(&step.packet[..3], &[0xf4, 0x00, *size as u8]);
        assert_eq!(&step.packet[3..3 + size], &fw[offset..offset + size]);
        assert_eq!(step.delay_ms, if i == 1 { 50 } else { 0 });
        offset += size;
        step = f.step(FlashEvent::Sent, 5);
    }
    assert_eq!(step.op, FlashOp::Poll);
    assert_eq!(f.stage(), FlashStage::PrologueStatus);
    let step = f.step(FlashEvent::Status(status(0, 0)), 6);
    assert_eq!(step.op, FlashOp::Send);
    assert_eq!(step.progress, vec![5]);
    assert_eq!(f.stage(), FlashStage::Body { offset: 256 });
    assert_eq!(&step.packet[..3], &[0xf4, 0x01, 57]);
    assert_eq!(&step.packet[3..60], &fw[256..313]);
    let step = f.step(FlashEvent::Sent, 7);
    assert_eq!(step.op, FlashOp::Poll);
    assert_eq!(step.delay_ms, 0);
    assert_eq!(f.stage(), FlashStage::BodyStatus { offset: 256 });
    let step = f.step(FlashEvent::Status(status(1, 3)), 8);
    assert_eq!(step.op, FlashOp::Send);
    assert_eq!(step.delay_ms, 10);
    assert_eq!(step.progress, vec![5]);
    assert_eq!(f.stage(), FlashStage::Body { offset: 313 });
}

/// Brings an update to the wait for the status of the prologue.
fn waiting(now: u64) -> Flasher {
    let (mut f, _) = started(0x0ce6);
    for _ in 0..4 {
        assert_eq!(f.step(FlashEvent::Sent, now).op, FlashOp::Send);
    }
    assert_eq!(f.step(FlashEvent::Sent, now).op, FlashOp::Poll);
    f
}

#[test]
fn a_busy_device_is_asked_again_for_thirty_seconds() {
    let mut f = waiting(1000);
    let step = f.step(FlashEvent::Status(status(0, 0x10)), 1010);
    assert_eq!(step.op, FlashOp::Poll);
    assert_eq!(step.delay_ms, 10);
    assert_eq!(step.packet, status_request());
    let step = f.step(FlashEvent::Status(status(0, 0x04)), 31000);
    assert_eq!(step.op, FlashOp::Poll);
    let step = f.step(FlashEvent::Status(status(0, 0x04)), 31001);
    assert_eq!(abort_of(step), FirmwareError::Timeout);
    assert!(f.is_finished());

    // a status that ends the wait counts however late it comes
    let mut f = waiting(1000);
    let step = f.step(FlashEvent::Status(status(0, 0x00)), 100_000);
    assert_eq!(step.op, FlashOp::Send);

    // a clock that went back counts as no time
    let mut f = waiting(1000);
    assert_eq!(f.step(FlashEvent::Status(status(0, 0x10)), 5).op, FlashOp::Poll);
}

#[test]
fn failures_end_the_update() {
    let mut f = waiting(0);
    assert_eq!(
        abort_of(f.step(FlashEvent::Status(status(1, 0)), 1)),
        FirmwareError::UnexpectedPhase { phase: 1, expected: 0 }
    );
    let mut f = waiting(0);
    assert_eq!(
        abort_of(f.step(FlashEvent::Status(status(0, 5)), 1)),
        FirmwareError::Status { expected: 0, status: 5 }
    );
    let mut f = waiting(0);
    assert_eq!(
        abort_of(f.step(FlashEvent::Failed("gone".to_string()), 1)),
        FirmwareError::Transport("gone".to_string())
    );
    let mut f = waiting(0);
    assert_eq!(
        abort_of(f.step(FlashEvent::Status(vec![0xf5]), 1)),
        FirmwareError::ShortStatus { size: 1 }
    );
    let (mut f, _) = started(0x0ce6);
    assert_eq!(
        abort_of(f.step(FlashEvent::Failed("gone".to_string()), 1)),
        FirmwareError::Send("gone".to_string())
    );
    assert_eq!(f.step(FlashEvent::Sent, 2).op, FlashOp::Stopped);
}

#[test]
fn answers_out_of_turn_end_the_update() {
    let mut f = Flasher::new(false, 0x0ce6, image(0x0ce6));
    assert_eq!(abort_of(f.step(FlashEvent::Sent, 0)), FirmwareError::OutOfOrder);
    let (mut f, _) = started(0x0ce6);
    assert_eq!(
        abort_of(f.step(FlashEvent::Status(status(0, 0)), 0)),
        FirmwareError::OutOfOrder
    );
    let mut f = waiting(0);
    assert_eq!(abort_of(f.step(FlashEvent::Sent, 0)), FirmwareError::OutOfOrder);
    let mut f = Flasher::new(false, 0x0ce6, image(0x0ce6));
    f.step(FlashEvent::Start, 0);
    assert_eq!(abort_of(f.step(FlashEvent::Start, 0)), FirmwareError::OutOfOrder);
}

#[test]
fn firmware_error_texts() {
    let cases: Vec<(FirmwareError, String)> = vec![
        (FirmwareError::Bluetooth, "Firmware update not supported over Bluetooth.".into()),
        (
            FirmwareError::InvalidSize { size: 950271 },
            "Invalid firmware size: 950271 bytes (expected 950272)".into(),
        ),
        (FirmwareError::BatteryTimeout, "Timeout".into()),
        (FirmwareError::BatteryReport, "Invalid report received".into()),
        (
            FirmwareError::BatteryLow { capacity: 5 },
            "Battery too low: 5% (need at least 10%)".into(),
        ),
        (FirmwareError::TooSmall, "Firmware file too small".into()),
        (
            FirmwareError::Incompatible { firmware: 0x0ce6, device: 0x0df2 },
            "Firmware incompatible. Firmware device: 0x0CE6, Connected device: 0x0DF2".into(),
        ),
        (
            FirmwareError::Send("pipe".into()),
            "Failed to send firmware data: pipe.\n                    Controller may have disconnected."
                .into(),
        ),
        (FirmwareError::Transport("pipe".into()), "pipe".into()),
        (FirmwareError::Timeout, "Firmware update timeout".into()),
        (FirmwareError::ShortStatus { size: 2 }, "Status report too short: 2 bytes".into()),
        (
            FirmwareError::UnexpectedPhase { phase: 0x0a, expected: 1 },
            "Unexpected phase: 0x0a (expected 0x01)".into(),
        ),
        (FirmwareError::UnknownPhase { expected: 0xab }, "Unknown phase: 0xab".into()),
        (FirmwareError::OutOfOrder, "Unexpected answer from the device".into()),
        (
            FirmwareError::Status { expected: 0, status: 0x01 },
            "Start error 0x01: firmware rejected".into(),
        ),
        (
            FirmwareError::Status { expected: 0, status: 0x02 },
            "Start error 0x02: invalid firmware".into(),
        ),
        (
            FirmwareError::Status { expected: 0, status: 0x03 },
            "Start error 0x03: invalid firmware".into(),
        ),
        (
            FirmwareError::Status { expected: 0, status: 0x05 },
            "Start error 0x05: battery or power error".into(),
        ),
        (
            FirmwareError::Status { expected: 0, status: 0x06 },
            "Start error 0x06: temperature or safety error".into(),
        ),
        (
            FirmwareError::Status { expected: 0, status: 0x11 },
            "Start error 0x11: invalid firmware".into(),
        ),
        (
            FirmwareError::Status { expected: 0, status: 0xff },
            "Start error 0xFF: internal error".into(),
        ),
        (
            FirmwareError::Status { expected: 0, status: 0xab },
            "Start unknown status: 0xab".into(),
        ),
        (
            FirmwareError::Status { expected: 1, status: 0x02 },
            "Write error 0x02: invalid firmware data".into(),
        ),
        (
            FirmwareError::Status { expected: 1, status: 0x04 },
            "Write error 0x04: invalid firmware data".into(),
        ),
        (
            FirmwareError::Status { expected: 1, status: 0x11 },
            "Write error 0x11: invalid firmware".into(),
        ),
        (
            FirmwareError::Status { expected: 1, status: 0xff },
            "Write error 0xFF: internal error".into(),
        ),
        (
            FirmwareError::Status { expected: 1, status: 0x05 },
            "Write unknown status: 0x05".into(),
        ),
        (
            FirmwareError::Status { expected: 2, status: 0x01 },
            "Verify error 0x01: firmware rejected".into(),
        ),
        (
            FirmwareError::Status { expected: 2, status: 0x02 },
            "Verify error 0x02: checksum mismatch".into(),
        ),
        (
            FirmwareError::Status { expected: 2, status: 0x03 },
            "Verify error 0x03: invalid firmware".into(),
        ),
        (
            FirmwareError::Status { expected: 2, status: 0x04 },
            "Verify error 0x04: invalid firmware".into(),
        ),
        (
            FirmwareError::Status { expected: 2, status: 0x11 },
            "Verify error 0x11: invalid firmware".into(),
        ),
        (
            FirmwareError::Status { expected: 2, status: 0xff },
            "Verify error 0xFF: internal error".into(),
        ),
        (
            FirmwareError::Status { expected: 2, status: 0x0c },
            "Verify unknown status: 0x0c".into(),
        ),
    ];
    for (error, text) in cases {
        assert_eq!(error.message(), text);
    }
}

#[test]
fn an_update_begins_at_the_session() {
    let session = DualSense::new(&DeviceInfo {
        vendor_id: 0x054c,
        product_id: 0x0df2,
        serial: None,
        interface_number: 0,
    });
    let mut f = session.update_firmware(image(0x0ce6));
    assert_eq!(f.stage(), FlashStage::Idle);
    assert_eq!(f.progress(), 0);
    assert_eq!(f.step(FlashEvent::Start, 0).op, FlashOp::Read);
    assert_eq!(f.stage(), FlashStage::Battery);
    assert_eq!(
        abort_of(f.step(FlashEvent::Report(battery_report(0x08)), 0)),
        FirmwareError::Incompatible { firmware: 0x0ce6, device: 0x0df2 }
    );
    let over_bluetooth = DualSense::new(&DeviceInfo {
        vendor_id: 0x054c,
        product_id: 0x0ce6,
        serial: None,
        interface_number: -1,
    });
    let mut f = over_bluetooth.update_firmware(image(0x0ce6));
    assert_eq!(abort_of(f.step(FlashEvent::Start, 0)), FirmwareError::Bluetooth);
}

#[test]
fn product_names() {
    assert_eq!(get_product_name(0x0ce6), "DualSense");
    assert_eq!(get_product_name(0x0df2), "DualSense Edge");
    assert_eq!(get_product_name(0x05c4), "Unknown");
}
