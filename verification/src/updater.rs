use crate::common::FIRMWARE_SIZE;
use crate::dualsense::{decode_battery, spec_battery_capacity, spec_battery_offset};
use crate::firmware::{
    body_chunk, body_progress, check_battery_level, check_firmware_compatibility,
    check_update_request, data_packet, finalize_packet, prologue_chunk, read_status,
    spec_body_chunk, spec_body_progress, spec_check_battery_level,
    spec_check_firmware_compatibility, spec_check_update_request, spec_command_packet,
    spec_data_packet, spec_prologue_chunk, spec_read_status, status_request, verify_packet,
    FirmwareError, PollOutcome, DS_FEATURE_REPORT_FW, DS_FEATURE_REPORT_FW_STATUS,
    FW_PHASE_FINALIZE, FW_PHASE_START, FW_PHASE_VERIFY, FW_PHASE_WRITE, FW_POLL_PAUSE_MS,
    FW_PROLOGUE_SIZE, FW_START_PAUSE_MS, FW_STATUS_TIMEOUT_MS,
};
use crate::report::{spec_check_input_frame, ReportError};
use vstd::prelude::*;

verus! {

/// Progress when the checks before an update have passed.
pub const PROGRESS_CHECKED: u32 = 0;

/// Progress when the prologue is accepted.
pub const PROGRESS_PROLOGUE_DONE: u32 = 5;

/// Progress when the body is written and verification begins.
pub const PROGRESS_VERIFYING: u32 = 95;

/// Progress when the image is verified.
pub const PROGRESS_VERIFIED: u32 = 98;

/// Progress when the update is complete.
pub const PROGRESS_COMPLETE: u32 = 100;

/// How far an update has come. Where a stage names an offset, it is that
/// of the packet which was handed out last.
#[derive(Clone, Copy, Debug, PartialEq, Eq, Structural)]
pub enum FlashStage {
    /// Nothing has happened yet.
    Idle,
    /// An input report has been asked for, to read the battery from.
    Battery,
    /// The packet of the prologue at `offset` is being sent.
    Prologue { offset: usize },
    /// The status of the prologue has been asked for.
    PrologueStatus,
    /// The packet of the body at `offset` is being sent.
    Body { offset: usize },
    /// The status of the packet of the body at `offset` has been asked for.
    BodyStatus { offset: usize },
    /// The command to verify is being sent.
    Verify,
    /// The status of the verification has been asked for.
    VerifyStatus,
    /// The command that ends the update is being sent.
    Finalize,
    /// The update is over, well or not.
    Finished,
}

/// What happened on the device since the last step.
#[derive(Clone, Debug, PartialEq, Eq)]
pub enum FlashEvent {
    /// The update is to begin.
    Start,
    /// An input report was read; these are its bytes.
    Report(Vec<u8>),
    /// The packet was sent.
    Sent,
    /// The status was read; this is the buffer that the device filled.
    Status(Vec<u8>),
    /// What was asked of the device failed, with this cause.
    Failed(String),
}

/// What to do on the device next.
#[derive(Clone, Debug, PartialEq, Eq)]
pub enum FlashOp {
    /// Read one input report and answer with `Report`.
    Read,
    /// Send the packet of the step as a feature report and answer with `Sent`.
    Send,
    /// Hand the packet of the step to the device as the request for a
    /// feature report and answer with `Status`.
    Poll,
    /// The update is complete.
    Complete,
    /// The update has failed.
    Abort(FirmwareError),
    /// The update was over already; nothing is to be done.
    Stopped,
}

/// One step of an update: the progress to report, in order, then the pause
/// to make, and then what to do on the device.
#[derive(Clone, Debug)]
pub struct FlashStep {
    pub progress: Vec<u32>,
    pub delay_ms: u64,
    pub op: FlashOp,
    pub packet: Vec<u8>,
}

/// An update, as contracts speak of it.
pub struct FlasherView {
    pub is_bt: bool,
    pub product_id: u16,
    pub firmware: Seq<u8>,
    pub stage: FlashStage,
    pub wait_started: u64,
}

/// A step as contracts speak of it, with the stage it leads to.
pub struct StepSpec {
    pub stage: FlashStage,
    pub wait_started: u64,
    pub progress: Seq<u32>,
    pub delay_ms: u64,
    pub op: FlashOp,
    pub packet: Seq<u8>,
}

/// The progress that has been reported when a stage is reached.
pub open spec fn spec_stage_progress(stage: FlashStage) -> u32 {
    match stage {
        FlashStage::Idle | FlashStage::Battery => 0,
        FlashStage::Prologue { .. } | FlashStage::PrologueStatus => PROGRESS_CHECKED,
        FlashStage::Body { offset } | FlashStage::BodyStatus { offset } => spec_body_progress(
            offset - FW_PROLOGUE_SIZE,
            FIRMWARE_SIZE - FW_PROLOGUE_SIZE,
        ),
        FlashStage::Verify | FlashStage::VerifyStatus => PROGRESS_VERIFYING,
        FlashStage::Finalize => PROGRESS_VERIFIED,
        FlashStage::Finished => PROGRESS_COMPLETE,
    }
}

/// Milliseconds from `started` to `now`; none if the clock went back.
pub open spec fn spec_elapsed(started: u64, now: u64) -> int {
    if now >= started {
        now - started
    } else {
        0
    }
}

impl FlasherView {
    /// Whether the stage fits the image: past the first check the image
    /// has the length of a firmware image and travels over USB, and an
    /// offset lies in the part of the image that its stage sends.
    pub open spec fn wf(self) -> bool {
        &&& self.stage !is Idle && self.stage !is Finished ==> self.firmware.len() == FIRMWARE_SIZE
            && !self.is_bt
        &&& self.stage matches FlashStage::Prologue { offset } ==> offset < FW_PROLOGUE_SIZE
        &&& self.stage matches FlashStage::Body { offset } ==> FW_PROLOGUE_SIZE <= offset
            < FIRMWARE_SIZE
        &&& self.stage matches FlashStage::BodyStatus { offset } ==> FW_PROLOGUE_SIZE <= offset
            < FIRMWARE_SIZE
    }

    /// The step that ends the update with an error.
    pub open spec fn abort(self, error: FirmwareError) -> StepSpec {
        StepSpec {
            stage: FlashStage::Finished,
            wait_started: self.wait_started,
            progress: Seq::empty(),
            delay_ms: 0,
            op: FlashOp::Abort(error),
            packet: Seq::empty(),
        }
    }

    /// The step that sends `packet` after `delay_ms` and leads to `stage`.
    pub open spec fn send(
        self,
        stage: FlashStage,
        progress: Seq<u32>,
        delay_ms: u64,
        packet: Seq<u8>,
    ) -> StepSpec {
        StepSpec {
            stage,
            wait_started: self.wait_started,
            progress,
            delay_ms,
            op: FlashOp::Send,
            packet,
        }
    }

    /// The step that asks for the status after `delay_ms`, in a wait that
    /// began at `wait_started`.
    pub open spec fn poll(self, stage: FlashStage, wait_started: u64, delay_ms: u64) -> StepSpec {
        StepSpec {
            stage,
            wait_started,
            progress: Seq::empty(),
            delay_ms,
            op: FlashOp::Poll,
            packet: spec_command_packet(DS_FEATURE_REPORT_FW_STATUS, 0),
        }
    }

    /// The step at the beginning: transport and length of the image are
    /// checked, then the battery is asked for.
    pub open spec fn on_start(self) -> StepSpec {
        match spec_check_update_request(self.is_bt, self.firmware.len()) {
            Err(e) => self.abort(e),
            Ok(()) => StepSpec {
                stage: FlashStage::Battery,
                wait_started: self.wait_started,
                progress: Seq::empty(),
                delay_ms: 0,
                op: FlashOp::Read,
                packet: Seq::empty(),
            },
        }
    }

    /// The step when the input report has come: the charge and the product
    /// of the image are checked, then the prologue begins.
    pub open spec fn on_battery(self, report: Seq<u8>) -> StepSpec {
        match spec_check_input_frame(self.is_bt, report) {
            Err(ReportError::Timeout) => self.abort(FirmwareError::BatteryTimeout),
            Err(ReportError::Unexpected { .. }) => self.abort(FirmwareError::BatteryReport),
            Ok(()) => match spec_check_battery_level(
                spec_battery_capacity(report[spec_battery_offset(self.is_bt)]),
            ) {
                Err(e) => self.abort(e),
                Ok(()) => match spec_check_firmware_compatibility(self.product_id, self.firmware) {
                    Err(e) => self.abort(e),
                    Ok(()) => self.send(
                        FlashStage::Prologue { offset: 0 },
                        seq![PROGRESS_CHECKED],
                        0,
                        spec_data_packet(
                            FW_PHASE_START,
                            self.firmware,
                            0,
                            spec_prologue_chunk(0),
                        ),
                    ),
                },
            },
        }
    }

    /// The step when the packet of the prologue at `offset` is sent: the
    /// next packet follows, after a pause behind the first; behind the
    /// last the status is asked for.
    pub open spec fn on_prologue_sent(self, offset: usize, now: u64) -> StepSpec {
        let next = offset + spec_prologue_chunk(offset as int);
        let pause = if offset == 0 {
            FW_START_PAUSE_MS
        } else {
            0
        };
        if next < FW_PROLOGUE_SIZE {
            self.send(
                FlashStage::Prologue { offset: next as usize },
                Seq::empty(),
                pause,
                spec_data_packet(FW_PHASE_START, self.firmware, next, spec_prologue_chunk(next)),
            )
        } else {
            self.poll(FlashStage::PrologueStatus, now, pause)
        }
    }

    /// The step when the device is busy: it is asked again after a pause,
    /// unless the wait has lasted too long.
    pub open spec fn on_retry(self, now: u64) -> StepSpec {
        if spec_elapsed(self.wait_started, now) > FW_STATUS_TIMEOUT_MS {
            self.abort(FirmwareError::Timeout)
        } else {
            self.poll(self.stage, self.wait_started, FW_POLL_PAUSE_MS)
        }
    }

    /// The step when the prologue is accepted: the first packet of the body goes out.
    pub open spec fn on_prologue_done(self) -> StepSpec {
        self.send(
            FlashStage::Body { offset: FW_PROLOGUE_SIZE },
            seq![PROGRESS_PROLOGUE_DONE],
            0,
            spec_data_packet(
                FW_PHASE_WRITE,
                self.firmware,
                FW_PROLOGUE_SIZE as int,
                spec_body_chunk(self.firmware.len() as int, FW_PROLOGUE_SIZE as int),
            ),
        )
    }

    /// The step when the packet of the body at `offset` is accepted: the
    /// progress is reported and, after a pause, the next packet goes out;
    /// behind the last the device is told to verify.
    pub open spec fn on_body_done(self, offset: usize) -> StepSpec {
        let total = self.firmware.len() as int;
        let next = offset + spec_body_chunk(total, offset as int);
        let progress = spec_body_progress(next - FW_PROLOGUE_SIZE, total - FW_PROLOGUE_SIZE);
        if next < total {
            self.send(
                FlashStage::Body { offset: next as usize },
                seq![progress],
                FW_POLL_PAUSE_MS,
                spec_data_packet(FW_PHASE_WRITE, self.firmware, next, spec_body_chunk(total, next)),
            )
        } else {
            self.send(
                FlashStage::Verify,
                seq![progress, PROGRESS_VERIFYING],
                FW_POLL_PAUSE_MS,
                spec_command_packet(DS_FEATURE_REPORT_FW, FW_PHASE_VERIFY),
            )
        }
    }

    /// The step when the image is verified: the update is ended.
    pub open spec fn on_verify_done(self) -> StepSpec {
        self.send(
            FlashStage::Finalize,
            seq![PROGRESS_VERIFIED],
            0,
            spec_command_packet(DS_FEATURE_REPORT_FW, FW_PHASE_FINALIZE),
        )
    }

    /// The step when the last command is sent: the update is complete.
    pub open spec fn on_finalized(self) -> StepSpec {
        StepSpec {
            stage: FlashStage::Finished,
            wait_started: self.wait_started,
            progress: seq![PROGRESS_COMPLETE],
            delay_ms: 0,
            op: FlashOp::Complete,
            packet: Seq::empty(),
        }
    }

    /// The step when a status has come while waiting for phase `expected`.
    pub open spec fn on_status(self, expected: u8, report: Seq<u8>, now: u64) -> StepSpec {
        match spec_read_status(expected, report) {
            PollOutcome::Failed(e) => self.abort(e),
            PollOutcome::Retry => self.on_retry(now),
            PollOutcome::Done => match self.stage {
                FlashStage::PrologueStatus => self.on_prologue_done(),
                FlashStage::BodyStatus { offset } => self.on_body_done(offset),
                _ => self.on_verify_done(),
            },
        }
    }

    /// The step that an update takes on an event at time `now`.
    pub open spec fn step(self, event: FlashEvent, now: u64) -> StepSpec {
        match (self.stage, event) {
            (FlashStage::Finished, _) => StepSpec {
                stage: FlashStage::Finished,
                wait_started: self.wait_started,
                progress: Seq::empty(),
                delay_ms: 0,
                op: FlashOp::Stopped,
                packet: Seq::empty(),
            },
            (FlashStage::Idle, FlashEvent::Start) => self.on_start(),
            (FlashStage::Battery, FlashEvent::Report(report)) => self.on_battery(report@),
            (FlashStage::Battery, FlashEvent::Failed(cause)) => self.abort(
                FirmwareError::Transport(cause),
            ),
            (FlashStage::Prologue { offset }, FlashEvent::Sent) => self.on_prologue_sent(
                offset,
                now,
            ),
            (FlashStage::Body { offset }, FlashEvent::Sent) => self.poll(
                FlashStage::BodyStatus { offset },
                now,
                0,
            ),
            (FlashStage::Verify, FlashEvent::Sent) => self.poll(FlashStage::VerifyStatus, now, 0),
            (FlashStage::Finalize, FlashEvent::Sent) => self.on_finalized(),
            (FlashStage::Prologue { .. }, FlashEvent::Failed(cause))
            | (FlashStage::Body { .. }, FlashEvent::Failed(cause))
            | (FlashStage::Verify, FlashEvent::Failed(cause))
            | (FlashStage::Finalize, FlashEvent::Failed(cause)) => self.abort(
                FirmwareError::Send(cause),
            ),
            (FlashStage::PrologueStatus, FlashEvent::Status(report)) => self.on_status(
                FW_PHASE_START,
                report@,
                now,
            ),
            (FlashStage::BodyStatus { .. }, FlashEvent::Status(report)) => self.on_status(
                FW_PHASE_WRITE,
                report@,
                now,
            ),
            (FlashStage::VerifyStatus, FlashEvent::Status(report)) => self.on_status(
                FW_PHASE_VERIFY,
                report@,
                now,
            ),
            (FlashStage::PrologueStatus, FlashEvent::Failed(cause))
            | (FlashStage::BodyStatus { .. }, FlashEvent::Failed(cause))
            | (FlashStage::VerifyStatus, FlashEvent::Failed(cause)) => self.abort(
                FirmwareError::Transport(cause),
            ),
            _ => self.abort(FirmwareError::OutOfOrder),
        }
    }

    /// The update after a step.
    pub open spec fn after(self, step: StepSpec) -> FlasherView {
        FlasherView { stage: step.stage, wait_started: step.wait_started, ..self }
    }
}

/// An update of the firmware of one controller. It decides, event by
/// event, what goes to the device next; the caller moves the bytes, keeps
/// the pauses and reads the clock.
#[derive(Debug)]
pub struct Flasher {
    is_bt: bool,
    product_id: u16,
    firmware: Vec<u8>,
    stage: FlashStage,
    wait_started: u64,
}

impl View for Flasher {
    type V = FlasherView;

    closed spec fn view(&self) -> FlasherView {
        FlasherView {
            is_bt: self.is_bt,
            product_id: self.product_id,
            firmware: self.firmware@,
            stage: self.stage,
            wait_started: self.wait_started,
        }
    }
}

fn no_bytes() -> (v: Vec<u8>)
    ensures
        v@ == Seq::<u8>::empty(),
{
    Vec::new()
}

fn no_progress() -> (v: Vec<u32>)
    ensures
        v@ == Seq::<u32>::empty(),
{
    Vec::new()
}

fn one_progress(p: u32) -> (v: Vec<u32>)
    ensures
        v@ == seq![p],
{
    let mut v = Vec::new();
    v.push(p);
    v
}

/// Whether `step` is the step `spec`.
pub open spec fn spec_is_step(step: FlashStep, spec: StepSpec) -> bool {
    &&& step.progress@ == spec.progress
    &&& step.delay_ms == spec.delay_ms
    &&& step.op == spec.op
    &&& step.packet@ == spec.packet
}

impl Flasher {
    #[verifier::type_invariant]
    spec fn inv(self) -> bool {
        self@.wf()
    }

    /// Prepares the update of a controller with `firmware`.
    pub fn new(is_bt: bool, product_id: u16, firmware: Vec<u8>) -> (flasher: Flasher)
        ensures
            flasher@ == (FlasherView {
                is_bt,
                product_id,
                firmware: firmware@,
                stage: FlashStage::Idle,
                wait_started: 0,
            }),
            flasher@.wf(),
    {
        Flasher { is_bt, product_id, firmware, stage: FlashStage::Idle, wait_started: 0 }
    }

    /// The stage that the update has reached.
    pub fn stage(&self) -> (stage: FlashStage)
        ensures
            stage == self@.stage,
    {
        self.stage
    }

    /// Whether the update is over.
    pub fn is_finished(&self) -> (yes: bool)
        ensures
            yes == (self@.stage is Finished),
    {
        match self.stage {
            FlashStage::Finished => true,
            _ => false,
        }
    }

    /// The progress in percent that has been reported so far.
    pub fn progress(&self) -> (p: u32)
        ensures
            p == spec_stage_progress(self@.stage),
            self@.wf(),
    {
        proof {
            use_type_invariant(self);
        }
        match self.stage {
            FlashStage::Idle | FlashStage::Battery => 0,
            FlashStage::Prologue { .. } | FlashStage::PrologueStatus => PROGRESS_CHECKED,
            FlashStage::Body { offset } | FlashStage::BodyStatus { offset } => body_progress(
                offset - FW_PROLOGUE_SIZE,
            ),
            FlashStage::Verify | FlashStage::VerifyStatus => PROGRESS_VERIFYING,
            FlashStage::Finalize => PROGRESS_VERIFIED,
            FlashStage::Finished => PROGRESS_COMPLETE,
        }
    }

    fn abort(&mut self, error: FirmwareError) -> (step: FlashStep)
        ensures
            spec_is_step(step, old(self)@.abort(error)),
            final(self)@ == old(self)@.after(old(self)@.abort(error)),
    {
        proof {
            use_type_invariant(&*self);
        }
        self.stage = FlashStage::Finished;
        FlashStep {
            progress: no_progress(),
            delay_ms: 0,
            op: FlashOp::Abort(error),
            packet: no_bytes(),
        }
    }

    fn poll(&mut self, stage: FlashStage, wait_started: u64, delay_ms: u64) -> (step: FlashStep)
        requires
            (FlasherView { stage, ..old(self)@ }).wf(),
        ensures
            spec_is_step(step, old(self)@.poll(stage, wait_started, delay_ms)),
            final(self)@ == old(self)@.after(old(self)@.poll(stage, wait_started, delay_ms)),
    {
        proof {
            use_type_invariant(&*self);
        }
        self.stage = stage;
        self.wait_started = wait_started;
        FlashStep { progress: no_progress(), delay_ms, op: FlashOp::Poll, packet: status_request() }
    }

    fn send(
        &mut self,
        stage: FlashStage,
        progress: Vec<u32>,
        delay_ms: u64,
        packet: Vec<u8>,
    ) -> (step: FlashStep)
        requires
            (FlasherView { stage, ..old(self)@ }).wf(),
        ensures
            spec_is_step(step, old(self)@.send(stage, progress@, delay_ms, packet@)),
            final(self)@ == old(self)@.after(
                old(self)@.send(stage, progress@, delay_ms, packet@),
            ),
    {
        proof {
            use_type_invariant(&*self);
        }
        self.stage = stage;
        FlashStep { progress, delay_ms, op: FlashOp::Send, packet }
    }

    fn on_start(&mut self) -> (step: FlashStep)
        requires
            old(self)@.stage is Idle,
        ensures
            spec_is_step(step, old(self)@.on_start()),
            final(self)@ == old(self)@.after(old(self)@.on_start()),
    {
        proof {
            use_type_invariant(&*self);
        }
        match check_update_request(self.is_bt, self.firmware.len()) {
            Err(e) => self.abort(e),
            Ok(()) => {
                self.stage = FlashStage::Battery;
                FlashStep {
                    progress: no_progress(),
                    delay_ms: 0,
                    op: FlashOp::Read,
                    packet: no_bytes(),
                }
            },
        }
    }

    fn on_battery(&mut self, report: &[u8]) -> (step: FlashStep)
        requires
            old(self)@.stage is Battery,
        ensures
            spec_is_step(step, old(self)@.on_battery(report@)),
            final(self)@ == old(self)@.after(old(self)@.on_battery(report@)),
    {
        proof {
            use_type_invariant(&*self);
        }
        let info = match decode_battery(self.is_bt, report) {
            Err(ReportError::Timeout) => {
                return self.abort(FirmwareError::BatteryTimeout);
            },
            Err(ReportError::Unexpected { .. }) => {
                return self.abort(FirmwareError::BatteryReport);
            },
            Ok(info) => info,
        };
        match check_battery_level(info.capacity) {
            Err(e) => {
                return self.abort(e);
            },
            Ok(()) => {},
        }
        match check_firmware_compatibility(self.product_id, self.firmware.as_slice()) {
            Err(e) => {
                return self.abort(e);
            },
            Ok(()) => {},
        }
        let size = prologue_chunk(0);
        let packet = data_packet(FW_PHASE_START, self.firmware.as_slice(), 0, size);
        self.send(FlashStage::Prologue { offset: 0 }, one_progress(PROGRESS_CHECKED), 0, packet)
    }

    fn on_prologue_sent(&mut self, offset: usize, now: u64) -> (step: FlashStep)
        requires
            old(self)@.stage == (FlashStage::Prologue { offset }),
        ensures
            spec_is_step(step, old(self)@.on_prologue_sent(offset, now)),
            final(self)@ == old(self)@.after(old(self)@.on_prologue_sent(offset, now)),
    {
        proof {
            use_type_invariant(&*self);
        }
        let next = offset + prologue_chunk(offset);
        let pause = if offset == 0 {
            FW_START_PAUSE_MS
        } else {
            0
        };
        if next < FW_PROLOGUE_SIZE {
            let size = prologue_chunk(next);
            let packet = data_packet(FW_PHASE_START, self.firmware.as_slice(), next, size);
            self.send(FlashStage::Prologue { offset: next }, no_progress(), pause, packet)
        } else {
            self.poll(FlashStage::PrologueStatus, now, pause)
        }
    }

    fn on_retry(&mut self, now: u64) -> (step: FlashStep)
        ensures
            spec_is_step(step, old(self)@.on_retry(now)),
            final(self)@ == old(self)@.after(old(self)@.on_retry(now)),
    {
        proof {
            use_type_invariant(&*self);
        }
        let elapsed = if now >= self.wait_started {
            now - self.wait_started
        } else {
            0
        };
        if elapsed > FW_STATUS_TIMEOUT_MS {
            self.abort(FirmwareError::Timeout)
        } else {
            let stage = self.stage;
            let started = self.wait_started;
            self.poll(stage, started, FW_POLL_PAUSE_MS)
        }
    }

    fn on_prologue_done(&mut self) -> (step: FlashStep)
        requires
            old(self)@.stage is PrologueStatus,
        ensures
            spec_is_step(step, old(self)@.on_prologue_done()),
            final(self)@ == old(self)@.after(old(self)@.on_prologue_done()),
    {
        proof {
            use_type_invariant(&*self);
        }
        let size = body_chunk(self.firmware.len(), FW_PROLOGUE_SIZE);
        let packet = data_packet(FW_PHASE_WRITE, self.firmware.as_slice(), FW_PROLOGUE_SIZE, size);
        self.send(
            FlashStage::Body { offset: FW_PROLOGUE_SIZE },
            one_progress(PROGRESS_PROLOGUE_DONE),
            0,
            packet,
        )
    }

    fn on_body_done(&mut self, offset: usize) -> (step: FlashStep)
        requires
            old(self)@.stage == (FlashStage::BodyStatus { offset }),
        ensures
            spec_is_step(step, old(self)@.on_body_done(offset)),
            final(self)@ == old(self)@.after(old(self)@.on_body_done(offset)),
    {
        proof {
            use_type_invariant(&*self);
        }
        let total = self.firmware.len();
        let next = offset + body_chunk(total, offset);
        let progress = body_progress(next - FW_PROLOGUE_SIZE);
        if next < total {
            let size = body_chunk(total, next);
            let packet = data_packet(FW_PHASE_WRITE, self.firmware.as_slice(), next, size);
            self.send(
                FlashStage::Body { offset: next },
                one_progress(progress),
                FW_POLL_PAUSE_MS,
                packet,
            )
        } else {
            let mut reported = one_progress(progress);
            reported.push(PROGRESS_VERIFYING);
            assert(reported@ == seq![progress, PROGRESS_VERIFYING]);
            self.send(FlashStage::Verify, reported, FW_POLL_PAUSE_MS, verify_packet())
        }
    }

    fn on_status(&mut self, expected: u8, report: &[u8], now: u64) -> (step: FlashStep)
        requires
            old(self)@.stage is PrologueStatus || old(self)@.stage is BodyStatus || old(
                self,
            )@.stage is VerifyStatus,
        ensures
            spec_is_step(step, old(self)@.on_status(expected, report@, now)),
            final(self)@ == old(self)@.after(old(self)@.on_status(expected, report@, now)),
    {
        proof {
            use_type_invariant(&*self);
        }
        match read_status(expected, report) {
            PollOutcome::Failed(e) => self.abort(e),
            PollOutcome::Retry => self.on_retry(now),
            PollOutcome::Done => match self.stage {
                FlashStage::PrologueStatus => self.on_prologue_done(),
                FlashStage::BodyStatus { offset } => self.on_body_done(offset),
                _ => self.send(
                    FlashStage::Finalize,
                    one_progress(PROGRESS_VERIFIED),
                    0,
                    finalize_packet(),
                ),
            },
        }
    }

    /// Takes one step: `event` is what happened on the device since the
    /// last step, `now_ms` the reading of a clock that does not go back,
    /// in milliseconds. The step says what to report, how long to pause and
    /// what to do on the device next.
    pub fn step(&mut self, event: FlashEvent, now_ms: u64) -> (step: FlashStep)
        ensures
            spec_is_step(step, old(self)@.step(event, now_ms)),
            final(self)@ == old(self)@.after(old(self)@.step(event, now_ms)),
            old(self)@.wf(),
            final(self)@.wf(),
    {
        proof {
            use_type_invariant(&*self);
        }
        let stage = self.stage;
        match (stage, event) {
            (FlashStage::Finished, _) => FlashStep {
                progress: no_progress(),
                delay_ms: 0,
                op: FlashOp::Stopped,
                packet: no_bytes(),
            },
            (FlashStage::Idle, FlashEvent::Start) => self.on_start(),
            (FlashStage::Battery, FlashEvent::Report(report)) => self.on_battery(
                report.as_slice(),
            ),
            (FlashStage::Battery, FlashEvent::Failed(cause)) => self.abort(
                FirmwareError::Transport(cause),
            ),
            (FlashStage::Prologue { offset }, FlashEvent::Sent) => self.on_prologue_sent(
                offset,
                now_ms,
            ),
            (FlashStage::Body { offset }, FlashEvent::Sent) => self.poll(
                FlashStage::BodyStatus { offset },
                now_ms,
                0,
            ),
            (FlashStage::Verify, FlashEvent::Sent) => self.poll(
                FlashStage::VerifyStatus,
                now_ms,
                0,
            ),
            (FlashStage::Finalize, FlashEvent::Sent) => {
                self.stage = FlashStage::Finished;
                FlashStep {
                    progress: one_progress(PROGRESS_COMPLETE),
                    delay_ms: 0,
                    op: FlashOp::Complete,
                    packet: no_bytes(),
                }
            },
            (FlashStage::Prologue { .. }, FlashEvent::Failed(cause))
            | (FlashStage::Body { .. }, FlashEvent::Failed(cause))
            | (FlashStage::Verify, FlashEvent::Failed(cause))
            | (FlashStage::Finalize, FlashEvent::Failed(cause)) => self.abort(
                FirmwareError::Send(cause),
            ),
            (FlashStage::PrologueStatus, FlashEvent::Status(report)) => self.on_status(
                FW_PHASE_START,
                report.as_slice(),
                now_ms,
            ),
            (FlashStage::BodyStatus { .. }, FlashEvent::Status(report)) => self.on_status(
                FW_PHASE_WRITE,
                report.as_slice(),
                now_ms,
            ),
            (FlashStage::VerifyStatus, FlashEvent::Status(report)) => self.on_status(
                FW_PHASE_VERIFY,
                report.as_slice(),
                now_ms,
            ),
            (FlashStage::PrologueStatus, FlashEvent::Failed(cause))
            | (FlashStage::BodyStatus { .. }, FlashEvent::Failed(cause))
            | (FlashStage::VerifyStatus, FlashEvent::Failed(cause)) => self.abort(
                FirmwareError::Transport(cause),
            ),
            _ => self.abort(FirmwareError::OutOfOrder),
        }
    }
}

/// The more of the body is written, the further the progress, which
/// stays between 5 and 95.
pub proof fn lemma_body_progress_rises(less: int, more: int, body_len: int)
    requires
        0 <= less <= more,
    ensures
        5 <= spec_body_progress(less, body_len) <= spec_body_progress(more, body_len) <= 95,
{
    let len = if body_len < 1 {
        1
    } else {
        body_len
    };
    vstd::arithmetic::div_mod::lemma_div_is_ordered(less * 90, more * 90, len);
    vstd::arithmetic::div_mod::lemma_div_is_ordered(0, less * 90, len);
    assert(0int / len == 0) by (nonlinear_arith)
        requires
            len >= 1,
    ;
}

/// A step keeps an update well formed, and the progress it reports never
/// falls: it lies between the progress of the stage before and that of the
/// stage after, in rising order.
pub proof fn lemma_progress_never_falls(m: FlasherView, event: FlashEvent, now: u64)
    requires
        m.wf(),
    ensures
        m.after(m.step(event, now)).wf(),
        spec_stage_progress(m.stage) <= spec_stage_progress(m.step(event, now).stage),
        forall|i: int|
            0 <= i < m.step(event, now).progress.len() ==> spec_stage_progress(m.stage)
                <= #[trigger] m.step(event, now).progress[i] <= spec_stage_progress(
                m.step(event, now).stage,
            ),
        forall|i: int, j: int|
            0 <= i <= j < m.step(event, now).progress.len() ==> m.step(event, now).progress[i]
                <= m.step(event, now).progress[j],
{
    let body_len = FIRMWARE_SIZE - FW_PROLOGUE_SIZE;
    match m.stage {
        FlashStage::BodyStatus { offset } => {
            let total = m.firmware.len() as int;
            lemma_body_chunk_bounds(total, offset as int);
            let next = offset + spec_body_chunk(total, offset as int);
            lemma_body_progress_rises(offset - FW_PROLOGUE_SIZE, next - FW_PROLOGUE_SIZE, body_len);
        },
        FlashStage::Body { offset } => {
            lemma_body_progress_rises(
                offset - FW_PROLOGUE_SIZE,
                offset - FW_PROLOGUE_SIZE,
                body_len,
            );
        },
        FlashStage::PrologueStatus => {
            lemma_body_progress_rises(0, 0, body_len);
        },
        _ => {},
    }
}

/// A packet of the body carries at least one byte and at most a chunk, and
/// ends where its page or the image ends at the latest.
pub proof fn lemma_body_chunk_bounds(total: int, offset: int)
    requires
        FW_PROLOGUE_SIZE <= offset < total,
    ensures
        1 <= spec_body_chunk(total, offset) <= crate::firmware::FW_CHUNK_SIZE,
        offset + spec_body_chunk(total, offset) <= total,
        offset + spec_body_chunk(total, offset) <= crate::firmware::spec_page_end(offset),
{
}

/// An update ends once: a step reports completion or failure exactly when
/// it brings an update that was not over to its end, and an update that is
/// over stays so and asks for nothing.
pub proof fn lemma_update_ends_once(m: FlasherView, event: FlashEvent, now: u64)
    requires
        m.wf(),
    ensures
        (m.step(event, now).op is Complete || m.step(event, now).op is Abort) <==> (m.stage
            !is Finished && m.step(event, now).stage is Finished),
        m.stage is Finished ==> m.step(event, now).op is Stopped && m.step(event, now).stage
            is Finished,
        m.step(event, now).op is Complete ==> m.stage is Finalize && event is Sent,
{
}

/// The layout of a data packet: 64 bytes that begin with the report id,
/// the phase and the number of bytes carried, then hold those bytes of the
/// image, and are zero behind them.
pub proof fn lemma_data_packet_layout(phase: u8, firmware: Seq<u8>, offset: int, size: int)
    requires
        0 <= size <= crate::firmware::FW_CHUNK_SIZE,
        0 <= offset,
        offset + size <= firmware.len(),
    ensures
        spec_data_packet(phase, firmware, offset, size).len() == 64,
        spec_data_packet(phase, firmware, offset, size)[0] == DS_FEATURE_REPORT_FW,
        spec_data_packet(phase, firmware, offset, size)[1] == phase,
        spec_data_packet(phase, firmware, offset, size)[2] == size,
        spec_data_packet(phase, firmware, offset, size).subrange(3, 3 + size) == firmware.subrange(
            offset,
            offset + size,
        ),
        forall|i: int|
            3 + size <= i < 64 ==> #[trigger] spec_data_packet(phase, firmware, offset, size)[i]
                == 0,
{
}

/// How many bytes of an image of `total` bytes have been handed out when
/// a stage is reached in an update that has not failed.
pub open spec fn spec_sent(stage: FlashStage, total: int) -> int {
    match stage {
        FlashStage::Idle | FlashStage::Battery => 0,
        FlashStage::Prologue { offset } => offset + spec_prologue_chunk(offset as int),
        FlashStage::PrologueStatus => FW_PROLOGUE_SIZE as int,
        FlashStage::Body { offset } | FlashStage::BodyStatus { offset } => offset
            + spec_body_chunk(total, offset as int),
        _ => total,
    }
}

/// The packets tile the image: every step that sends data sends the bytes
/// that follow on those handed out before, at least one and at most a
/// chunk of them, the prologue in phase 0 and the body in phase 1; every
/// other step that does not end the update in failure hands out nothing;
/// and the commands to verify and to finish go out only when the whole
/// image has been handed out.
pub proof fn lemma_packets_tile_the_image(m: FlasherView, event: FlashEvent, now: u64)
    requires
        m.wf(),
        !(m.step(event, now).op is Abort),
        !(m.stage is Finished),
    ensures
        ({
            let total = m.firmware.len() as int;
            let s = m.step(event, now);
            let from = spec_sent(m.stage, total);
            let to = spec_sent(s.stage, total);
            &&& 0 <= from <= to <= total
            &&& to - from <= crate::firmware::FW_CHUNK_SIZE
            &&& from < to ==> s.op is Send && s.packet == spec_data_packet(
                if from < FW_PROLOGUE_SIZE {
                    FW_PHASE_START
                } else {
                    FW_PHASE_WRITE
                },
                m.firmware,
                from,
                to - from,
            )
            &&& from < FW_PROLOGUE_SIZE ==> to <= FW_PROLOGUE_SIZE
            &&& s.op is Send && from == to ==> from == total && (s.packet == spec_command_packet(
                DS_FEATURE_REPORT_FW,
                FW_PHASE_VERIFY,
            ) || s.packet == spec_command_packet(DS_FEATURE_REPORT_FW, FW_PHASE_FINALIZE))
            &&& s.op is Complete ==> from == total
        }),
{
    let total = m.firmware.len() as int;
    match m.stage {
        FlashStage::BodyStatus { offset } => {
            lemma_body_chunk_bounds(total, offset as int);
            let next = offset + spec_body_chunk(total, offset as int);
            if next < total {
                lemma_body_chunk_bounds(total, next);
            }
        },
        FlashStage::Body { offset } => {
            lemma_body_chunk_bounds(total, offset as int);
        },
        FlashStage::PrologueStatus => {
            lemma_body_chunk_bounds(total, FW_PROLOGUE_SIZE as int);
        },
        _ => {},
    }
}

} // verus!
