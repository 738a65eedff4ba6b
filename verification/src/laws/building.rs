//! Whole runs of building a stream in one direction.

use vstd::prelude::*;

use crate::builder::{BuildStage, BuildStep, StreamBuild};
use crate::callback::CallbackVars;
use crate::config::{BufferSize, SampleFormat, StreamConfig, SupportedBufferSize};
use crate::device::{AudioDeviceID, Device};
use crate::error::{Error, ErrorKind, Message};
use crate::stream::{Monitor, Stream, StreamInner};
use crate::time::Duration;
use crate::unit::{
    BuildReply, BuildRequest, Direction, Element, IoType, Scope, UnitProperty,
};

verus! {

/// A run of the procedure on a number of replies.
pub ghost struct BuildRun {
    /// What was asked for, in order.
    pub asked: Seq<BuildRequest>,
    /// Where the run stands after the last reply.
    pub end: BuildStep,
    /// Every reply answered a request, and none came after the end.
    pub answered: bool,
}

/// The run of a procedure that waits for the reply to `request`.
pub open spec fn run(m: StreamBuild, request: BuildRequest, replies: Seq<BuildReply>) -> BuildRun
    decreases replies.len(),
{
    if replies.len() == 0 {
        BuildRun { asked: seq![request], end: BuildStep::Ask(m, request), answered: true }
    } else {
        let answers = m.answers(replies[0]);
        match m.next(replies[0]) {
            BuildStep::Ask(n, following) => {
                let rest = run(n, following, replies.drop_first());
                BuildRun {
                    asked: seq![request] + rest.asked,
                    end: rest.end,
                    answered: answers && rest.answered,
                }
            },
            end => BuildRun {
                asked: seq![request],
                end,
                answered: answers && replies.len() == 1,
            },
        }
    }
}

/// A run goes on with the replies that are left.
proof fn lemma_unfold(m: StreamBuild, request: BuildRequest, replies: Seq<BuildReply>, k: int)
    requires
        0 <= k < replies.len(),
    ensures
        ({
            let whole = run(m, request, replies.skip(k));
            let answers = m.answers(replies[k]);
            match m.next(replies[k]) {
                BuildStep::Ask(n, following) => {
                    let rest = run(n, following, replies.skip(k + 1));
                    &&& whole.asked == seq![request] + rest.asked
                    &&& whole.end == rest.end
                    &&& whole.answered == (answers && rest.answered)
                },
                end => {
                    &&& whole.asked == seq![request]
                    &&& whole.end == end
                    &&& whole.answered == (answers && k + 1 == replies.len())
                },
            }
        }),
{
    assert(replies.skip(k)[0] == replies[k]);
    assert(replies.skip(k).drop_first() =~= replies.skip(k + 1));
}

/// What is asked of a stream: on which device, in which direction, and how.
pub ghost struct Wanted {
    pub device: Device,
    pub direction: Direction,
    pub config: StreamConfig,
    pub sample_format: SampleFormat,
    pub timeout: Option<Duration>,
}

/// A system, by how it answers where it may answer one way or the other.
pub ghost struct System {
    /// Whether the physical format could be set.
    pub physical: Result<(), Error>,
    /// Whether the device can record.
    pub can_record: bool,
    /// The device that records what the device plays.
    pub loopback: AudioDeviceID,
    /// The buffer sizes that the device supports.
    pub supported: Result<SupportedBufferSize, Error>,
    /// The size of the device buffer.
    pub frames: Result<u32, Error>,
    /// The latency of the device.
    pub latency: Result<u32, Error>,
    /// The safety offset of the device.
    pub safety_offset: Result<u32, Error>,
}

/// The number, or zero where it could not be read.
pub open spec fn number_or_zero(number: Result<u32, Error>) -> int {
    match number {
        Ok(n) => n as int,
        Err(_) => 0,
    }
}

/// The system supports what is wanted: a fixed buffer size lies in the range of sizes, where that
/// is known, and the latencies can be added up.
pub open spec fn supports(wanted: Wanted, system: System) -> bool {
    &&& match (wanted.config.buffer_size, system.supported) {
        (BufferSize::Fixed(size), Ok(SupportedBufferSize::Range { min, max })) => min <= size
            <= max,
        _ => true,
    }
    &&& number_or_zero(system.latency) + number_or_zero(system.safety_offset) <= usize::MAX
}

/// A setting of the audio unit.
pub open spec fn set(scope: Scope, element: Element, property: UnitProperty) -> BuildRequest {
    BuildRequest::SetProperty { scope, element, property }
}

/// The device that the audio unit works on: the device itself, or the loopback device where an
/// input stream is wanted and the device cannot record.
pub open spec fn worked_on(wanted: Wanted, system: System) -> AudioDeviceID {
    match wanted.direction {
        Direction::Input => if system.can_record {
            wanted.device.audio_device_id
        } else {
            system.loopback
        },
        Direction::Output => wanted.device.audio_device_id,
    }
}

/// What watches over the device: a stream that plays to the default output follows that, every
/// other stream watches its own device.
pub open spec fn watch(wanted: Wanted) -> Monitor {
    match wanted.direction {
        Direction::Output => if wanted.device.is_default_output {
            Monitor::DefaultOutput
        } else {
            Monitor::Disconnect {
                device_id: wanted.device.audio_device_id,
                listen_buffer_size: false,
            }
        },
        Direction::Input => Monitor::Disconnect {
            device_id: wanted.device.audio_device_id,
            listen_buffer_size: false,
        },
    }
}

/// A request with the reply to it.
pub type Exchange = (BuildRequest, BuildReply);

/// The configuration is checked and the hardware set up: its physical format or else its rate.
pub open spec fn about_hardware(wanted: Wanted, system: System) -> Seq<Exchange> {
    let id = wanted.device.audio_device_id;
    seq![
        (BuildRequest::Validate(wanted.config), BuildReply::Done(Ok(()))),
        (
            BuildRequest::SetPhysicalFormat {
                device_id: id,
                sample_rate: wanted.config.sample_rate,
                channels: wanted.config.channels,
                sample_format: wanted.sample_format,
            },
            BuildReply::Done(system.physical),
        ),
    ] + match system.physical {
        Ok(_) => seq![],
        Err(_) => seq![
            (
                BuildRequest::SetSampleRate {
                    device_id: id,
                    sample_rate: wanted.config.sample_rate,
                    timeout: wanted.timeout,
                },
                BuildReply::Done(Ok(())),
            ),
        ],
    }
}

/// Input finds out whether the device can record, and makes a loopback device if not.
pub open spec fn about_device(wanted: Wanted, system: System) -> Seq<Exchange> {
    let id = wanted.device.audio_device_id;
    match wanted.direction {
        Direction::Output => seq![],
        Direction::Input => if system.can_record {
            seq![(BuildRequest::ProbeInput { device_id: id }, BuildReply::Supported(true))]
        } else {
            seq![
                (BuildRequest::ProbeInput { device_id: id }, BuildReply::Supported(false)),
                (
                    BuildRequest::OpenLoopback { device_id: id },
                    BuildReply::Loopback(Ok(system.loopback)),
                ),
            ]
        },
    }
}

/// One audio unit is made: for input, for input from the device that is worked on; for output, one
/// that follows the default output, or one that is pinned to the device.
pub open spec fn about_unit(wanted: Wanted, system: System) -> Seq<Exchange> {
    match wanted.direction {
        Direction::Input => seq![
            (
                BuildRequest::NewInputUnit { device_id: worked_on(wanted, system) },
                BuildReply::Done(Ok(())),
            ),
        ],
        Direction::Output => if wanted.device.is_default_output {
            seq![(BuildRequest::NewUnit(IoType::DefaultOutput), BuildReply::Done(Ok(())))]
        } else {
            seq![
                (BuildRequest::NewUnit(IoType::HalOutput), BuildReply::Done(Ok(()))),
                (
                    set(
                        Scope::Global,
                        Element::Output,
                        UnitProperty::CurrentDevice(wanted.device.audio_device_id),
                    ),
                    BuildReply::Done(Ok(())),
                ),
            ]
        },
    }
}

/// The format is set on the client's side of the bus, and the buffer size if one is requested,
/// after a look at the sizes that the device supports.
pub open spec fn about_format(wanted: Wanted, system: System) -> Seq<Exchange> {
    let format = UnitProperty::StreamFormat(wanted.config, wanted.sample_format);
    seq![
        (
            match wanted.direction {
                Direction::Input => set(Scope::Output, Element::Input, format),
                Direction::Output => set(Scope::Input, Element::Output, format),
            },
            BuildReply::Done(Ok(())),
        ),
    ] + match wanted.config.buffer_size {
        BufferSize::Default => seq![],
        BufferSize::Fixed(size) => seq![
            (
                BuildRequest::ReadBufferRange { device_id: worked_on(wanted, system) },
                BuildReply::BufferRange(system.supported),
            ),
            (
                set(Scope::Global, Element::Output, UnitProperty::BufferFrameSize(size)),
                BuildReply::Done(Ok(())),
            ),
        ],
    }
}

/// What the callback needs is read, the callback installed with it, the unit initialized, the
/// device watched, and the stream signalled to be ready.
pub open spec fn about_callback(wanted: Wanted, system: System) -> Seq<Exchange> {
    let scope = match wanted.direction {
        Direction::Input => Scope::Input,
        Direction::Output => Scope::Output,
    };
    let vars = CallbackVars {
        bytes_per_channel: wanted.sample_format.sample_size_spec(),
        sample_rate: wanted.config.sample_rate,
        device_buffer_frames: match system.frames {
            Ok(n) => Some(n as usize),
            Err(_) => None,
        },
        extra_latency_frames: (number_or_zero(system.latency) + number_or_zero(
            system.safety_offset,
        )) as usize,
    };
    seq![
        (
            BuildRequest::ReadBufferFrames { scope: Scope::Global, element: Element::Output },
            BuildReply::Number(system.frames),
        ),
        (
            BuildRequest::ReadLatency { scope, element: Element::Output },
            BuildReply::Number(system.latency),
        ),
        (
            BuildRequest::ReadSafetyOffset { scope, element: Element::Output },
            BuildReply::Number(system.safety_offset),
        ),
        (
            BuildRequest::InstallCallback { direction: wanted.direction, vars },
            BuildReply::Done(Ok(())),
        ),
        (BuildRequest::Initialize, BuildReply::Done(Ok(()))),
        (BuildRequest::StartMonitor(watch(wanted)), BuildReply::Done(Ok(()))),
        (BuildRequest::SignalReady, BuildReply::Signalled),
    ]
}

/// Everything that goes back and forth when a stream is built.
pub open spec fn dialogue(wanted: Wanted, system: System) -> Seq<Exchange> {
    about_hardware(wanted, system) + about_device(wanted, system) + about_unit(wanted, system)
        + about_format(wanted, system) + about_callback(wanted, system)
}

/// The requests of a dialogue.
pub open spec fn requests(dialogue: Seq<Exchange>) -> Seq<BuildRequest> {
    dialogue.map_values(|e: Exchange| e.0)
}

/// The replies of a dialogue.
pub open spec fn replies(dialogue: Seq<Exchange>) -> Seq<BuildReply> {
    dialogue.map_values(|e: Exchange| e.1)
}

/// The stream that is wanted: it does not play yet, and it keeps the loopback device.
pub open spec fn stream_of(wanted: Wanted, system: System) -> Stream {
    Stream {
        inner: StreamInner {
            playing: false,
            device_id: wanted.device.audio_device_id,
            loopback_device: if wanted.direction == Direction::Input && !system.can_record {
                Some(system.loopback)
            } else {
                None
            },
            duplex_callback_ptr: None,
        },
        monitor: watch(wanted),
    }
}

spec fn hardware_stages(system: System) -> Seq<BuildStage> {
    seq![BuildStage::Validate, BuildStage::PhysicalFormat] + match system.physical {
        Ok(_) => seq![],
        Err(_) => seq![BuildStage::SampleRate],
    }
}

spec fn device_stages(wanted: Wanted, system: System) -> Seq<BuildStage> {
    match wanted.direction {
        Direction::Output => seq![],
        Direction::Input => if system.can_record {
            seq![BuildStage::Probe]
        } else {
            seq![BuildStage::Probe, BuildStage::Loopback]
        },
    }
}

spec fn unit_stages(wanted: Wanted) -> Seq<BuildStage> {
    if wanted.direction == Direction::Output && !wanted.device.is_default_output {
        seq![BuildStage::Unit, BuildStage::CurrentDevice]
    } else {
        seq![BuildStage::Unit]
    }
}

spec fn format_stages(wanted: Wanted) -> Seq<BuildStage> {
    seq![BuildStage::Format] + match wanted.config.buffer_size {
        BufferSize::Default => seq![],
        BufferSize::Fixed(_) => seq![BuildStage::BufferRange, BuildStage::BufferSize],
    }
}

spec fn known(number: Result<u32, Error>) -> Option<u32> {
    match number {
        Ok(n) => Some(n),
        Err(_) => None,
    }
}

spec fn callback_stages(system: System) -> Seq<BuildStage> {
    seq![
        BuildStage::BufferFrames,
        BuildStage::Latency { frames: known(system.frames) },
        BuildStage::SafetyOffset {
            frames: known(system.frames),
            latency: known(system.latency),
        },
        BuildStage::Callback,
        BuildStage::Initialize,
        BuildStage::Monitor,
        BuildStage::Ready,
    ]
}

/// An exchange with the procedure that makes it.
type Line = (StreamBuild, BuildRequest, BuildReply);

/// The procedure when it waits in `stage`.
spec fn machine(
    wanted: Wanted,
    loopback: Option<AudioDeviceID>,
    stage: BuildStage,
) -> StreamBuild {
    StreamBuild {
        device: wanted.device,
        direction: wanted.direction,
        config: wanted.config,
        sample_format: wanted.sample_format,
        timeout: wanted.timeout,
        loopback,
        stage,
    }
}

/// The loopback device, once it is made.
spec fn made(wanted: Wanted, system: System) -> Option<AudioDeviceID> {
    if wanted.direction == Direction::Input && !system.can_record {
        Some(system.loopback)
    } else {
        None
    }
}

/// Exchanges with the procedure that makes them, stage by stage.
spec fn lines(
    wanted: Wanted,
    loopback: Option<AudioDeviceID>,
    exchanges: Seq<Exchange>,
    stages: Seq<BuildStage>,
) -> Seq<Line> {
    Seq::new(
        exchanges.len(),
        |i: int| (machine(wanted, loopback, stages[i]), exchanges[i].0, exchanges[i].1),
    )
}

spec fn hardware_lines(wanted: Wanted, system: System) -> Seq<Line> {
    lines(wanted, None, about_hardware(wanted, system), hardware_stages(system))
}

spec fn device_lines(wanted: Wanted, system: System) -> Seq<Line> {
    lines(wanted, None, about_device(wanted, system), device_stages(wanted, system))
}

spec fn unit_lines(wanted: Wanted, system: System) -> Seq<Line> {
    lines(wanted, made(wanted, system), about_unit(wanted, system), unit_stages(wanted))
}

spec fn format_lines(wanted: Wanted, system: System) -> Seq<Line> {
    lines(wanted, made(wanted, system), about_format(wanted, system), format_stages(wanted))
}

spec fn callback_lines(wanted: Wanted, system: System) -> Seq<Line> {
    lines(wanted, made(wanted, system), about_callback(wanted, system), callback_stages(system))
}

/// The reply of a line answers its procedure and takes it to `step`.
#[verifier::opaque]
spec fn leads(line: Line, step: BuildStep) -> bool {
    line.0.answers(line.2) && line.0.next(line.2) == step
}

/// The step to the first of the lines from `k` on, or to `end`.
spec fn step_at(s: Seq<Line>, k: int, end: BuildStep) -> BuildStep {
    if k < s.len() {
        BuildStep::Ask(s[k].0, s[k].1)
    } else {
        end
    }
}

/// Each line leads to the next, and the last to `end`.
#[verifier::opaque]
spec fn linked(s: Seq<Line>, end: BuildStep) -> bool {
    forall|k: int| 0 <= k < s.len() ==> leads(#[trigger] s[k], step_at(s, k + 1, end))
}

/// The step to the first of some lines.
spec fn to(s: Seq<Line>) -> BuildStep {
    BuildStep::Ask(s[0].0, s[0].1)
}

proof fn lemma_join(s: Seq<Line>, t: Seq<Line>, end: BuildStep)
    requires
        t.len() > 0,
        linked(s, to(t)),
        linked(t, end),
    ensures
        linked(s + t, end),
{
    reveal(linked);
    let u = s + t;
    assert forall|k: int| 0 <= k < u.len() implies leads(
        #[trigger] u[k],
        step_at(u, k + 1, end),
    ) by {
        if k < s.len() {
            assert(u[k] == s[k]);
            assert(step_at(u, k + 1, end) == step_at(s, k + 1, to(t)));
        } else {
            assert(u[k] == t[k - s.len()]);
            assert(step_at(u, k + 1, end) == step_at(t, k + 1 - s.len(), end));
        }
    }
}

/// The replies of some lines.
spec fn line_replies(s: Seq<Line>) -> Seq<BuildReply> {
    s.map_values(|l: Line| l.2)
}

/// The requests of some lines.
spec fn line_requests(s: Seq<Line>) -> Seq<BuildRequest> {
    s.map_values(|l: Line| l.1)
}

/// Linked lines are run through from the `k`th on.
proof fn lemma_run_lines(s: Seq<Line>, end: BuildStep, k: int)
    requires
        0 <= k < s.len(),
        linked(s, end),
        !(end is Ask),
    ensures
        ({
            let r = run(s[k].0, s[k].1, line_replies(s).skip(k));
            &&& r.answered
            &&& r.asked == line_requests(s).skip(k)
            &&& r.end == end
        }),
    decreases s.len() - k,
{
    reveal(linked);
    assert(leads(s[k], step_at(s, k + 1, end)));
    assert(s[k].0.answers(s[k].2) && s[k].0.next(s[k].2) == step_at(s, k + 1, end)) by {
        reveal(leads);
    }
    lemma_unfold(s[k].0, s[k].1, line_replies(s), k);
    if k + 1 < s.len() {
        lemma_run_lines(s, end, k + 1);
    }
    assert(line_requests(s).skip(k) =~= seq![s[k].1] + line_requests(s).skip(k + 1));
}

proof fn lemma_hardware(wanted: Wanted, system: System)
    ensures
        wanted.direction == Direction::Input ==> linked(
            hardware_lines(wanted, system),
            to(device_lines(wanted, system)),
        ),
        wanted.direction == Direction::Output ==> linked(
            hardware_lines(wanted, system),
            to(unit_lines(wanted, system)),
        ),
{
    reveal(leads);
    reveal(linked);
    let s = hardware_lines(wanted, system);
    assert(s.len() == hardware_stages(system).len());
    assert(s[0] == (
        machine(wanted, None, BuildStage::Validate),
        about_hardware(wanted, system)[0].0,
        about_hardware(wanted, system)[0].1,
    ));
}

proof fn lemma_device(wanted: Wanted, system: System)
    ensures
        wanted.direction == Direction::Input ==> linked(
            device_lines(wanted, system),
            to(unit_lines(wanted, system)),
        ),
{
    reveal(leads);
    reveal(linked);
}

proof fn lemma_unit(wanted: Wanted, system: System)
    ensures
        linked(unit_lines(wanted, system), to(format_lines(wanted, system))),
{
    reveal(leads);
    reveal(linked);
}

proof fn lemma_format(wanted: Wanted, system: System)
    requires
        supports(wanted, system),
    ensures
        linked(format_lines(wanted, system), to(callback_lines(wanted, system))),
{
    reveal(leads);
    reveal(linked);
}

proof fn lemma_callback(wanted: Wanted, system: System)
    requires
        supports(wanted, system),
    ensures
        linked(
            callback_lines(wanted, system),
            BuildStep::Done(Ok(stream_of(wanted, system))),
        ),
{
    reveal(leads);
    reveal(linked);
}

/// All the lines of a run that succeeds.
spec fn script(wanted: Wanted, system: System) -> Seq<Line> {
    hardware_lines(wanted, system) + device_lines(wanted, system) + unit_lines(wanted, system)
        + format_lines(wanted, system) + callback_lines(wanted, system)
}

/// The lines of five parts, one after the other, of which the second may be left out.
proof fn lemma_join_all(
    h: Seq<Line>,
    d: Seq<Line>,
    u: Seq<Line>,
    f: Seq<Line>,
    c: Seq<Line>,
    end: BuildStep,
)
    requires
        u.len() > 0,
        f.len() > 0,
        c.len() > 0,
        linked(c, end),
        linked(f, to(c)),
        linked(u, to(f)),
        d.len() > 0 ==> linked(d, to(u)) && linked(h, to(d)),
        d.len() == 0 ==> linked(h, to(u)),
    ensures
        linked(h + d + u + f + c, end),
{
    lemma_join(f, c, end);
    assert((f + c)[0] == f[0]);
    lemma_join(u, f + c, end);
    assert((u + (f + c))[0] == u[0]);
    if d.len() > 0 {
        lemma_join(d, u + (f + c), end);
        assert((d + (u + (f + c)))[0] == d[0]);
    } else {
        assert(d + (u + (f + c)) =~= u + (f + c));
    }
    lemma_join(h, d + (u + (f + c)), end);
    assert(h + d + u + f + c =~= h + (d + (u + (f + c))));
}

proof fn lemma_lines(
    wanted: Wanted,
    loopback: Option<AudioDeviceID>,
    exchanges: Seq<Exchange>,
    stages: Seq<BuildStage>,
)
    ensures
        ({
            let s = lines(wanted, loopback, exchanges, stages);
            &&& line_requests(s) == requests(exchanges)
            &&& line_replies(s) == replies(exchanges)
            &&& s.len() == exchanges.len()
        }),
{
    let s = lines(wanted, loopback, exchanges, stages);
    assert(line_requests(s) =~= requests(exchanges));
    assert(line_replies(s) =~= replies(exchanges));
}

proof fn lemma_both_parts(s: Seq<Line>, t: Seq<Line>, e: Seq<Exchange>, f: Seq<Exchange>)
    requires
        line_requests(s) == requests(e),
        line_requests(t) == requests(f),
        line_replies(s) == replies(e),
        line_replies(t) == replies(f),
    ensures
        line_requests(s + t) == requests(e + f),
        line_replies(s + t) == replies(e + f),
{
    assert(line_requests(s + t) =~= line_requests(s) + line_requests(t));
    assert(requests(e + f) =~= requests(e) + requests(f));
    assert(line_replies(s + t) =~= line_replies(s) + line_replies(t));
    assert(replies(e + f) =~= replies(e) + replies(f));
}

/// The lines of a run carry its dialogue.
proof fn lemma_script_carries_dialogue(wanted: Wanted, system: System)
    ensures
        line_requests(script(wanted, system)) == requests(dialogue(wanted, system)),
        line_replies(script(wanted, system)) == replies(dialogue(wanted, system)),
{
    let some = made(wanted, system);
    let eh = about_hardware(wanted, system);
    let ed = about_device(wanted, system);
    let eu = about_unit(wanted, system);
    let ef = about_format(wanted, system);
    let ec = about_callback(wanted, system);
    let h = lines(wanted, None, eh, hardware_stages(system));
    let d = lines(wanted, None, ed, device_stages(wanted, system));
    let u = lines(wanted, some, eu, unit_stages(wanted));
    let f = lines(wanted, some, ef, format_stages(wanted));
    let c = lines(wanted, some, ec, callback_stages(system));
    lemma_lines(wanted, None, eh, hardware_stages(system));
    lemma_lines(wanted, None, ed, device_stages(wanted, system));
    lemma_lines(wanted, some, eu, unit_stages(wanted));
    lemma_lines(wanted, some, ef, format_stages(wanted));
    lemma_lines(wanted, some, ec, callback_stages(system));
    lemma_both_parts(h, d, eh, ed);
    lemma_both_parts(h + d, u, eh + ed, eu);
    lemma_both_parts(h + d + u, f, eh + ed + eu, ef);
    lemma_both_parts(h + d + u + f, c, eh + ed + eu + ef, ec);
}

proof fn lemma_script(wanted: Wanted, system: System)
    requires
        supports(wanted, system),
    ensures
        linked(script(wanted, system), BuildStep::Done(Ok(stream_of(wanted, system)))),
        script(wanted, system).len() > 0,
        script(wanted, system)[0].0 == machine(wanted, None, BuildStage::Validate),
        script(wanted, system)[0].1 == BuildRequest::Validate(wanted.config),
{
    lemma_hardware(wanted, system);
    lemma_device(wanted, system);
    lemma_unit(wanted, system);
    lemma_format(wanted, system);
    lemma_callback(wanted, system);
    lemma_join_all(
        hardware_lines(wanted, system),
        device_lines(wanted, system),
        unit_lines(wanted, system),
        format_lines(wanted, system),
        callback_lines(wanted, system),
        BuildStep::Done(Ok(stream_of(wanted, system))),
    );
    assert(script(wanted, system)[0] == hardware_lines(wanted, system)[0]);
}

/// On a system that supports what is wanted, building goes through to the end: everything in the
/// dialogue is asked for, in order, and nothing else, and there is the stream that is wanted.
/// What the system may lack without harm, a physical format, an input, or a number that can be
/// read, does not stand in the way.
pub proof fn law_success_builds_the_stream(wanted: Wanted, system: System)
    requires
        supports(wanted, system),
    ensures
        ({
            let r = run(
                StreamBuild::initial(
                    wanted.device,
                    wanted.direction,
                    wanted.config,
                    wanted.sample_format,
                    wanted.timeout,
                ),
                BuildRequest::Validate(wanted.config),
                replies(dialogue(wanted, system)),
            );
            &&& r.answered
            &&& r.asked == requests(dialogue(wanted, system))
            &&& r.end == BuildStep::Done(Ok(stream_of(wanted, system)))
        }),
{
    let s = script(wanted, system);
    lemma_script(wanted, system);
    lemma_script_carries_dialogue(wanted, system);
    lemma_run_lines(s, BuildStep::Done(Ok(stream_of(wanted, system))), 0);
    assert(line_replies(s).skip(0) =~= line_replies(s));
    assert(line_requests(s).skip(0) =~= line_requests(s));
}

/// `reply` is a refusal of `request`: a step that failed, a loopback device that could not be
/// made, or a range of sizes that the requested one does not lie in.
pub open spec fn refuses(wanted: Wanted, request: BuildRequest, reply: BuildReply) -> bool {
    match request {
        BuildRequest::SetPhysicalFormat { .. } => false,
        BuildRequest::ProbeInput { .. } => false,
        BuildRequest::OpenLoopback { .. } => reply matches BuildReply::Loopback(Err(_)),
        BuildRequest::ReadBufferRange { .. } => match (wanted.config.buffer_size, reply) {
            (
                BufferSize::Fixed(size),
                BuildReply::BufferRange(Ok(SupportedBufferSize::Range { min, max })),
            ) => size < min || size > max,
            _ => false,
        },
        BuildRequest::ReadBufferFrames { .. } => false,
        BuildRequest::ReadLatency { .. } => false,
        BuildRequest::ReadSafetyOffset { .. } => false,
        BuildRequest::SignalReady => false,
        _ => reply matches BuildReply::Done(Err(_)),
    }
}

/// The error that a refusal amounts to.
pub open spec fn error_of(wanted: Wanted, reply: BuildReply) -> Error {
    match (reply, wanted.config.buffer_size) {
        (BuildReply::Done(Err(e)), _) => e,
        (BuildReply::Loopback(Err(e)), _) => e,
        (
            BuildReply::BufferRange(Ok(SupportedBufferSize::Range { min, max })),
            BufferSize::Fixed(size),
        ) => Error {
            kind: ErrorKind::UnsupportedConfig,
            message: Some(Message::BufferSizeOutOfRange { size, min, max }),
        },
        _ => arbitrary(),
    }
}

/// A line leads to an error where its request is refused.
proof fn lemma_line_refused(
    wanted: Wanted,
    system: System,
    exchanges: Seq<Exchange>,
    loopback: Option<AudioDeviceID>,
    stages: Seq<BuildStage>,
    k: int,
    refusal: BuildReply,
)
    requires
        0 <= k < exchanges.len(),
        refuses(wanted, exchanges[k].0, refusal),
        ({
            ||| exchanges == about_hardware(wanted, system) && stages == hardware_stages(system)
            ||| exchanges == about_device(wanted, system) && stages == device_stages(
                wanted,
                system,
            )
            ||| exchanges == about_unit(wanted, system) && stages == unit_stages(wanted)
            ||| exchanges == about_format(wanted, system) && stages == format_stages(wanted)
            ||| exchanges == about_callback(wanted, system) && stages == callback_stages(system)
        }),
    ensures
        leads(
            (machine(wanted, loopback, stages[k]), exchanges[k].0, refusal),
            BuildStep::Done(Err(error_of(wanted, refusal))),
        ),
{
    reveal(leads);
    reveal(linked);
}

proof fn lemma_script_refused(wanted: Wanted, system: System, k: int, refusal: BuildReply)
    requires
        0 <= k < script(wanted, system).len(),
        refuses(wanted, script(wanted, system)[k].1, refusal),
    ensures
        leads(
            (script(wanted, system)[k].0, script(wanted, system)[k].1, refusal),
            BuildStep::Done(Err(error_of(wanted, refusal))),
        ),
{
    let some = made(wanted, system);
    let eh = about_hardware(wanted, system);
    let ed = about_device(wanted, system);
    let eu = about_unit(wanted, system);
    let ef = about_format(wanted, system);
    let ec = about_callback(wanted, system);
    let a = eh.len() as int;
    let b = a + ed.len();
    let c = b + eu.len();
    let d = c + ef.len();
    let s = script(wanted, system);
    if k < a {
        assert(s[k] == hardware_lines(wanted, system)[k]);
        lemma_line_refused(wanted, system, eh, None, hardware_stages(system), k, refusal);
    } else if k < b {
        assert(s[k] == device_lines(wanted, system)[k - a]);
        lemma_line_refused(
            wanted,
            system,
            ed,
            None,
            device_stages(wanted, system),
            k - a,
            refusal,
        );
    } else if k < c {
        assert(s[k] == unit_lines(wanted, system)[k - b]);
        lemma_line_refused(wanted, system, eu, some, unit_stages(wanted), k - b, refusal);
    } else if k < d {
        assert(s[k] == format_lines(wanted, system)[k - c]);
        lemma_line_refused(wanted, system, ef, some, format_stages(wanted), k - c, refusal);
    } else {
        assert(s[k] == callback_lines(wanted, system)[k - d]);
        lemma_line_refused(wanted, system, ec, some, callback_stages(system), k - d, refusal);
    }
}

/// A refusal at any point ends building there, with nothing else asked for, and with its error:
/// a size that is not supported with an error that names it and the range, and every other failure
/// as it is.
pub proof fn law_refusal_ends_building(
    wanted: Wanted,
    system: System,
    k: int,
    refusal: BuildReply,
)
    requires
        supports(wanted, system),
        0 <= k < dialogue(wanted, system).len(),
        refuses(wanted, dialogue(wanted, system)[k].0, refusal),
    ensures
        ({
            let r = run(
                StreamBuild::initial(
                    wanted.device,
                    wanted.direction,
                    wanted.config,
                    wanted.sample_format,
                    wanted.timeout,
                ),
                BuildRequest::Validate(wanted.config),
                replies(dialogue(wanted, system)).take(k).push(refusal),
            );
            &&& r.answered
            &&& r.asked == requests(dialogue(wanted, system)).take(k + 1)
            &&& r.end == BuildStep::Done(Err(error_of(wanted, refusal)))
        }),
{
    lemma_script(wanted, system);
    lemma_script_carries_dialogue(wanted, system);
    let end = BuildStep::Done(Err(error_of(wanted, refusal)));
    let s = script(wanted, system);
    reveal(linked);
    assert(requests(dialogue(wanted, system))[k] == line_requests(s)[k]);
    lemma_script_refused(wanted, system, k, refusal);
    let last = (s[k].0, s[k].1, refusal);
    let t = s.take(k).push(last);
    assert forall|i: int| 0 <= i < t.len() implies leads(#[trigger] t[i], step_at(t, i + 1, end)) by {
        if i < k {
            assert(leads(s[i], step_at(s, i + 1, BuildStep::Done(Ok(stream_of(wanted, system))))));
            assert(t[i] == s[i]);
        }
    }
    lemma_run_lines(t, end, 0);
    assert(line_replies(t).skip(0) =~= replies(dialogue(wanted, system)).take(k).push(refusal)) by {
        assert(line_replies(t).skip(0) =~= line_replies(s).take(k).push(refusal));
    }
    assert(line_requests(t).skip(0) =~= requests(dialogue(wanted, system)).take(k + 1)) by {
        assert(line_requests(t).skip(0) =~= line_requests(s).take(k + 1));
    }
    assert(t[0].0 == s[0].0 && t[0].1 == s[0].1);
}

/// An error is never made up: whatever the procedure waits for, it ends with an error only on a
/// refusal, and with a stream only once that is signalled to be ready.
pub proof fn law_errors_have_causes(m: StreamBuild, reply: BuildReply)
    requires
        m.wf(),
        m.answers(reply),
    ensures
        m.next(reply) matches BuildStep::Done(Err(e)) ==> match reply {
            BuildReply::Done(outcome) => outcome == Err::<(), Error>(e),
            BuildReply::Loopback(outcome) => outcome == Err::<AudioDeviceID, Error>(e),
            BuildReply::BufferRange(supported) => match (m.config.buffer_size, supported) {
                (BufferSize::Fixed(size), Ok(SupportedBufferSize::Range { min, max })) => size
                    < min || size > max,
                _ => false,
            },
            _ => false,
        },
        m.next(reply) matches BuildStep::Done(Ok(_)) ==> reply is Signalled,
{
}

/// Every input stream records from exactly one audio unit, an input unit on the device itself, or
/// on the loopback device where the device cannot record, whether or not the device stands for the
/// default output. No other unit is made, and the device itself is watched.
pub proof fn law_input_records(wanted: Wanted, system: System, i: int, k: int)
    requires
        supports(wanted, system),
        wanted.direction == Direction::Input,
    ensures
        ({
            let device_id = if system.can_record {
                wanted.device.audio_device_id
            } else {
                system.loopback
            };
            let watch = Monitor::Disconnect {
                device_id: wanted.device.audio_device_id,
                listen_buffer_size: false,
            };
            let r = run(
                StreamBuild::initial(
                    wanted.device,
                    Direction::Input,
                    wanted.config,
                    wanted.sample_format,
                    wanted.timeout,
                ),
                BuildRequest::Validate(wanted.config),
                replies(dialogue(wanted, system)),
            );
            &&& r.asked.contains(BuildRequest::NewInputUnit { device_id })
            &&& r.asked.contains(BuildRequest::StartMonitor(watch))
            &&& r.end matches BuildStep::Done(Ok(stream)) && stream.monitor == watch
            &&& 0 <= i < r.asked.len() ==> {
                &&& !(r.asked[i] is NewUnit)
                &&& r.asked[i] is NewInputUnit ==> r.asked[i] == (BuildRequest::NewInputUnit {
                    device_id,
                })
                &&& r.asked[i] is StartMonitor ==> r.asked[i] == BuildRequest::StartMonitor(watch)
                &&& 0 <= k < r.asked.len() && r.asked[i] is NewInputUnit && r.asked[k]
                    is NewInputUnit ==> i == k
            }
        }),
{
    law_success_builds_the_stream(wanted, system);
    let d = dialogue(wanted, system);
    let asked = requests(d);
    let c = d.len() - about_callback(wanted, system).len();
    let at = c - about_format(wanted, system).len() - 1;
    assert(asked[at] is NewInputUnit);
    assert(asked[c + 5] is StartMonitor);
}

/// A buffer size is refused exactly if it is known to lie outside of what the device supports, with
/// an error that names it and the range.
pub proof fn law_buffer_size_check(
    size: u32,
    supported: Result<SupportedBufferSize, Error>,
    min: u32,
    max: u32,
)
    ensures
        supported == Ok::<_, Error>(SupportedBufferSize::Range { min, max }) ==> {
            &&& crate::builder::out_of_range(size, supported) <==> size < min || size > max
            &&& crate::builder::buffer_size_error(size, supported->Ok_0) == (Error {
                kind: ErrorKind::UnsupportedConfig,
                message: Some(Message::BufferSizeOutOfRange { size, min, max }),
            })
        },
        supported is Err || supported == Ok::<_, Error>(SupportedBufferSize::Unknown)
            ==> !crate::builder::out_of_range(size, supported),
{
}

} // verus!
