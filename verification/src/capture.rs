use vstd::prelude::*;

verus! {

/// Control messages carried over a worker's inbox, processed FIFO between
/// buffer deliveries.
#[derive(Clone, Copy, Debug, PartialEq, Eq, Structural)]
pub enum RecordingMessage {
    Pause,
    Resume,
    Stop,
}

/// What a worker does to its device stream on each control message.
#[derive(Clone, Copy, Debug, PartialEq, Eq, Structural)]
pub enum StreamAction {
    /// Suspend the stream; the writer stays open.
    SuspendStream,
    /// Resume buffer delivery.
    PlayStream,
    /// Leave the receive loop, drop the stream and finalize the writer.
    StopWorker,
}

/// The stream action a control message maps to.
pub open spec fn spec_stream_action(message: RecordingMessage) -> StreamAction {
    match message {
        RecordingMessage::Pause => StreamAction::SuspendStream,
        RecordingMessage::Resume => StreamAction::PlayStream,
        RecordingMessage::Stop => StreamAction::StopWorker,
    }
}

/// Decides how the worker's receive loop reacts to one control message.
pub fn worker_handle_message(message: &RecordingMessage) -> (r: StreamAction)
    ensures
        r == spec_stream_action(*message),
{
    match message {
        RecordingMessage::Pause => StreamAction::SuspendStream,
        RecordingMessage::Resume => StreamAction::PlayStream,
        RecordingMessage::Stop => StreamAction::StopWorker,
    }
}

/// The sample encoding negotiated from a device's default configuration.
#[derive(Clone, Copy, Debug, PartialEq, Eq, Structural)]
pub enum SampleKind {
    IntS8,
    IntS16,
    IntS32,
    Float32,
}

/// A device's default stream configuration, as the host reports it.
#[derive(Clone, Copy, Debug, PartialEq, Eq, Structural)]
pub struct StreamConfig {
    pub channels: u16,
    pub sample_rate: u32,
    pub sample_kind: SampleKind,
}

/// The container's sample format tag: integer or floating-point samples.
#[derive(Clone, Copy, Debug, PartialEq, Eq, Structural)]
pub enum WavSampleFormat {
    Float,
    Int,
}

/// The header data of the capture container.
#[derive(Clone, Copy, Debug, PartialEq, Eq, Structural)]
pub struct WavSpec {
    pub channels: u16,
    pub sample_rate: u32,
    pub bits_per_sample: u16,
    pub sample_format: WavSampleFormat,
}

/// The container format tag for a sample encoding.
pub fn sample_format(kind: SampleKind) -> (r: WavSampleFormat)
    ensures
        r == (match kind {
            SampleKind::Float32 => WavSampleFormat::Float,
            _ => WavSampleFormat::Int,
        }),
{
    match kind {
        SampleKind::Float32 => WavSampleFormat::Float,
        _ => WavSampleFormat::Int,
    }
}

/// The bit width of one stored sample of this encoding.
pub fn sample_size_bits(kind: SampleKind) -> (r: u16)
    ensures
        r == (match kind {
            SampleKind::IntS8 => 8u16,
            SampleKind::IntS16 => 16u16,
            SampleKind::IntS32 => 32u16,
            SampleKind::Float32 => 32u16,
        }),
{
    match kind {
        SampleKind::IntS8 => 8,
        SampleKind::IntS16 => 16,
        SampleKind::IntS32 => 32,
        SampleKind::Float32 => 32,
    }
}

/// The container spec negotiated from the device's default configuration:
/// the worker copies the device's channel count, rate and sample width
/// rather than requesting its own.
pub fn wav_spec_from_config(config: &StreamConfig) -> (r: WavSpec)
    ensures
        r.channels == config.channels,
        r.sample_rate == config.sample_rate,
        r.bits_per_sample == (match config.sample_kind {
            SampleKind::IntS8 => 8u16,
            SampleKind::IntS16 => 16u16,
            SampleKind::IntS32 => 32u16,
            SampleKind::Float32 => 32u16,
        }),
        r.sample_format == (match config.sample_kind {
            SampleKind::Float32 => WavSampleFormat::Float,
            _ => WavSampleFormat::Int,
        }),
{
    WavSpec {
        channels: config.channels,
        sample_rate: config.sample_rate,
        bits_per_sample: sample_size_bits(config.sample_kind),
        sample_format: sample_format(config.sample_kind),
    }
}

/// The worker's observable state in the model: whether delivery is
/// suspended, whether the writer was finalized, and every sample appended
/// to the writer so far, in order.
pub struct WorkerModel {
    pub paused: bool,
    pub finalized: bool,
    pub written: Seq<i32>,
}

/// One thing that happens to a worker: a control message from its inbox,
/// or the delivery of one audio buffer.
pub enum WorkerEvent {
    Control(RecordingMessage),
    Buffer(Seq<i32>),
}

/// How one event changes the worker: control messages toggle the flags;
/// a buffer is appended to the writer exactly when the worker is neither
/// paused nor finalized, and is dropped otherwise.
pub open spec fn model_step(m: WorkerModel, e: WorkerEvent) -> WorkerModel {
    match e {
        WorkerEvent::Control(RecordingMessage::Pause) => WorkerModel { paused: true, ..m },
        WorkerEvent::Control(RecordingMessage::Resume) => WorkerModel { paused: false, ..m },
        WorkerEvent::Control(RecordingMessage::Stop) => WorkerModel { finalized: true, ..m },
        WorkerEvent::Buffer(b) => if !m.paused && !m.finalized {
            WorkerModel { written: m.written + b, ..m }
        } else {
            m
        },
    }
}

/// The worker after a whole sequence of events, processed in order.
pub open spec fn model_run(m: WorkerModel, events: Seq<WorkerEvent>) -> WorkerModel
    decreases events.len(),
{
    if events.len() == 0 {
        m
    } else {
        model_run(model_step(m, events[0]), events.drop_first())
    }
}

/// Running a concatenation is running the pieces in turn.
pub proof fn lemma_model_run_concat(m: WorkerModel, a: Seq<WorkerEvent>, b: Seq<WorkerEvent>)
    ensures
        model_run(m, a + b) == model_run(model_run(m, a), b),
    decreases a.len(),
{
    if a.len() == 0 {
        assert(a + b =~= b);
    } else {
        assert((a + b).drop_first() =~= a.drop_first() + b);
        lemma_model_run_concat(model_step(m, a[0]), a.drop_first(), b);
    }
}

/// Running a single event is stepping it.
pub proof fn lemma_model_run_one(m: WorkerModel, e: WorkerEvent)
    ensures
        model_run(m, seq![e]) == model_step(m, e),
{
    let s = seq![e];
    assert(s.len() == 1);
    assert(s[0] == e);
    assert(s.drop_first() =~= Seq::<WorkerEvent>::empty());
    assert(model_run(model_step(m, e), Seq::<WorkerEvent>::empty()) == model_step(m, e));
}

/// While the worker is paused, delivered buffers change nothing.
pub proof fn lemma_paused_drops_buffers(m: WorkerModel, buffers: Seq<WorkerEvent>)
    requires
        m.paused,
        forall|i: int| 0 <= i < buffers.len() ==> buffers[i] is Buffer,
    ensures
        model_run(m, buffers) == m,
    decreases buffers.len(),
{
    if buffers.len() > 0 {
        assert(buffers[0] is Buffer);
        assert(model_step(m, buffers[0]) == m);
        lemma_paused_drops_buffers(m, buffers.drop_first());
    }
}

/// Pause/Resume is a no-op on bytes: for a worker that is running (not
/// paused), the samples written across a Pause, any buffers delivered
/// while paused, and a Resume are exactly the samples written had the
/// pause never happened and those buffers never been delivered.
pub proof fn lemma_pause_resume_no_op(
    m: WorkerModel,
    pre: Seq<WorkerEvent>,
    during: Seq<WorkerEvent>,
    post: Seq<WorkerEvent>,
)
    requires
        !model_run(m, pre).paused,
        forall|i: int| 0 <= i < during.len() ==> during[i] is Buffer,
    ensures
        model_run(
            m,
            pre + seq![WorkerEvent::Control(RecordingMessage::Pause)] + during + seq![
                WorkerEvent::Control(RecordingMessage::Resume),
            ] + post,
        ) == model_run(m, pre + post),
{
    let s = model_run(m, pre);
    let pause = seq![WorkerEvent::Control(RecordingMessage::Pause)];
    let resume = seq![WorkerEvent::Control(RecordingMessage::Resume)];
    lemma_model_run_concat(m, pre + pause + during + resume, post);
    lemma_model_run_concat(m, pre + pause + during, resume);
    lemma_model_run_concat(m, pre + pause, during);
    lemma_model_run_concat(m, pre, pause);
    let paused = model_run(s, pause);
    lemma_model_run_one(s, WorkerEvent::Control(RecordingMessage::Pause));
    assert(paused == (WorkerModel { paused: true, ..s }));
    lemma_paused_drops_buffers(paused, during);
    lemma_model_run_one(paused, WorkerEvent::Control(RecordingMessage::Resume));
    assert(model_run(paused, resume) == s);
    lemma_model_run_concat(m, pre, post);
}

/// One capture worker: bound to one device, it copies delivered buffers
/// into its writer until stopped. This is the control-and-write model;
/// the device stream and the container file live at the process edge.
pub struct CaptureWorker {
    pub paused: bool,
    pub finalized: bool,
    pub written: Vec<i32>,
}

impl CaptureWorker {
    /// The worker as the model sees it.
    pub open spec fn view(&self) -> WorkerModel {
        WorkerModel { paused: self.paused, finalized: self.finalized, written: self.written@ }
    }

    /// A fresh worker: running, writer open and empty.
    pub fn new() -> (w: Self)
        ensures
            w.view() == (WorkerModel { paused: false, finalized: false, written: Seq::empty() }),
    {
        let w = CaptureWorker { paused: false, finalized: false, written: Vec::new() };
        proof {
            assert(w.written@ =~= Seq::<i32>::empty());
        }
        w
    }

    /// Applies one control message, as the receive loop does between
    /// buffer deliveries. A worker receives at most one Stop; after it
    /// the worker is discarded.
    pub fn apply_message(&mut self, message: &RecordingMessage)
        requires
            !old(self).finalized,
        ensures
            final(self).view() == model_step(
                old(self).view(),
                WorkerEvent::Control(*message),
            ),
    {
        match message {
            RecordingMessage::Pause => {
                self.paused = true;
            },
            RecordingMessage::Resume => {
                self.paused = false;
            },
            RecordingMessage::Stop => {
                self.finalized = true;
            },
        }
    }

    /// Delivers one audio buffer: its samples are appended to the writer
    /// exactly when the worker is running, and dropped otherwise.
    #[verifier::loop_isolation(false)]
    pub fn deliver_buffer(&mut self, buffer: &Vec<i32>)
        ensures
            final(self).view() == model_step(old(self).view(), WorkerEvent::Buffer(buffer@)),
    {
        if self.paused || self.finalized {
            return ;
        }
        let n = buffer.len();
        let mut i: usize = 0;
        while i < n
            invariant
                0 <= i <= n,
                self.written@ == old(self).written@ + buffer@.subrange(0, i as int),
                self.paused == old(self).paused,
                self.finalized == old(self).finalized,
            decreases n - i,
        {
            self.written.push(buffer[i]);
            proof {
                assert(old(self).written@ + buffer@.subrange(0, i as int) + seq![
                    buffer@[i as int],
                ] =~= old(self).written@ + buffer@.subrange(0, i + 1 as int));
            }
            i = i + 1;
        }
        proof {
            assert(buffer@.subrange(0, n as int) =~= buffer@);
        }
    }
}

} // verus!
