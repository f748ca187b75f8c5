//! The order of a print job.
//!
//! A [`PrintJob`] decides what is sent to the printer and when. It never
//! touches the transport: the caller performs each [`Action`] and reports
//! the outcome as the next [`Event`].

use super::commands::{
    auto_cut_bytes, auto_cut_command, cut_settings_bytes, cut_settings_command, margins_bytes,
    margins_command, media_bytes, media_code, media_command, media_type_code, mode_bytes,
    mode_command, print_bytes, print_command, raster_bytes, raster_command, status_request_bytes,
    status_request_command,
};
use super::constants::lemma_label_well_formed;
use super::status::{
    decode, decoded, Media, MediaType, ProtocolError, Response, ResponseView, StatusType,
};
use vstd::prelude::*;

verus! {

/// How far a print job has come.
#[derive(Clone, Copy, Debug, PartialEq, Eq, Structural)]
pub enum State {
    /// Nothing is known of the printer yet.
    Idle,
    /// The printer has reported media that can be printed on.
    StatusQueried,
    /// Raster mode is selected.
    ModeSet,
    /// The media descriptor is sent.
    MediaDescribed,
    /// Auto-cut and the cut settings are sent.
    SettingsApplied,
    /// The margins are sent; raster lines follow.
    MarginsSet,
    /// Every raster line is sent.
    LinesSent,
    /// The print command is sent.
    Triggered,
    /// The job waits for the printer to report that it has finished.
    AwaitingCompletion,
    /// The job has ended and handed out the printer's reply.
    Done,
    /// The job has failed. No event leads out of this state.
    Errored,
}

/// What a job waits for.
#[derive(Clone, Copy, Debug, PartialEq, Eq, Structural)]
pub enum Waiting {
    /// The start of the job.
    Start,
    /// The end of the write that was asked for last.
    WriteAck,
    /// The reply to read.
    Reply,
    /// The end of the pause between two polls.
    Wake,
}

/// What the caller reports to the job.
#[derive(Debug)]
pub enum Event {
    /// The job may begin.
    Start,
    /// The bytes of the last `Write` are sent.
    Written,
    /// The last `Read` returned these bytes.
    Received(Vec<u8>),
    /// The pause of the last `Wait` is over.
    Waited,
    /// The last `Write` or `Read` failed.
    TransportFailed,
}

/// What the job asks of the caller.
#[derive(Debug)]
pub enum Action {
    /// Send these bytes, then report `Written`.
    Write(Vec<u8>),
    /// Read one status reply, then report `Received`.
    Read,
    /// Pause for this many milliseconds, then report `Waited`.
    Wait(u64),
    /// The job is done; this is the printer's last reply.
    Finish(Response),
    /// The job has failed.
    Fail(ProtocolError),
}

/// An event as the contracts see it.
pub enum EventView {
    Start,
    Written,
    Received(Seq<u8>),
    Waited,
    TransportFailed,
}

/// An action as the contracts see it.
pub enum ActionView {
    Write(Seq<u8>),
    Read,
    Wait(u64),
    Finish(ResponseView),
    Fail(ProtocolError),
}

impl View for Event {
    type V = EventView;

    open spec fn view(&self) -> EventView {
        match *self {
            Event::Start => EventView::Start,
            Event::Written => EventView::Written,
            Event::Received(bytes) => EventView::Received(bytes@),
            Event::Waited => EventView::Waited,
            Event::TransportFailed => EventView::TransportFailed,
        }
    }
}

impl View for Action {
    type V = ActionView;

    open spec fn view(&self) -> ActionView {
        match *self {
            Action::Write(bytes) => ActionView::Write(bytes@),
            Action::Read => ActionView::Read,
            Action::Wait(millis) => ActionView::Wait(millis),
            Action::Finish(response) => ActionView::Finish(response@),
            Action::Fail(error) => ActionView::Fail(error),
        }
    }
}

/// Milliseconds between two looks for the end of a print job.
pub const POLL_INTERVAL: u64 = 50;

/// Milliseconds after which a transfer that has not ended counts as failed.
pub const TRANSFER_TIMEOUT: u64 = 500;

/// Number of commands between the status reply and the first raster line.
pub const SETUP_COMMANDS: u64 = 5;

/// The commands of a job in the order in which they are sent, once the
/// printer has reported its media: mode, media descriptor, auto-cut, cut
/// settings, margins, one command for each raster line, and the print
/// command.
pub open spec fn job_script(media: Media, feed_margin: u8, lines: Seq<[u8; 90]>) -> Seq<Seq<u8>> {
    seq![
        mode_bytes(),
        media_bytes(
            media_code(media.media_type).unwrap(),
            media.width,
            media.length,
            lines.len() as u32,
        ),
        auto_cut_bytes(),
        cut_settings_bytes(),
        margins_bytes(feed_margin),
    ] + Seq::new(lines.len(), |i: int| raster_bytes(lines[i]@)) + seq![print_bytes()]
}

/// The state of a job of `count` raster lines that has sent the first
/// `sent` commands of its script.
pub open spec fn state_after(sent: int, count: int) -> State {
    if sent <= 0 {
        State::StatusQueried
    } else if sent == 1 {
        State::ModeSet
    } else if sent <= 3 {
        State::MediaDescribed
    } else if sent == 4 {
        State::SettingsApplied
    } else if sent < 5 + count {
        State::MarginsSet
    } else if sent == 5 + count {
        State::LinesSent
    } else {
        State::Triggered
    }
}

/// A print job as the contracts see it.
pub struct JobView {
    pub state: State,
    pub waiting: Waiting,
    /// The raster lines to print.
    pub lines: Seq<[u8; 90]>,
    /// Whether the job ends only when the printer reports completion.
    pub blocking: bool,
    /// The media that the printer reported.
    pub media: Media,
    /// Number of commands of the script that are sent.
    pub sent: int,
}

impl JobView {
    /// The feed margin of the reported media, if the table knows it.
    pub open spec fn feed_margin(self) -> Option<u8> {
        match self.media.label() {
            Some(label) => Some(label.feed_margin as u8),
            None => None,
        }
    }

    /// The script of the job, with no margin where the media is unknown.
    pub open spec fn script(self) -> Seq<Seq<u8>> {
        job_script(
            self.media,
            match self.feed_margin() {
                Some(margin) => margin,
                None => 0,
            },
            self.lines,
        )
    }

    /// The job after a failure.
    pub open spec fn failed(self) -> JobView {
        JobView { state: State::Errored, ..self }
    }

    /// The job and its next action once a write has ended.
    pub open spec fn after_write(self) -> (JobView, ActionView) {
        if self.state == State::Idle {
            (JobView { waiting: Waiting::Reply, ..self }, ActionView::Read)
        } else {
            let sent = self.sent + 1;
            let state = state_after(sent, self.lines.len() as int);
            if sent >= self.script().len() {
                (JobView { state, sent, waiting: Waiting::Reply, ..self }, ActionView::Read)
            } else if sent == 4 && self.feed_margin() is None {
                (
                    JobView { sent, ..self }.failed(),
                    ActionView::Fail(ProtocolError::UnknownMedia),
                )
            } else {
                (JobView { state, sent, ..self }, ActionView::Write(self.script()[sent]))
            }
        }
    }

    /// The job and its next action once a reply has come.
    pub open spec fn after_reply(self, bytes: Seq<u8>) -> (JobView, ActionView) {
        match decoded(bytes) {
            Ok(reply) => {
                if self.state == State::Idle {
                    if reply.media.media_type == MediaType::NoMedia {
                        (self.failed(), ActionView::Fail(ProtocolError::NoMediaLoaded))
                    } else {
                        let next = JobView {
                            state: State::StatusQueried,
                            waiting: Waiting::WriteAck,
                            media: reply.media,
                            sent: 0,
                            ..self
                        };
                        (next, ActionView::Write(next.script()[0]))
                    }
                } else if self.state == State::AwaitingCompletion {
                    if reply.status_type == StatusType::PrintingCompleted {
                        (JobView { state: State::Done, ..self }, ActionView::Finish(reply))
                    } else {
                        (
                            JobView { waiting: Waiting::Wake, ..self },
                            ActionView::Wait(POLL_INTERVAL),
                        )
                    }
                } else if self.blocking {
                    (JobView { state: State::AwaitingCompletion, ..self }, ActionView::Read)
                } else {
                    (JobView { state: State::Done, ..self }, ActionView::Finish(reply))
                }
            },
            Err(error) => {
                if self.state == State::AwaitingCompletion {
                    (JobView { waiting: Waiting::Wake, ..self }, ActionView::Wait(POLL_INTERVAL))
                } else {
                    (self.failed(), ActionView::Fail(error))
                }
            },
        }
    }

    /// The job and its next action after an event.
    ///
    /// A finished or failed job fails on every event. While the job waits
    /// for completion, a failed read counts as "not yet complete"; any
    /// other failure of the transport ends the job. An event that the job
    /// does not wait for ends it too.
    pub open spec fn step(self, event: EventView) -> (JobView, ActionView) {
        if self.state == State::Errored || self.state == State::Done {
            (self.failed(), ActionView::Fail(ProtocolError::OutOfSequence))
        } else if event is TransportFailed {
            if self.state == State::AwaitingCompletion && self.waiting == Waiting::Reply {
                (JobView { waiting: Waiting::Wake, ..self }, ActionView::Wait(POLL_INTERVAL))
            } else {
                (self.failed(), ActionView::Fail(ProtocolError::Transport))
            }
        } else if self.waiting == Waiting::Start && event is Start {
            (
                JobView { waiting: Waiting::WriteAck, ..self },
                ActionView::Write(status_request_bytes()),
            )
        } else if self.waiting == Waiting::WriteAck && event is Written {
            self.after_write()
        } else if self.waiting == Waiting::Reply && event is Received {
            self.after_reply(event->Received_0)
        } else if self.waiting == Waiting::Wake && event is Waited {
            (JobView { waiting: Waiting::Reply, ..self }, ActionView::Read)
        } else {
            (self.failed(), ActionView::Fail(ProtocolError::OutOfSequence))
        }
    }

    /// What holds of every job: the state says how much of the script is
    /// sent, and what the job waits for fits the state.
    pub open spec fn well_formed(self) -> bool {
        &&& self.lines.len() <= u32::MAX
        &&& 0 <= self.sent <= self.script().len()
        &&& match self.state {
            State::Idle => self.sent == 0 && self.waiting != Waiting::Wake,
            State::Errored => true,
            State::Done => self.sent == self.script().len(),
            State::AwaitingCompletion => self.sent == self.script().len() && (self.waiting
                == Waiting::Reply || self.waiting == Waiting::Wake),
            State::Triggered => self.sent == self.script().len() && self.waiting
                == Waiting::Reply,
            _ => self.state == state_after(self.sent, self.lines.len() as int)
                && self.waiting == Waiting::WriteAck && self.sent < self.script().len()
                && media_code(self.media.media_type) is Some && (self.sent >= 4
                ==> self.feed_margin() is Some),
        }
    }
}

/// Where a job stands: all that changes from event to event.
#[derive(Clone, Copy)]
struct Progress {
    state: State,
    waiting: Waiting,
    media: Media,
    sent: u64,
}

/// A print job: the raster lines and how far they have come.
pub struct PrintJob {
    progress: Progress,
    lines: Vec<[u8; 90]>,
    blocking: bool,
}

impl View for PrintJob {
    type V = JobView;

    closed spec fn view(&self) -> JobView {
        JobView {
            state: self.progress.state,
            waiting: self.progress.waiting,
            lines: self.lines@,
            blocking: self.blocking,
            media: self.progress.media,
            sent: self.progress.sent as int,
        }
    }
}

impl PrintJob {
    #[verifier::type_invariant]
    spec fn inv(self) -> bool {
        self@.well_formed()
    }

    /// A job that prints `raster_lines`. A blocking job ends when the
    /// printer reports that it has finished printing, any other with the
    /// printer's first reply to the print command.
    pub fn new(raster_lines: Vec<[u8; 90]>, blocking: bool) -> (job: PrintJob)
        requires
            raster_lines.len() <= u32::MAX,
        ensures
            job@ == (JobView {
                state: State::Idle,
                waiting: Waiting::Start,
                lines: raster_lines@,
                blocking,
                media: Media { media_type: MediaType::NoMedia, width: 0, length: 0 },
                sent: 0,
            }),
            job@.well_formed(),
    {
        PrintJob {
            progress: Progress {
                state: State::Idle,
                waiting: Waiting::Start,
                media: Media { media_type: MediaType::NoMedia, width: 0, length: 0 },
                sent: 0,
            },
            lines: raster_lines,
            blocking,
        }
    }

    /// How far the job has come.
    pub fn state(&self) -> (state: State)
        ensures
            state == self@.state,
    {
        self.progress.state
    }

    /// The command at `index` of the script of a job with this media.
    fn command(&self, media: Media, index: u64) -> (command: Vec<u8>)
        requires
            index <= SETUP_COMMANDS + self.lines@.len(),
            self.lines@.len() <= u32::MAX,
            media_code(media.media_type) is Some,
            index >= 4 ==> media.label() is Some,
        ensures
            command@ == (JobView { media, ..self@ }).script()[index as int],
    {
        let count: u64 = self.lines.len() as u64;
        if index == 0 {
            mode_command()
        } else if index == 1 {
            let code = media_type_code(media.media_type).unwrap();
            media_command(code, media.width, media.length, self.lines.len() as u32)
        } else if index == 2 {
            auto_cut_command()
        } else if index == 3 {
            cut_settings_command()
        } else if index == 4 {
            proof {
                lemma_label_well_formed(media.width, media.lookup_length());
            }
            let label = media.find_label().unwrap();
            margins_command(label.feed_margin as u8)
        } else if index < SETUP_COMMANDS + count {
            raster_command(&self.lines[(index - SETUP_COMMANDS) as usize])
        } else {
            print_command()
        }
    }

    /// Ends the job with an error.
    fn fail(&mut self, error: ProtocolError) -> (action: Action)
        ensures
            final(self)@ == old(self)@.failed(),
            action@ == ActionView::Fail(error),
    {
        proof {
            use_type_invariant(&*self);
        }
        self.progress = Progress { state: State::Errored, ..self.progress };
        Action::Fail(error)
    }

    /// Goes on waiting for something else.
    fn wait_for(&mut self, waiting: Waiting)
        requires
            (JobView { waiting, ..old(self)@ }).well_formed(),
        ensures
            final(self)@ == (JobView { waiting, ..old(self)@ }),
    {
        self.progress = Progress { waiting, ..self.progress };
    }

    /// Takes an event and says what to do next.
    pub fn advance(&mut self, event: Event) -> (action: Action)
        ensures
            (final(self)@, action@) == old(self)@.step(event@),
            final(self)@.well_formed(),
    {
        proof {
            use_type_invariant(&*self);
        }
        let action = if self.progress.state == State::Errored || self.progress.state
            == State::Done {
            self.fail(ProtocolError::OutOfSequence)
        } else {
            match event {
                Event::TransportFailed => {
                    if self.progress.state == State::AwaitingCompletion && self.progress.waiting
                        == Waiting::Reply {
                        self.wait_for(Waiting::Wake);
                        Action::Wait(POLL_INTERVAL)
                    } else {
                        self.fail(ProtocolError::Transport)
                    }
                },
                Event::Start => {
                    if self.progress.waiting == Waiting::Start {
                        self.wait_for(Waiting::WriteAck);
                        Action::Write(status_request_command())
                    } else {
                        self.fail(ProtocolError::OutOfSequence)
                    }
                },
                Event::Written => {
                    if self.progress.waiting == Waiting::WriteAck {
                        self.written()
                    } else {
                        self.fail(ProtocolError::OutOfSequence)
                    }
                },
                Event::Received(bytes) => {
                    if self.progress.waiting == Waiting::Reply {
                        self.received(bytes.as_slice())
                    } else {
                        self.fail(ProtocolError::OutOfSequence)
                    }
                },
                Event::Waited => {
                    if self.progress.waiting == Waiting::Wake {
                        self.wait_for(Waiting::Reply);
                        Action::Read
                    } else {
                        self.fail(ProtocolError::OutOfSequence)
                    }
                },
            }
        };
        proof {
            use_type_invariant(&*self);
        }
        action
    }

    /// The state that belongs to the number of commands sent.
    fn state_for(sent: u64, count: u64) -> (state: State)
        requires
            count <= u32::MAX,
        ensures
            state == state_after(sent as int, count as int),
    {
        if sent == 0 {
            State::StatusQueried
        } else if sent == 1 {
            State::ModeSet
        } else if sent <= 3 {
            State::MediaDescribed
        } else if sent == 4 {
            State::SettingsApplied
        } else if sent < SETUP_COMMANDS + count {
            State::MarginsSet
        } else if sent == SETUP_COMMANDS + count {
            State::LinesSent
        } else {
            State::Triggered
        }
    }

    /// A write has ended.
    fn written(&mut self) -> (action: Action)
        requires
            old(self)@.state != State::Errored,
            old(self)@.state != State::Done,
            old(self)@.waiting == Waiting::WriteAck,
        ensures
            (final(self)@, action@) == old(self)@.after_write(),
    {
        proof {
            use_type_invariant(&*self);
        }
        if self.progress.state == State::Idle {
            self.wait_for(Waiting::Reply);
            return Action::Read;
        }
        let count: u64 = self.lines.len() as u64;
        let sent: u64 = self.progress.sent + 1;
        let state = Self::state_for(sent, count);
        if sent >= SETUP_COMMANDS + count + 1 {
            self.progress = Progress { state, sent, waiting: Waiting::Reply, ..self.progress };
            Action::Read
        } else if sent == 4 && self.progress.media.find_label().is_none() {
            self.progress = Progress { state: State::Errored, sent, ..self.progress };
            Action::Fail(ProtocolError::UnknownMedia)
        } else {
            let command = self.command(self.progress.media, sent);
            self.progress = Progress { state, sent, ..self.progress };
            Action::Write(command)
        }
    }

    /// A reply has come.
    fn received(&mut self, bytes: &[u8]) -> (action: Action)
        requires
            old(self)@.state != State::Errored,
            old(self)@.state != State::Done,
            old(self)@.waiting == Waiting::Reply,
        ensures
            (final(self)@, action@) == old(self)@.after_reply(bytes@),
    {
        proof {
            use_type_invariant(&*self);
        }
        match decode(bytes) {
            Ok(reply) => {
                if self.progress.state == State::Idle {
                    if media_type_code(reply.media.media_type).is_none() {
                        self.fail(ProtocolError::NoMediaLoaded)
                    } else {
                        let command = self.command(reply.media, 0);
                        self.progress = Progress {
                            state: State::StatusQueried,
                            waiting: Waiting::WriteAck,
                            media: reply.media,
                            sent: 0,
                        };
                        Action::Write(command)
                    }
                } else if self.progress.state == State::AwaitingCompletion {
                    if reply.status_type == StatusType::PrintingCompleted {
                        self.progress = Progress { state: State::Done, ..self.progress };
                        Action::Finish(reply)
                    } else {
                        self.wait_for(Waiting::Wake);
                        Action::Wait(POLL_INTERVAL)
                    }
                } else if self.blocking {
                    self.progress = Progress {
                        state: State::AwaitingCompletion,
                        ..self.progress
                    };
                    Action::Read
                } else {
                    self.progress = Progress { state: State::Done, ..self.progress };
                    Action::Finish(reply)
                }
            },
            Err(error) => {
                if self.progress.state == State::AwaitingCompletion {
                    self.wait_for(Waiting::Wake);
                    Action::Wait(POLL_INTERVAL)
                } else {
                    self.fail(error)
                }
            },
        }
    }
}

/// No event leads out of the failed state.
pub proof fn lemma_errored_is_final(job: JobView, event: EventView)
    requires
        job.state == State::Errored,
    ensures
        job.step(event).0.state == State::Errored,
        job.step(event).1 is Fail,
{
}

/// The failed state can be reached from every state: a job fails on an
/// event that it does not wait for.
pub proof fn lemma_errored_is_reachable(job: JobView)
    ensures
        exists|event: EventView| (#[trigger] job.step(event)).0.state == State::Errored,
{
    let event = match job.waiting {
        Waiting::Start => EventView::Written,
        _ => EventView::Start,
    };
    assert(job.step(event).0.state == State::Errored);
}

/// A step leaves a well-formed job well formed.
pub proof fn lemma_step_keeps_well_formed(job: JobView, event: EventView)
    requires
        job.well_formed(),
    ensures
        job.step(event).0.well_formed(),
{
}

/// The job after the printer has reported its media and `count` writes
/// have ended.
pub open spec fn after_writes(job: JobView, count: nat) -> JobView
    decreases count,
{
    if count == 0 {
        job
    } else {
        after_writes(job, (count - 1) as nat).step(EventView::Written).0
    }
}

/// While the writes succeed, the commands go out in the order of the
/// script: a job that has sent the first command of its script and sees
/// `count` writes end has sent `count` commands, and at the end of the
/// next write it asks for the next command of the script, or, after the
/// last, for the printer's reply.
pub proof fn lemma_commands_follow_script(job: JobView, count: nat)
    requires
        job.well_formed(),
        job.state == State::StatusQueried,
        job.feed_margin() is Some,
        count < job.script().len(),
    ensures
        after_writes(job, count).well_formed(),
        after_writes(job, count).sent == count,
        after_writes(job, count).media == job.media,
        after_writes(job, count).lines == job.lines,
        after_writes(job, count).state == state_after(count as int, job.lines.len() as int),
        after_writes(job, count).step(EventView::Written).1 == if count + 1 < job.script().len() {
            ActionView::Write(job.script()[count as int + 1])
        } else {
            ActionView::Read
        },
    decreases count,
{
    if count > 0 {
        lemma_commands_follow_script(job, (count - 1) as nat);
    }
}

/// A job without raster lines sends a media descriptor that announces no
/// line, and no raster command stands between the margins and the print
/// command.
pub proof fn lemma_script_without_lines(media: Media, feed_margin: u8)
    ensures
        job_script(media, feed_margin, Seq::empty()) == seq![
            mode_bytes(),
            media_bytes(media_code(media.media_type).unwrap(), media.width, media.length, 0),
            auto_cut_bytes(),
            cut_settings_bytes(),
            margins_bytes(feed_margin),
            print_bytes(),
        ],
        media_bytes(media_code(media.media_type).unwrap(), media.width, media.length, 0).subrange(
            7,
            11,
        ) == seq![0u8, 0u8, 0u8, 0u8],
{
    let script = job_script(media, feed_margin, Seq::empty());
    assert(script =~= seq![
        mode_bytes(),
        media_bytes(media_code(media.media_type).unwrap(), media.width, media.length, 0),
        auto_cut_bytes(),
        cut_settings_bytes(),
        margins_bytes(feed_margin),
        print_bytes(),
    ]);
    assert(media_bytes(
        media_code(media.media_type).unwrap(),
        media.width,
        media.length,
        0,
    ).subrange(7, 11) =~= seq![0u8, 0u8, 0u8, 0u8]);
}

} // verus!
