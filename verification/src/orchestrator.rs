//! The main loop of the application, one wake at a time.
//!
//! The caller waits for whichever source is ready, in the order of
//! `next_source`, and hands what it got to `on_wake`. The orchestrator
//! brings the interface and the state up to date and answers with the
//! commands that the caller carries out, in order: restarts of capture and
//! of the transcription session, the writing of changed settings, a redraw,
//! and at the end the shutdown.

use vstd::prelude::*;
use vstd::string::*;
use crate::audio::AudioError;
use crate::capture::{
    alive_after, following, lemma_never_two_alive, AudioCaptureWorker, CaptureCommand, SlotOp,
};
use crate::config::defaults::enumeration;
use crate::keys::KeyEvent;
use crate::speakers::speaker_label;
use crate::state::{AppState, AppView};
use crate::transcribers::{result_views, ResultView, TranscriptionResult};
use crate::transcript::TranscriptionMessage;
use crate::transcript_model::MessageView;
use crate::tui::{App, UiView};

verus! {

/// What the loop waits for.
#[derive(Debug, Clone, Copy, PartialEq, Eq, Structural)]
pub enum Source {
    /// Keys and other events of the terminal.
    Input,
    /// Results of the transcription session.
    Transcripts,
    /// The timer of the display.
    Tick,
}

/// Which sources have something ready.
#[derive(Debug, Clone, Copy, PartialEq, Eq, Structural)]
pub struct Readiness {
    pub input: bool,
    pub transcripts: bool,
    pub tick: bool,
}

/// The source that is served: input before transcripts, transcripts before
/// the timer.
pub fn next_source(ready: Readiness) -> (source: Option<Source>)
    ensures
        source == if ready.input {
            Some(Source::Input)
        } else if ready.transcripts {
            Some(Source::Transcripts)
        } else if ready.tick {
            Some(Source::Tick)
        } else {
            None::<Source>
        },
{
    if ready.input {
        Some(Source::Input)
    } else if ready.transcripts {
        Some(Source::Transcripts)
    } else if ready.tick {
        Some(Source::Tick)
    } else {
        None
    }
}

/// What woke the loop.
#[derive(Debug, Clone)]
pub enum Wake {
    /// A key event.
    Key(KeyEvent),
    /// The terminal changed its size.
    Resize,
    /// Another event of the terminal, or one that could not be read.
    OtherInput,
    /// The terminal delivers no more events.
    InputClosed,
    /// All the results that the session had ready.
    Transcripts(Vec<TranscriptionResult>),
    /// The timer of the display fired.
    Tick,
}

/// A wake as plain values.
pub enum WakeView {
    Key(KeyEvent),
    Resize,
    OtherInput,
    InputClosed,
    Transcripts(Seq<ResultView>),
    Tick,
}

impl View for Wake {
    type V = WakeView;

    open spec fn view(&self) -> WakeView {
        match self {
            Wake::Key(key) => WakeView::Key(*key),
            Wake::Resize => WakeView::Resize,
            Wake::OtherInput => WakeView::OtherInput,
            Wake::InputClosed => WakeView::InputClosed,
            Wake::Transcripts(results) => WakeView::Transcripts(result_views(results@)),
            Wake::Tick => WakeView::Tick,
        }
    }
}

/// What the caller carries out.
#[derive(Debug, Clone, Copy, PartialEq, Eq, Structural)]
pub enum Command {
    /// A command for the capture worker.
    Capture(CaptureCommand),
    /// Abort the task of a transcription session; what it still had to say is
    /// discarded.
    AbortSession { session: u64 },
    /// Create a fresh pair of queues: one for audio, one for results.
    OpenChannels { channel: u64 },
    /// Open a transcription session on a pair of queues, with the key, the
    /// language and the model of the state.
    OpenSession { session: u64, channel: u64 },
    /// Write the settings out.
    PersistSettings,
    /// Draw the screen.
    Redraw,
    /// Give the terminal back.
    RestoreTerminal,
    /// Drop the sending end of the audio queue, which tells the session to
    /// finish.
    DropAudioChannel { channel: u64 },
    /// Wait for the task of the session to end.
    AwaitSession { session: u64 },
}

/// The state of the main loop.
#[derive(Debug, Clone, Copy, PartialEq, Eq, Structural)]
pub struct Orchestrator {
    /// Whether the screen is out of date.
    pub needs_redraw: bool,
    /// The slot of the capture worker.
    pub worker: AudioCaptureWorker,
    /// The pair of queues in use.
    pub channel: u64,
    /// The transcription session in use.
    pub session: u64,
    /// Whether the loop goes on.
    pub running: bool,
}

/// The message that a result is displayed as: its text, with the name of its
/// speaker where it has one.
pub open spec fn message_for(result: ResultView, speakers: Map<i32, Seq<char>>) -> MessageView {
    MessageView {
        speaker: match result.speaker_id {
            Some(id) => Some(speaker_label(speakers, id)),
            None => None,
        },
        speaker_id: result.speaker_id,
        content: result.transcript,
    }
}

/// The messages that results are displayed as, in order: one for each result
/// but those that stand for the end of the stream.
pub open spec fn displayed(results: Seq<ResultView>, speakers: Map<i32, Seq<char>>) -> Seq<
    MessageView,
>
    decreases results.len(),
{
    if results.len() == 0 {
        Seq::empty()
    } else if results.last().is_stream_end() {
        displayed(results.drop_last(), speakers)
    } else {
        displayed(results.drop_last(), speakers).push(message_for(results.last(), speakers))
    }
}

/// Wraps capture commands as commands of the loop.
pub open spec fn capture(commands: Seq<CaptureCommand>) -> Seq<Command> {
    Seq::new(commands.len(), |i: int| Command::Capture(commands[i]))
}

impl Orchestrator {
    /// The loop before its first wake, for the active device: the screen is
    /// to be drawn, the first worker writes to the first pair of queues, and
    /// the first session reads from it.
    pub open spec fn started(device_index: usize) -> Orchestrator {
        Orchestrator {
            needs_redraw: true,
            worker: AudioCaptureWorker::unused().restarted(device_index, 0),
            channel: 0,
            session: 0,
            running: true,
        }
    }

    /// The commands that start the loop.
    pub open spec fn start_commands(device_index: usize) -> Seq<Command> {
        seq![Command::OpenChannels { channel: 0 }] + capture(
            AudioCaptureWorker::unused().restart_commands(device_index, 0),
        ) + seq![Command::OpenSession { session: 0, channel: 0 }]
    }

    /// The loop after capture was restarted on the active device, if that was
    /// asked for.
    pub open spec fn device_changed(self, asked: bool, device_index: usize) -> Orchestrator {
        if asked {
            Orchestrator { worker: self.worker.restarted(device_index, self.channel), ..self }
        } else {
            self
        }
    }

    /// The commands that restart capture on the active device, if that was
    /// asked for.
    pub open spec fn device_commands(self, asked: bool, device_index: usize) -> Seq<Command> {
        if asked {
            capture(self.worker.restart_commands(device_index, self.channel))
        } else {
            Seq::empty()
        }
    }

    /// The loop after the transcription session was replaced, if that was
    /// asked for: on a fresh pair of queues, with capture restarted on it.
    pub open spec fn session_changed(self, asked: bool, device_index: usize) -> Orchestrator {
        if asked {
            Orchestrator {
                worker: self.worker.restarted(device_index, following(self.channel)),
                channel: following(self.channel),
                session: following(self.session),
                ..self
            }
        } else {
            self
        }
    }

    /// The commands that replace the transcription session, if that was asked
    /// for, in this order: abort the old session, create fresh queues,
    /// restart capture on them, open the new session.
    pub open spec fn session_commands(self, asked: bool, device_index: usize) -> Seq<Command> {
        if asked {
            seq![
                Command::AbortSession { session: self.session },
                Command::OpenChannels { channel: following(self.channel) },
            ] + capture(self.worker.restart_commands(device_index, following(self.channel))) + seq![
                Command::OpenSession {
                    session: following(self.session),
                    channel: following(self.channel),
                },
            ]
        } else {
            Seq::empty()
        }
    }

    /// The commands of the shutdown: give the terminal back, stop capture and
    /// wait for it, drop the audio queue, wait for the session.
    pub open spec fn shutdown_commands(self) -> Seq<Command> {
        seq![Command::RestoreTerminal] + capture(self.worker.stop_commands()) + seq![
            Command::DropAudioChannel { channel: self.channel },
            Command::AwaitSession { session: self.session },
        ]
    }

    /// The interface and the state after what woke the loop was delivered,
    /// and whether the screen is out of date afterwards.
    pub open spec fn delivered(
        self,
        wake: WakeView,
        ui: UiView,
        state: AppView,
        devices: Result<Seq<Seq<char>>, AudioError>,
        now: u64,
    ) -> (UiView, AppView, bool) {
        match wake {
            WakeView::Key(key) => (
                ui.handle(key, state, devices, now).0,
                ui.handle(key, state, devices, now).1,
                self.needs_redraw || ui.handle(key, state, devices, now).2,
            ),
            WakeView::Resize => (ui, state, true),
            WakeView::Tick => (ui, state, true),
            WakeView::Transcripts(results) => (
                UiView {
                    transcript: ui.transcript.append_all(displayed(results, state.speakers)),
                    ..ui
                },
                state,
                self.needs_redraw || displayed(results, state.speakers).len() > 0,
            ),
            _ => (ui, state, self.needs_redraw),
        }
    }

    /// The state after the loop took note of what it asks for.
    pub open spec fn settled(state: AppView) -> AppView {
        AppView {
            audio_device_restart_needed: false,
            transcriber_restart_needed: false,
            config: state.config.saved(),
            ..state
        }
    }

    /// The loop after its shutdown.
    pub open spec fn stopped(self) -> Orchestrator {
        Orchestrator { running: false, worker: self.worker.stopped(), ..self }
    }

    /// The loop after a wake that left the state as given: restarts were
    /// made, the screen is up to date, and the loop has stopped if the
    /// application was asked to quit.
    pub open spec fn after_wake(self, state: AppView) -> Orchestrator {
        let changed = Orchestrator {
            needs_redraw: false,
            running: true,
            ..self.device_changed(
                state.audio_device_restart_needed,
                state.current_device_index,
            ).session_changed(state.transcriber_restart_needed, state.current_device_index)
        };
        if state.should_quit {
            changed.stopped()
        } else {
            changed
        }
    }

    /// The commands of a wake, for the state that the wake left: restarts
    /// that were asked for, capture before session; the settings, if a value
    /// changed; a redraw, if the screen is out of date; and the shutdown, if
    /// the application was asked to quit.
    pub open spec fn wake_commands(self, state: AppView, dirty: bool) -> Seq<Command> {
        let first = self.device_changed(state.audio_device_restart_needed, state.current_device_index);
        let second = first.session_changed(
            state.transcriber_restart_needed,
            state.current_device_index,
        );
        self.device_commands(state.audio_device_restart_needed, state.current_device_index)
            + first.session_commands(state.transcriber_restart_needed, state.current_device_index)
            + (if state.config.unsaved {
            seq![Command::PersistSettings]
        } else {
            Seq::<Command>::empty()
        }) + (if dirty {
            seq![Command::Redraw]
        } else {
            Seq::<Command>::empty()
        }) + (if state.should_quit {
            second.shutdown_commands()
        } else {
            Seq::<Command>::empty()
        })
    }

    /// Starts the loop for the active device.
    pub fn start(device_index: usize) -> (started: (Self, Vec<Command>))
        ensures
            started.0 == Self::started(device_index),
            started.1@ == Self::start_commands(device_index),
    {
        let (worker, spawn) = AudioCaptureWorker::spawn(device_index, 0);
        let mut commands: Vec<Command> = Vec::new();
        commands.push(Command::OpenChannels { channel: 0 });
        push_capture(&mut commands, &spawn);
        commands.push(Command::OpenSession { session: 0, channel: 0 });
        (
            Orchestrator { needs_redraw: true, worker, channel: 0, session: 0, running: true },
            commands,
        )
    }

    /// Adds the results of the session to the transcript, each under the
    /// name of its speaker, and says whether any was added. Results that
    /// stand for the end of the stream are left out.
    pub fn receive_transcripts(app: &mut App, state: &AppState, results: &Vec<TranscriptionResult>) -> (
        added: bool)
        requires
            old(app).wf(),
        ensures
            final(app).wf(),
            final(app)@ == (UiView {
                transcript: old(app)@.transcript.append_all(
                    displayed(result_views(results@), state@.speakers),
                ),
                ..old(app)@
            }),
            added == (displayed(result_views(results@), state@.speakers).len() > 0),
    {
        let ghost all = result_views(results@);
        let ghost speakers = state@.speakers;
        let ghost start = app@;
        let n = results.len();
        let mut added = false;
        let mut i: usize = 0;
        assert(all.take(0) =~= Seq::<ResultView>::empty());
        while i < n
            invariant
                i <= n,
                n == results@.len(),
                all == result_views(results@),
                speakers == state@.speakers,
                app.wf(),
                app@ == (UiView {
                    transcript: start.transcript.append_all(displayed(all.take(i as int), speakers)),
                    ..start
                }),
                added == (displayed(all.take(i as int), speakers).len() > 0),
            decreases n - i,
        {
            assert(all.take(i + 1).drop_last() =~= all.take(i as int));
            assert(all.take(i + 1).last() == results@[i as int]@);
            let result = &results[i];
            if !result.is_stream_end() {
                let speaker = match result.speaker_id {
                    Some(id) => Some(state.get_speaker_name(id)),
                    None => None,
                };
                let message = TranscriptionMessage::new(
                    speaker,
                    result.speaker_id,
                    result.transcript.clone(),
                );
                assert(message@ == message_for(results@[i as int]@, speakers));
                let ghost sooner = displayed(all.take(i as int), speakers);
                assert(sooner.push(message@).drop_last() =~= sooner);
                app.add_transcription(message);
                added = true;
            }
            i += 1;
        }
        assert(all.take(n as int) =~= all);
        added
    }

    /// Handles a wake: delivers it to the interface and the state, and says
    /// what is to be done. When the terminal delivers no more events the loop
    /// ends at once, with the shutdown.
    pub fn on_wake(
        &mut self,
        wake: Wake,
        app: &mut App,
        state: &mut AppState,
        devices: &Result<Vec<String>, AudioError>,
        now: u64,
    ) -> (commands: Vec<Command>)
        requires
            old(app).wf(),
            old(state).wf(),
        ensures
            final(app).wf(),
            final(state).wf(),
            wake@ is InputClosed ==> {
                &&& *final(self) == old(self).stopped()
                &&& final(app)@ == old(app)@
                &&& final(state)@ == old(state)@
                &&& commands@ == old(self).shutdown_commands()
            },
            !(wake@ is InputClosed) ==> {
                let delivered = old(self).delivered(
                    wake@,
                    old(app)@,
                    old(state)@,
                    enumeration(*devices),
                    now,
                );
                &&& final(app)@ == delivered.0
                &&& final(state)@ == Self::settled(delivered.1)
                &&& *final(self) == old(self).after_wake(delivered.1)
                &&& commands@ == old(self).wake_commands(delivered.1, delivered.2)
            },
    {
        if let Wake::InputClosed = wake {
            let mut commands: Vec<Command> = Vec::new();
            self.running = false;
            self.push_shutdown(&mut commands);
            return commands;
        }
        let dirty = self.deliver(wake, app, state, devices, now);
        self.conclude(state, dirty)
    }

    /// Delivers what woke the loop to the interface and the state, and says
    /// whether the screen is out of date afterwards.
    fn deliver(
        &self,
        wake: Wake,
        app: &mut App,
        state: &mut AppState,
        devices: &Result<Vec<String>, AudioError>,
        now: u64,
    ) -> (dirty: bool)
        requires
            old(app).wf(),
            old(state).wf(),
            !(wake@ is InputClosed),
        ensures
            final(app).wf(),
            final(state).wf(),
            final(app)@ == self.delivered(wake@, old(app)@, old(state)@, enumeration(*devices), now).0,
            final(state)@ == self.delivered(
                wake@,
                old(app)@,
                old(state)@,
                enumeration(*devices),
                now,
            ).1,
            dirty == self.delivered(wake@, old(app)@, old(state)@, enumeration(*devices), now).2,
    {
        match wake {
            Wake::Key(key) => {
                let handled = app.handle_key_event(key, state, devices, now);
                self.needs_redraw || handled
            },
            Wake::Resize => true,
            Wake::Tick => true,
            Wake::Transcripts(results) => {
                let added = Self::receive_transcripts(app, state, &results);
                self.needs_redraw || added
            },
            _ => self.needs_redraw,
        }
    }

    /// Ends a wake: takes note of what the state asks for, and says what is
    /// to be done.
    fn conclude(&mut self, state: &mut AppState, dirty: bool) -> (commands: Vec<Command>)
        requires
            old(state).wf(),
        ensures
            final(state).wf(),
            final(state)@ == Self::settled(old(state)@),
            *final(self) == old(self).after_wake(old(state)@),
            commands@ == old(self).wake_commands(old(state)@, dirty),
    {
        let mut commands: Vec<Command> = Vec::new();
        let ghost left = state@;
        let device_index = state.current_device_index();
        if state.take_audio_device_restart_needed() {
            let restart = self.worker.restart(device_index, self.channel);
            push_capture(&mut commands, &restart);
        }
        assert(commands@ =~= old(self).device_commands(
            left.audio_device_restart_needed,
            device_index,
        ));
        let ghost first = *self;
        let ghost so_far = commands@;
        if state.take_transcriber_restart_needed() {
            commands.push(Command::AbortSession { session: self.session });
            self.channel = next(self.channel);
            self.session = next(self.session);
            commands.push(Command::OpenChannels { channel: self.channel });
            let restart = self.worker.restart(device_index, self.channel);
            push_capture(&mut commands, &restart);
            commands.push(Command::OpenSession { session: self.session, channel: self.channel });
            assert(commands@ =~= so_far + first.session_commands(true, device_index));
        }
        let ghost second = *self;
        assert(commands@ =~= so_far + first.session_commands(
            left.transcriber_restart_needed,
            device_index,
        ));
        let ghost restarts = commands@;
        if state.config().has_unsaved_changes() {
            commands.push(Command::PersistSettings);
        }
        state.config_mut().mark_saved();
        let ghost saving = if left.config.unsaved {
            seq![Command::PersistSettings]
        } else {
            Seq::<Command>::empty()
        };
        assert(commands@ =~= restarts + saving);
        if dirty {
            commands.push(Command::Redraw);
        }
        let ghost drawing = if dirty {
            seq![Command::Redraw]
        } else {
            Seq::<Command>::empty()
        };
        assert(commands@ =~= restarts + saving + drawing);
        self.needs_redraw = false;
        self.running = true;
        if state.should_quit() {
            self.running = false;
            self.push_shutdown(&mut commands);
        }
        let ghost leaving = if left.should_quit {
            second.shutdown_commands()
        } else {
            Seq::<Command>::empty()
        };
        assert(commands@ =~= restarts + saving + drawing + leaving);
        commands
    }

    /// Adds the commands of the shutdown.
    fn push_shutdown(&mut self, commands: &mut Vec<Command>)
        ensures
            final(commands)@ == old(commands)@ + old(self).shutdown_commands(),
            *final(self) == (Orchestrator { worker: old(self).worker.stopped(), ..*old(self) }),
    {
        commands.push(Command::RestoreTerminal);
        let stop = self.worker.stop();
        push_capture(commands, &stop);
        commands.push(Command::DropAudioChannel { channel: self.channel });
        commands.push(Command::AwaitSession { session: self.session });
        assert(commands@ =~= old(commands)@ + old(self).shutdown_commands());
    }
}

/// The number after `number`, starting over after the largest.
fn next(number: u64) -> (after: u64)
    ensures
        after == following(number),
{
    if number == u64::MAX {
        0
    } else {
        number + 1
    }
}

/// Adds capture commands to the commands of the loop.
fn push_capture(commands: &mut Vec<Command>, more: &Vec<CaptureCommand>)
    ensures
        final(commands)@ == old(commands)@ + capture(more@),
{
    let n = more.len();
    let mut i: usize = 0;
    while i < n
        invariant
            i <= n,
            n == more@.len(),
            commands@ == old(commands)@ + capture(more@.take(i as int)),
        decreases n - i,
    {
        commands.push(Command::Capture(more[i]));
        assert(commands@ =~= old(commands)@ + capture(more@.take(i + 1)));
        i += 1;
    }
    assert(more@.take(n as int) =~= more@);
}

/// The capture commands among the commands of the loop, in order.
pub open spec fn capture_of(commands: Seq<Command>) -> Seq<CaptureCommand>
    decreases commands.len(),
{
    if commands.len() == 0 {
        Seq::empty()
    } else {
        match commands.last() {
            Command::Capture(command) => capture_of(commands.drop_last()).push(command),
            _ => capture_of(commands.drop_last()),
        }
    }
}

/// The loop after a sequence of wakes, given the state that each wake left
/// and whether it left the screen out of date.
pub open spec fn after_wakes(o: Orchestrator, wakes: Seq<(AppView, bool)>) -> Orchestrator
    decreases wakes.len(),
{
    if wakes.len() == 0 {
        o
    } else {
        after_wakes(o, wakes.drop_last()).after_wake(wakes.last().0)
    }
}

/// The commands of a sequence of wakes, in order.
pub open spec fn commands_of_wakes(o: Orchestrator, wakes: Seq<(AppView, bool)>) -> Seq<Command>
    decreases wakes.len(),
{
    if wakes.len() == 0 {
        Seq::empty()
    } else {
        commands_of_wakes(o, wakes.drop_last()) + after_wakes(o, wakes.drop_last()).wake_commands(
            wakes.last().0,
            wakes.last().1,
        )
    }
}

/// The operations on the capture slot that a sequence of wakes makes.
pub open spec fn slot_ops_of_wakes(o: Orchestrator, wakes: Seq<(AppView, bool)>) -> Seq<SlotOp>
    decreases wakes.len(),
{
    if wakes.len() == 0 {
        Seq::empty()
    } else {
        slot_ops_of_wakes(o, wakes.drop_last()) + slot_ops(
            after_wakes(o, wakes.drop_last()),
            wakes.last().0,
        )
    }
}

/// The capture commands of two runs of commands are those of the first, then
/// those of the second.
pub proof fn lemma_capture_of_concat(first: Seq<Command>, second: Seq<Command>)
    ensures
        capture_of(first + second) == capture_of(first) + capture_of(second),
    decreases second.len(),
{
    if second.len() == 0 {
        assert(first + second =~= first);
        assert(capture_of(first) + capture_of(second) =~= capture_of(first));
    } else {
        assert((first + second).drop_last() =~= first + second.drop_last());
        lemma_capture_of_concat(first, second.drop_last());
        match second.last() {
            Command::Capture(command) => {
                assert(capture_of(first + second) =~= capture_of(first) + capture_of(second));
            },
            _ => {},
        }
    }
}

/// The capture commands among wrapped capture commands are those commands.
pub proof fn lemma_capture_of_capture(commands: Seq<CaptureCommand>)
    ensures
        capture_of(capture(commands)) == commands,
    decreases commands.len(),
{
    if commands.len() == 0 {
        assert(capture(commands) =~= Seq::<Command>::empty());
        assert(capture_of(capture(commands)) =~= commands);
    } else {
        assert(capture(commands).drop_last() =~= capture(commands.drop_last()));
        lemma_capture_of_capture(commands.drop_last());
        assert(capture_of(capture(commands)) =~= commands);
    }
}

/// The operations of two runs are those of the first run, then those of the
/// second on the slot that the first run left.
pub proof fn lemma_slot_ops_concat(slot: AudioCaptureWorker, first: Seq<SlotOp>, second: Seq<SlotOp>)
    ensures
        slot.apply_all(first + second) == slot.apply_all(first).apply_all(second),
        slot.commands_all(first + second) == slot.commands_all(first) + slot.apply_all(
            first,
        ).commands_all(second),
    decreases second.len(),
{
    if second.len() == 0 {
        assert(first + second =~= first);
        assert(slot.commands_all(first) + Seq::<CaptureCommand>::empty() =~= slot.commands_all(
            first,
        ));
    } else {
        assert((first + second).drop_last() =~= first + second.drop_last());
        lemma_slot_ops_concat(slot, first, second.drop_last());
        assert(slot.commands_all(first + second) =~= slot.commands_all(first) + slot.apply_all(
            first,
        ).commands_all(second));
    }
}

/// A restart of the slot, if asked for, as operations.
pub open spec fn restart_ops(asked: bool, device_index: usize, channel: u64) -> Seq<SlotOp> {
    if asked {
        seq![SlotOp::Restart { device_index, channel }]
    } else {
        Seq::<SlotOp>::empty()
    }
}

/// A stop of the slot, if asked for, as operations.
pub open spec fn stop_ops(asked: bool) -> Seq<SlotOp> {
    if asked {
        seq![SlotOp::Stop]
    } else {
        Seq::<SlotOp>::empty()
    }
}

/// One operation on a slot, as a sequence of operations.
pub proof fn lemma_single_op(slot: AudioCaptureWorker, op: SlotOp)
    ensures
        slot.commands_all(seq![op]) == slot.commands(op),
        slot.apply_all(seq![op]) == slot.apply(op),
        slot.commands_all(Seq::empty()) == Seq::<CaptureCommand>::empty(),
        slot.apply_all(Seq::empty()) == slot,
{
    reveal_with_fuel(AudioCaptureWorker::commands_all, 3);
    reveal_with_fuel(AudioCaptureWorker::apply_all, 3);
    assert(seq![op].drop_last() =~= Seq::<SlotOp>::empty());
    assert(slot.commands_all(seq![op]) =~= slot.commands(op));
}

/// Among commands that wrap no capture command there is none.
pub proof fn lemma_capture_of_others(commands: Seq<Command>)
    requires
        forall|i: int| 0 <= i < commands.len() ==> !(#[trigger] commands[i] is Capture),
    ensures
        capture_of(commands) == Seq::<CaptureCommand>::empty(),
    decreases commands.len(),
{
    if commands.len() > 0 {
        assert(!(commands[commands.len() - 1] is Capture));
        assert forall|i: int| 0 <= i < commands.drop_last().len() implies !(
        #[trigger] commands.drop_last()[i] is Capture) by {
            assert(commands.drop_last()[i] == commands[i]);
        }
        lemma_capture_of_others(commands.drop_last());
    }
}

/// The capture commands of a change of device.
pub proof fn lemma_device_part(o: Orchestrator, asked: bool, device_index: usize)
    ensures
        capture_of(o.device_commands(asked, device_index)) == o.worker.commands_all(
            restart_ops(asked, device_index, o.channel),
        ),
        o.device_changed(asked, device_index).worker == o.worker.apply_all(
            restart_ops(asked, device_index, o.channel),
        ),
{
    lemma_single_op(o.worker, SlotOp::Restart { device_index, channel: o.channel });
    if asked {
        lemma_capture_of_capture(o.worker.restart_commands(device_index, o.channel));
    }
}

/// The capture commands of a change of session.
pub proof fn lemma_session_part(o: Orchestrator, asked: bool, device_index: usize)
    ensures
        capture_of(o.session_commands(asked, device_index)) == o.worker.commands_all(
            restart_ops(asked, device_index, following(o.channel)),
        ),
        o.session_changed(asked, device_index).worker == o.worker.apply_all(
            restart_ops(asked, device_index, following(o.channel)),
        ),
{
    lemma_single_op(o.worker, SlotOp::Restart { device_index, channel: following(o.channel) });
    if asked {
        let restart = o.worker.restart_commands(device_index, following(o.channel));
        let head = seq![
            Command::AbortSession { session: o.session },
            Command::OpenChannels { channel: following(o.channel) },
        ];
        let tail = seq![
            Command::OpenSession { session: following(o.session), channel: following(o.channel) },
        ];
        lemma_capture_of_capture(restart);
        lemma_capture_of_others(head);
        lemma_capture_of_others(tail);
        lemma_capture_of_concat(head, capture(restart));
        lemma_capture_of_concat(head + capture(restart), tail);
        assert(capture_of(o.session_commands(asked, device_index)) =~= restart);
    }
}

/// The capture commands of the shutdown.
pub proof fn lemma_shutdown_part(o: Orchestrator, asked: bool)
    ensures
        capture_of(
            if asked {
                o.shutdown_commands()
            } else {
                Seq::<Command>::empty()
            },
        ) == o.worker.commands_all(stop_ops(asked)),
        (if asked {
            o.stopped()
        } else {
            o
        }).worker == o.worker.apply_all(stop_ops(asked)),
{
    lemma_single_op(o.worker, SlotOp::Stop);
    if asked {
        let stop = o.worker.stop_commands();
        let head = seq![Command::RestoreTerminal];
        let tail = seq![
            Command::DropAudioChannel { channel: o.channel },
            Command::AwaitSession { session: o.session },
        ];
        lemma_capture_of_capture(stop);
        lemma_capture_of_others(head);
        lemma_capture_of_others(tail);
        lemma_capture_of_concat(head, capture(stop));
        lemma_capture_of_concat(head + capture(stop), tail);
        assert(capture_of(o.shutdown_commands()) =~= stop);
    }
}

/// The operations on the capture slot that a wake makes, for the state that
/// the wake left.
pub open spec fn slot_ops(o: Orchestrator, state: AppView) -> Seq<SlotOp> {
    restart_ops(state.audio_device_restart_needed, state.current_device_index, o.channel)
        + restart_ops(
        state.transcriber_restart_needed,
        state.current_device_index,
        following(o.channel),
    ) + stop_ops(state.should_quit)
}

/// The capture commands of a wake are those of the operations that the wake
/// makes on the capture slot, and the slot is left as those operations leave
/// it.
pub proof fn lemma_wake_capture(o: Orchestrator, state: AppView, dirty: bool)
    ensures
        capture_of(o.wake_commands(state, dirty)) == o.worker.commands_all(slot_ops(o, state)),
        o.after_wake(state).worker == o.worker.apply_all(slot_ops(o, state)),
{
    let device = state.current_device_index;
    let first = o.device_changed(state.audio_device_restart_needed, device);
    let second = first.session_changed(state.transcriber_restart_needed, device);
    let a = o.device_commands(state.audio_device_restart_needed, device);
    let b = first.session_commands(state.transcriber_restart_needed, device);
    let c = if state.config.unsaved {
        seq![Command::PersistSettings]
    } else {
        Seq::<Command>::empty()
    };
    let d = if dirty {
        seq![Command::Redraw]
    } else {
        Seq::<Command>::empty()
    };
    let e = if state.should_quit {
        second.shutdown_commands()
    } else {
        Seq::<Command>::empty()
    };
    let ops_a = restart_ops(state.audio_device_restart_needed, device, o.channel);
    let ops_b = restart_ops(state.transcriber_restart_needed, device, following(o.channel));
    let ops_e = stop_ops(state.should_quit);
    lemma_device_part(o, state.audio_device_restart_needed, device);
    lemma_session_part(first, state.transcriber_restart_needed, device);
    lemma_shutdown_part(second, state.should_quit);
    lemma_capture_of_others(c);
    lemma_capture_of_others(d);
    lemma_capture_of_concat(a, b);
    lemma_capture_of_concat(a + b, c);
    lemma_capture_of_concat(a + b + c, d);
    lemma_capture_of_concat(a + b + c + d, e);
    lemma_slot_ops_concat(o.worker, ops_a, ops_b);
    lemma_slot_ops_concat(o.worker, ops_a + ops_b, ops_e);
    assert(first.channel == o.channel);
    assert(capture_of(o.wake_commands(state, dirty)) =~= capture_of(a) + capture_of(b)
        + capture_of(e));
}

/// The capture commands of a sequence of wakes are those of the operations
/// that the wakes make on the capture slot.
pub proof fn lemma_wakes_capture(o: Orchestrator, wakes: Seq<(AppView, bool)>)
    ensures
        capture_of(commands_of_wakes(o, wakes)) == o.worker.commands_all(slot_ops_of_wakes(o, wakes)),
        after_wakes(o, wakes).worker == o.worker.apply_all(slot_ops_of_wakes(o, wakes)),
    decreases wakes.len(),
{
    if wakes.len() == 0 {
    } else {
        let earlier = wakes.drop_last();
        let before = after_wakes(o, earlier);
        lemma_wakes_capture(o, earlier);
        lemma_wake_capture(before, wakes.last().0, wakes.last().1);
        lemma_capture_of_concat(
            commands_of_wakes(o, earlier),
            before.wake_commands(wakes.last().0, wakes.last().1),
        );
        lemma_slot_ops_concat(
            o.worker,
            slot_ops_of_wakes(o, earlier),
            slot_ops(before, wakes.last().0),
        );
    }
}

/// Restart ordering in the loop: whatever the wakes ask for and however
/// quickly they follow each other, a change of device twice in a row
/// included, at no moment while the commands of the loop are carried out are
/// two capture workers alive. The moments are the prefixes of the capture
/// commands.
pub proof fn lemma_loop_never_two_alive(o: Orchestrator, wakes: Seq<(AppView, bool)>, k: int)
    requires
        0 <= k <= capture_of(commands_of_wakes(o, wakes)).len(),
    ensures
        alive_after(o.worker.alive(), capture_of(commands_of_wakes(o, wakes)).take(k)).finite(),
        alive_after(o.worker.alive(), capture_of(commands_of_wakes(o, wakes)).take(k)).len() <= 1,
{
    lemma_wakes_capture(o, wakes);
    lemma_never_two_alive(o.worker, slot_ops_of_wakes(o, wakes), k);
}

/// The order of a session restart: the old session is aborted first and the
/// new one is opened last, on the queues that were created for it, after
/// capture was restarted on them.
pub proof fn lemma_session_restart_order(o: Orchestrator, device_index: usize)
    ensures
        o.session_commands(true, device_index).first() == (Command::AbortSession {
            session: o.session,
        }),
        o.session_commands(true, device_index)[1] == (Command::OpenChannels {
            channel: following(o.channel),
        }),
        o.session_commands(true, device_index).last() == (Command::OpenSession {
            session: following(o.session),
            channel: following(o.channel),
        }),
        o.session_commands(true, device_index)[o.session_commands(true, device_index).len() - 2]
            == Command::Capture(
            CaptureCommand::Spawn {
                handle: o.worker.next_handle(device_index, following(o.channel)),
            },
        ),
{
}

} // verus!
