//! The event loop, as a state machine.
//!
//! The driver owns the socket and the output stream. It tells the monitor what
//! happened (an [`Input`]) and does what the monitor answers (a [`Command`]).
//! The monitor starts before the socket is bound, listens once it is, and ends
//! when the sequence of envelopes ends or when start-up fails. One input is
//! handled to completion before the next is taken, so lines come out in the
//! order in which envelopes come in.

use vstd::prelude::*;
use vstd::string::*;
use crate::envelope::{report_of, Envelope, EnvelopeView};

verus! {

/// Where the monitor stands.
#[derive(Clone, Copy, Debug, PartialEq, Eq, Structural)]
pub enum Phase {
    /// The socket is not bound yet.
    Starting,
    /// Bound: every envelope is classified and reported.
    Listening,
    /// The sequence of envelopes has ended.
    Stopped,
    /// Start-up failed.
    Failed,
}

/// What the driver tells the monitor.
#[derive(Clone, Debug, PartialEq, Eq)]
pub enum Input {
    /// The socket could not be made; the text says why.
    SocketFailed(String),
    /// The socket could not be bound to the groups; the text says why.
    BindFailed(String),
    /// The socket is bound.
    Bound,
    /// The transport delivered an envelope.
    Envelope(Envelope),
    /// The transport's sequence of envelopes has ended.
    EndOfStream,
}

/// What the monitor tells the driver to do.
#[derive(Clone, Debug, PartialEq, Eq)]
pub enum Command {
    /// Nothing to do but to wait for the next input.
    Skip,
    /// Write the line to the output, then wait for the next input.
    Print(String),
    /// End the process with success.
    Exit,
    /// End the process with failure and this message.
    Abort(String),
}

/// The mathematical content of an [`Input`].
pub enum InputView {
    SocketFailed(Seq<char>),
    BindFailed(Seq<char>),
    Bound,
    Envelope(EnvelopeView),
    EndOfStream,
}

/// The mathematical content of a [`Command`].
pub enum CommandView {
    Skip,
    Print(Seq<char>),
    Exit,
    Abort(Seq<char>),
}

impl View for Input {
    type V = InputView;

    open spec fn view(&self) -> InputView {
        match *self {
            Input::SocketFailed(reason) => InputView::SocketFailed(reason@),
            Input::BindFailed(reason) => InputView::BindFailed(reason@),
            Input::Bound => InputView::Bound,
            Input::Envelope(envelope) => InputView::Envelope(envelope@),
            Input::EndOfStream => InputView::EndOfStream,
        }
    }
}

impl View for Command {
    type V = CommandView;

    open spec fn view(&self) -> CommandView {
        match *self {
            Command::Skip => CommandView::Skip,
            Command::Print(line) => CommandView::Print(line@),
            Command::Exit => CommandView::Exit,
            Command::Abort(message) => CommandView::Abort(message@),
        }
    }
}

/// What the message of a failed bind opens with.
pub open spec fn bind_failure_prefix() -> Seq<char> {
    "failed to bind: "@
}

/// A phase is terminal when the process has been told to end.
pub open spec fn is_terminal(phase: Phase) -> bool {
    phase == Phase::Stopped || phase == Phase::Failed
}

/// The phase that follows `phase` on `input`.
pub open spec fn next_phase(phase: Phase, input: InputView) -> Phase {
    match phase {
        Phase::Starting => match input {
            InputView::SocketFailed(_) => Phase::Failed,
            InputView::BindFailed(_) => Phase::Failed,
            InputView::Bound => Phase::Listening,
            InputView::Envelope(_) => Phase::Starting,
            InputView::EndOfStream => Phase::Stopped,
        },
        Phase::Listening => match input {
            InputView::EndOfStream => Phase::Stopped,
            _ => Phase::Listening,
        },
        Phase::Stopped => Phase::Stopped,
        Phase::Failed => Phase::Failed,
    }
}

/// What the monitor answers to `input` in `phase`.
pub open spec fn command_of(phase: Phase, input: InputView) -> CommandView {
    match phase {
        Phase::Starting => match input {
            InputView::SocketFailed(reason) => CommandView::Abort(reason),
            InputView::BindFailed(reason) => CommandView::Abort(bind_failure_prefix() + reason),
            InputView::Bound => CommandView::Skip,
            InputView::Envelope(_) => CommandView::Skip,
            InputView::EndOfStream => CommandView::Exit,
        },
        Phase::Listening => match input {
            InputView::Envelope(envelope) => match report_of(envelope) {
                Some(line) => CommandView::Print(line),
                None => CommandView::Skip,
            },
            InputView::EndOfStream => CommandView::Exit,
            _ => CommandView::Skip,
        },
        Phase::Stopped => CommandView::Skip,
        Phase::Failed => CommandView::Skip,
    }
}

/// The lines that a command writes: one for `Print`, none for the others.
pub open spec fn printed(command: CommandView) -> Seq<Seq<char>> {
    match command {
        CommandView::Print(line) => seq![line],
        _ => Seq::empty(),
    }
}

/// The phase that the monitor reaches from `phase` after `inputs`, in order.
pub open spec fn phase_after(phase: Phase, inputs: Seq<InputView>) -> Phase
    decreases inputs.len(),
{
    if inputs.len() == 0 {
        phase
    } else {
        next_phase(phase_after(phase, inputs.drop_last()), inputs.last())
    }
}

/// The lines that the monitor writes from `phase` on `inputs`, in order.
pub open spec fn transcript(phase: Phase, inputs: Seq<InputView>) -> Seq<Seq<char>>
    decreases inputs.len(),
{
    if inputs.len() == 0 {
        Seq::empty()
    } else {
        transcript(phase, inputs.drop_last()) + printed(
            command_of(phase_after(phase, inputs.drop_last()), inputs.last()),
        )
    }
}

/// The contents of a sequence of inputs.
pub open spec fn input_views(inputs: Seq<Input>) -> Seq<InputView> {
    inputs.map_values(|input: Input| input@)
}

/// The contents of a sequence of lines.
pub open spec fn line_views(lines: Seq<String>) -> Seq<Seq<char>> {
    lines.map_values(|line: String| line@)
}

/// The envelopes of `envelopes`, each as the input that delivers it.
pub open spec fn deliveries(envelopes: Seq<EnvelopeView>) -> Seq<InputView> {
    envelopes.map_values(|envelope: EnvelopeView| InputView::Envelope(envelope))
}

/// The reports of the envelopes that report an event, in the order of the
/// envelopes.
pub open spec fn reports(envelopes: Seq<EnvelopeView>) -> Seq<Seq<char>> {
    envelopes.filter_map(|envelope: EnvelopeView| report_of(envelope))
}

/// The monitor: the state of the event loop.
#[derive(Clone, Copy, Debug, PartialEq, Eq)]
pub struct Monitor {
    phase: Phase,
}

impl View for Monitor {
    type V = Phase;

    closed spec fn view(&self) -> Phase {
        self.phase
    }
}

impl Monitor {
    /// A monitor whose socket is not bound yet.
    pub fn new() -> (monitor: Monitor)
        ensures
            monitor@ == Phase::Starting,
    {
        Monitor { phase: Phase::Starting }
    }

    /// Where the monitor stands.
    pub fn phase(&self) -> (phase: Phase)
        ensures
            phase == self@,
    {
        self.phase
    }

    /// The exit status of the process once the monitor has ended: zero after
    /// the sequence of envelopes ended, one after a failed start-up, none
    /// while the monitor runs.
    pub fn exit_status(&self) -> (status: Option<u8>)
        ensures
            self@ == Phase::Stopped ==> status == Some(0u8),
            self@ == Phase::Failed ==> status == Some(1u8),
            !is_terminal(self@) ==> status is None,
    {
        match self.phase {
            Phase::Stopped => Some(0),
            Phase::Failed => Some(1),
            _ => None,
        }
    }

    /// Handles one input: moves to the next phase and answers with what the
    /// driver is to do.
    pub fn step(&mut self, input: &Input) -> (command: Command)
        ensures
            final(self)@ == next_phase(old(self)@, input@),
            command@ == command_of(old(self)@, input@),
    {
        match self.phase {
            Phase::Starting => match input {
                Input::SocketFailed(reason) => {
                    self.phase = Phase::Failed;
                    Command::Abort(reason.clone())
                },
                Input::BindFailed(reason) => {
                    self.phase = Phase::Failed;
                    let mut message = String::from_str("failed to bind: ");
                    message.append(reason.as_str());
                    Command::Abort(message)
                },
                Input::Bound => {
                    self.phase = Phase::Listening;
                    Command::Skip
                },
                Input::Envelope(_) => Command::Skip,
                Input::EndOfStream => {
                    self.phase = Phase::Stopped;
                    Command::Exit
                },
            },
            Phase::Listening => match input {
                Input::Envelope(envelope) => match envelope.report() {
                    Some(line) => Command::Print(line),
                    None => Command::Skip,
                },
                Input::EndOfStream => {
                    self.phase = Phase::Stopped;
                    Command::Exit
                },
                _ => Command::Skip,
            },
            Phase::Stopped => Command::Skip,
            Phase::Failed => Command::Skip,
        }
    }

    /// Handles a recorded sequence of inputs, one after the other, and returns
    /// the lines that the driver would have written, in order.
    pub fn run(&mut self, inputs: &Vec<Input>) -> (lines: Vec<String>)
        ensures
            final(self)@ == phase_after(old(self)@, input_views(inputs@)),
            line_views(lines@) == transcript(old(self)@, input_views(inputs@)),
    {
        let mut lines: Vec<String> = Vec::new();
        let mut done: usize = 0;
        let ghost start = self@;
        let ghost all = input_views(inputs@);
        while done < inputs.len()
            invariant
                done <= inputs.len(),
                all == input_views(inputs@),
                self@ == phase_after(start, all.take(done as int)),
                line_views(lines@) == transcript(start, all.take(done as int)),
            decreases inputs.len() - done,
        {
            let command = self.step(&inputs[done]);
            assert(all.take(done as int + 1).drop_last() =~= all.take(done as int));
            if let Command::Print(line) = command {
                lines.push(line);
            }
            done = done + 1;
        }
        assert(all.take(done as int) =~= all);
        lines
    }
}

/// Inputs are handled strictly one after the other: what the monitor writes on
/// two runs of inputs is what it writes on the first, followed by what it
/// writes on the second from the phase that the first left it in.
pub proof fn law_transcript_of_concatenation(
    phase: Phase,
    first: Seq<InputView>,
    second: Seq<InputView>,
)
    ensures
        phase_after(phase, first + second) == phase_after(phase_after(phase, first), second),
        transcript(phase, first + second) == transcript(phase, first) + transcript(
            phase_after(phase, first),
            second,
        ),
    decreases second.len(),
{
    if second.len() > 0 {
        let all = first + second;
        assert(all.drop_last() =~= first + second.drop_last());
        law_transcript_of_concatenation(phase, first, second.drop_last());
    }
}

/// A listening monitor writes one line for each envelope that reports an
/// event and none for the others, in the order in which the envelopes arrive,
/// and keeps listening.
pub proof fn law_lines_follow_envelopes(envelopes: Seq<EnvelopeView>)
    ensures
        phase_after(Phase::Listening, deliveries(envelopes)) == Phase::Listening,
        transcript(Phase::Listening, deliveries(envelopes)) == reports(envelopes),
    decreases envelopes.len(),
{
    let inputs = deliveries(envelopes);
    if envelopes.len() > 0 {
        assert(inputs.drop_last() =~= deliveries(envelopes.drop_last()));
        law_lines_follow_envelopes(envelopes.drop_last());
    }
}

/// The monitor writes nothing unless it listens, and an envelope that reports
/// no event makes it write nothing in any phase.
pub proof fn law_silent_unless_listening(phase: Phase, input: InputView)
    ensures
        phase != Phase::Listening ==> printed(command_of(phase, input)).len() == 0,
        input matches InputView::Envelope(envelope) && report_of(envelope) is None
            ==> command_of(phase, input) == CommandView::Skip,
        !(input is Envelope) ==> printed(command_of(phase, input)).len() == 0,
{
}

/// Once the monitor has stopped or failed it stays there and writes nothing,
/// whatever it is told.
pub proof fn law_terminal_phase_is_final(phase: Phase, inputs: Seq<InputView>)
    requires
        is_terminal(phase),
    ensures
        phase_after(phase, inputs) == phase,
        transcript(phase, inputs).len() == 0,
    decreases inputs.len(),
{
    if inputs.len() > 0 {
        law_terminal_phase_is_final(phase, inputs.drop_last());
    }
}

/// A failed bind is fatal: the monitor answers with an abort whose message
/// opens with `failed to bind: ` and gives the reason, the process is to end
/// with a status that is not zero, and no later input is ever reported. A
/// socket that could not be made is fatal in the same way, with the reason as
/// the message.
pub proof fn law_failed_start_is_fatal(reason: Seq<char>, later: Seq<InputView>)
    ensures
        command_of(Phase::Starting, InputView::BindFailed(reason)) == CommandView::Abort(
            bind_failure_prefix() + reason,
        ),
        command_of(Phase::Starting, InputView::SocketFailed(reason)) == CommandView::Abort(reason),
        phase_after(Phase::Starting, seq![InputView::BindFailed(reason)] + later) == Phase::Failed,
        phase_after(Phase::Starting, seq![InputView::SocketFailed(reason)] + later)
            == Phase::Failed,
        transcript(Phase::Starting, seq![InputView::BindFailed(reason)] + later).len() == 0,
        transcript(Phase::Starting, seq![InputView::SocketFailed(reason)] + later).len() == 0,
{
    let bind = seq![InputView::BindFailed(reason)];
    let socket = seq![InputView::SocketFailed(reason)];
    assert(transcript(Phase::Starting, bind.drop_last()).len() == 0);
    assert(transcript(Phase::Starting, socket.drop_last()).len() == 0);
    law_transcript_of_concatenation(Phase::Starting, bind, later);
    law_transcript_of_concatenation(Phase::Starting, socket, later);
    law_terminal_phase_is_final(Phase::Failed, later);
}

/// Handling an envelope leaves no trace in a listening monitor: the same
/// envelope delivered again gets the same answer.
pub proof fn law_same_envelope_same_answer(envelope: EnvelopeView)
    ensures
        next_phase(Phase::Listening, InputView::Envelope(envelope)) == Phase::Listening,
        command_of(
            next_phase(Phase::Listening, InputView::Envelope(envelope)),
            InputView::Envelope(envelope),
        ) == command_of(Phase::Listening, InputView::Envelope(envelope)),
{
}

} // verus!
