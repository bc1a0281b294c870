//! The terminal state and its reaction to key events and log messages.

use vstd::prelude::*;
use crate::command::{report_of, Command};
use crate::command_dispatcher::{not_found, not_found_record, CommandDispatcher, Invocation};
use crate::draw::{prompt, prompt_line, ClearType, Draw, DrawView};
use crate::event::{KeyCode, KeyEvent, KeyEventKind, Polled};
use crate::log::{Level, Record, RecordView};
use crate::text::{blank, is_blank, lemma_blank_iff_no_words, split_whitespace, words};

verus! {

/// The state that the event loop, the renderer and the dispatcher share:
/// the line being typed, the least severity that is drawn, and the registry.
pub struct Terminal<F: Fn(Vec<String>) -> bool + Copy> {
    pub input: String,
    pub level: Level,
    pub dispatcher: CommandDispatcher<F>,
}

/// What the host does once it has drawn a reaction.
pub enum Next<F: Fn(Vec<String>) -> bool + Copy> {
    /// Wait for the next event.
    Continue,
    /// Restore the terminal's normal mode and end the process.
    Interrupt,
    /// Leave the event loop for good.
    Stop,
    /// Report that the entered line names no command.
    NotFound,
    /// Let go of the terminal state, then run the invocation.
    Run(Invocation<F>),
}

/// The terminal's answer to one event: what to draw, and what to do then.
pub struct Reaction<F: Fn(Vec<String>) -> bool + Copy> {
    pub draw: Vec<Draw>,
    pub next: Next<F>,
}

/// The mathematical value of a [`Next`].
pub ghost enum NextView<F: Fn(Vec<String>) -> bool + Copy> {
    Continue,
    Interrupt,
    Stop,
    NotFound,
    Run { command: Command<F>, args: Seq<Seq<char>> },
}

impl<F: Fn(Vec<String>) -> bool + Copy> Next<F> {
    /// The mathematical value of this step.
    pub open spec fn view(&self) -> NextView<F> {
        match *self {
            Next::Continue => NextView::Continue,
            Next::Interrupt => NextView::Interrupt,
            Next::Stop => NextView::Stop,
            Next::NotFound => NextView::NotFound,
            Next::Run(invocation) => NextView::Run {
                command: invocation.command,
                args: invocation.args.deep_view(),
            },
        }
    }
}

impl<F: Fn(Vec<String>) -> bool + Copy> Next<F> {
    /// Carries out what is left to do after an entered line, and returns
    /// the message to draw about it, if any: the not-found warning, or what
    /// the command reports once it has run. The host calls this with the
    /// terminal state let go of.
    pub fn settle(self) -> (record: Option<Record>)
        ensures
            match self {
                Next::NotFound => record.deep_view() == Some(not_found_record()),
                Next::Run(invocation) => exists|success: bool|
                    call_ensures(invocation.command.executor(), (invocation.args,), success)
                        && record.deep_view() == report_of(invocation.command.usage(), success),
                _ => record.is_none(),
            },
    {
        match self {
            Next::NotFound => Some(not_found()),
            Next::Run(invocation) => invocation.run(),
            _ => None,
        }
    }
}

/// Whether `event` is a press that the shell acts on as a key of the line
/// editor: any press but the interrupt combination.
pub open spec fn edits(event: KeyEvent) -> bool {
    event.kind == KeyEventKind::Press && !event.interrupts()
}

/// The input line after `event`, where it was `line` before.
pub open spec fn line_after(line: Seq<char>, event: KeyEvent) -> Seq<char> {
    if !edits(event) {
        line
    } else {
        match event.code {
            KeyCode::Backspace => if line.len() == 0 {
                line
            } else {
                line.drop_last()
            },
            KeyCode::Char(c) => line.push(c),
            KeyCode::Enter => if is_blank(line) {
                line
            } else {
                Seq::empty()
            },
            KeyCode::Other => line,
        }
    }
}

/// What is drawn in answer to `event`, where the input line was `line`.
pub open spec fn echo_of(line: Seq<char>, event: KeyEvent) -> Seq<DrawView> {
    if !edits(event) {
        Seq::empty()
    } else {
        match event.code {
            KeyCode::Backspace => if line.len() == 0 {
                Seq::empty()
            } else {
                seq![DrawView::MoveLeft(1), DrawView::Clear(ClearType::UntilNewLine)]
            },
            KeyCode::Char(c) => seq![DrawView::Print(seq![c])],
            KeyCode::Enter => seq![
                DrawView::Print("\n"@),
                DrawView::MoveToColumn(0),
                DrawView::Print(prompt()),
            ],
            KeyCode::Other => Seq::empty(),
        }
    }
}

/// Whether `event` completes the line `line`: a press of Enter on a line
/// that has a word in it.
pub open spec fn submits(line: Seq<char>, event: KeyEvent) -> bool {
    edits(event) && event.code == KeyCode::Enter && !is_blank(line)
}

/// What the host is to do after `event`, where the input line was `line` and
/// the registry held `table`.
pub open spec fn next_of<F: Fn(Vec<String>) -> bool + Copy>(
    line: Seq<char>,
    table: Map<Seq<char>, Command<F>>,
    event: KeyEvent,
) -> NextView<F> {
    if event.interrupts() {
        NextView::Interrupt
    } else if submits(line, event) {
        if table.contains_key(words(line)[0]) {
            NextView::Run { command: table[words(line)[0]], args: words(line).skip(1) }
        } else {
            NextView::NotFound
        }
    } else {
        NextView::Continue
    }
}

/// What is drawn when the event source fails on an event, where `failure`
/// describes what went wrong.
pub open spec fn failure_notice(failure: Seq<char>) -> Seq<DrawView> {
    seq![DrawView::Print("Error: "@ + failure + "\n\n"@)]
}

/// What is drawn for a message of severity `record.level` while the input
/// line is `line` and nothing less severe than `floor` is drawn.
pub open spec fn rendering(floor: Level, record: RecordView, line: Seq<char>) -> Seq<DrawView> {
    if record.level.reaches(floor) {
        seq![
            DrawView::MoveToColumn(0),
            DrawView::Clear(ClearType::CurrentLine),
            DrawView::SetForegroundColor(record.level.color()),
            DrawView::Print("["@ + record.level.name() + "] "@ + record.message),
            DrawView::ResetColor,
            DrawView::Print("\n"@),
            DrawView::MoveToColumn(0),
            DrawView::Print(prompt() + line),
        ]
    } else {
        Seq::empty()
    }
}

impl<F: Fn(Vec<String>) -> bool + Copy> Terminal<F> {
    /// A terminal with an empty input line and an empty registry, which
    /// draws messages of severity `level` and above.
    pub fn new(level: Level) -> (terminal: Self)
        ensures
            terminal.input@ == Seq::<char>::empty(),
            terminal.level == level,
            terminal.dispatcher@ == Map::<Seq<char>, Command<F>>::empty(),
    {
        Self { input: String::new(), level, dispatcher: CommandDispatcher::new() }
    }

    /// Takes the typed line out of the terminal, leaving the input line
    /// empty, and splits it into the command's name and its arguments.
    pub fn prepare_command(&mut self) -> (prepared: (String, Vec<String>))
        requires
            !is_blank(old(self).input@),
        ensures
            final(self).input@ == Seq::<char>::empty(),
            final(self).level == old(self).level,
            final(self).dispatcher == old(self).dispatcher,
            prepared.0@ == words(old(self).input@)[0],
            prepared.1.deep_view() == words(old(self).input@).skip(1),
    {
        let mut args = split_whitespace(self.input.as_str());
        self.input.clear();
        proof {
            lemma_blank_iff_no_words(old(self).input@);
        }
        let name = args.remove(0);
        (name, args)
    }

    /// Applies one key event to the terminal.
    ///
    /// Only presses count. The interrupt combination changes nothing and asks
    /// the host to end the process. Backspace takes the last character off
    /// the line, a character key appends its character, and Enter on a line
    /// with a word in it takes the line and looks its command up; any other
    /// key does nothing.
    pub fn handle_event(&mut self, event: KeyEvent) -> (reaction: Reaction<F>)
        ensures
            final(self).input@ == line_after(old(self).input@, event),
            final(self).level == old(self).level,
            final(self).dispatcher == old(self).dispatcher,
            reaction.draw.deep_view() == echo_of(old(self).input@, event),
            reaction.next@ == next_of(old(self).input@, old(self).dispatcher@, event),
    {
        if event.kind != KeyEventKind::Press {
            return Self::rest();
        }
        if event.is_interrupt() {
            return Reaction { draw: Vec::new(), next: Next::Interrupt };
        }
        match event.code {
            KeyCode::Backspace => {
                if self.input.as_str().is_empty() {
                    return Self::rest();
                }
                self.input.pop();
                Reaction {
                    draw: vec![Draw::MoveLeft(1), Draw::Clear(ClearType::UntilNewLine)],
                    next: Next::Continue,
                }
            },
            KeyCode::Char(c) => {
                self.input.push(c);
                let mut text = String::new();
                text.push(c);
                Reaction { draw: vec![Draw::Print(text)], next: Next::Continue }
            },
            KeyCode::Enter => {
                let draw = vec![
                    Draw::Print("\n".to_string()),
                    Draw::MoveToColumn(0),
                    prompt_line(""),
                ];
                proof {
                    reveal_strlit("");
                }
                if blank(self.input.as_str()) {
                    return Reaction { draw, next: Next::Continue };
                }
                let (name, args) = self.prepare_command();
                let next = match self.dispatcher.resolve(&name, args) {
                    Some(invocation) => Next::Run(invocation),
                    None => Next::NotFound,
                };
                Reaction { draw, next }
            },
            KeyCode::Other => Self::rest(),
        }
    }

    /// Applies what one poll of the event source gave.
    ///
    /// A key event is handled as [`Terminal::handle_event`] does. A failure
    /// of the source is drawn and the loop goes on; an event that is not of
    /// the keyboard is passed over; the end of the source ends the loop.
    pub fn listen(&mut self, polled: Polled) -> (reaction: Reaction<F>)
        ensures
            final(self).level == old(self).level,
            final(self).dispatcher == old(self).dispatcher,
            match polled {
                Polled::Key(event) => {
                    &&& final(self).input@ == line_after(old(self).input@, event)
                    &&& reaction.draw.deep_view() == echo_of(old(self).input@, event)
                    &&& reaction.next@ == next_of(old(self).input@, old(self).dispatcher@, event)
                },
                Polled::Other => {
                    &&& final(self).input@ == old(self).input@
                    &&& reaction.draw.deep_view() == Seq::<DrawView>::empty()
                    &&& reaction.next@ == NextView::<F>::Continue
                },
                Polled::Failed(failure) => {
                    &&& final(self).input@ == old(self).input@
                    &&& reaction.draw.deep_view() == failure_notice(failure@)
                    &&& reaction.next@ == NextView::<F>::Continue
                },
                Polled::Closed => {
                    &&& final(self).input@ == old(self).input@
                    &&& reaction.draw.deep_view() == Seq::<DrawView>::empty()
                    &&& reaction.next@ == NextView::<F>::Stop
                },
            },
    {
        match polled {
            Polled::Key(event) => self.handle_event(event),
            Polled::Other => Self::rest(),
            Polled::Failed(failure) => {
                let mut text = "Error: ".to_string();
                text.append(failure.as_str());
                text.append("\n\n");
                Reaction { draw: vec![Draw::Print(text)], next: Next::Continue }
            },
            Polled::Closed => Reaction { draw: Vec::new(), next: Next::Stop },
        }
    }

    /// The reaction to an event that changes nothing.
    fn rest() -> (reaction: Reaction<F>)
        ensures
            reaction.draw.deep_view() == Seq::<DrawView>::empty(),
            reaction.next@ == NextView::<F>::Continue,
    {
        Reaction { draw: Vec::new(), next: Next::Continue }
    }

    /// What to draw for `record`: nothing where it is less severe than the
    /// terminal's level, else the message on a line of its own, in the
    /// colour of its level, and below it the prompt with the line being
    /// typed.
    pub fn render(&self, record: &Record) -> (draw: Vec<Draw>)
        ensures
            draw.deep_view() == rendering(self.level, record@, self.input@),
    {
        if !record.level.at_least(self.level) {
            return Vec::new();
        }
        let mut message = "[".to_string();
        message.append(record.level.as_str());
        message.append("] ");
        message.append(record.message.as_str());
        vec![
            Draw::MoveToColumn(0),
            Draw::Clear(ClearType::CurrentLine),
            Draw::SetForegroundColor(record.level.paint()),
            Draw::Print(message),
            Draw::ResetColor,
            Draw::Print("\n".to_string()),
            Draw::MoveToColumn(0),
            prompt_line(self.input.as_str()),
        ]
    }
}

/// The input line after the key events `events` in order, where it was
/// `line` before.
pub open spec fn replay(line: Seq<char>, events: Seq<KeyEvent>) -> Seq<char>
    decreases events.len(),
{
    if events.len() == 0 {
        line
    } else {
        line_after(replay(line, events.drop_last()), events.last())
    }
}

/// One step of a run in which key events and the drawing of messages
/// interleave.
pub ghost enum Step {
    Key(KeyEvent),
    Render(RecordView),
}

/// The input line after one step. Drawing a message reads the line and
/// leaves it as it is.
pub open spec fn line_after_step(line: Seq<char>, step: Step) -> Seq<char> {
    match step {
        Step::Key(event) => line_after(line, event),
        Step::Render(_) => line,
    }
}

/// The input line after the steps `steps` in order.
pub open spec fn replay_steps(line: Seq<char>, steps: Seq<Step>) -> Seq<char>
    decreases steps.len(),
{
    if steps.len() == 0 {
        line
    } else {
        line_after_step(replay_steps(line, steps.drop_last()), steps.last())
    }
}

/// The key events among `steps`, in their order.
pub open spec fn keys_of(steps: Seq<Step>) -> Seq<KeyEvent>
    decreases steps.len(),
{
    if steps.len() == 0 {
        Seq::empty()
    } else {
        match steps.last() {
            Step::Key(event) => keys_of(steps.drop_last()).push(event),
            Step::Render(_) => keys_of(steps.drop_last()),
        }
    }
}

/// Typing appends: after presses of character keys, none of them the
/// interrupt combination, the line is what it was followed by the typed
/// characters in order.
pub proof fn lemma_typing_appends(line: Seq<char>, events: Seq<KeyEvent>, typed: Seq<char>)
    requires
        events.len() == typed.len(),
        forall|i: int| 0 <= i < events.len() ==> (#[trigger] events[i]).types(typed[i]),
    ensures
        replay(line, events) == line + typed,
    decreases events.len(),
{
    if events.len() == 0 {
        assert(line + typed =~= line);
    } else {
        lemma_typing_appends(line, events.drop_last(), typed.drop_last());
        assert(events.last().types(typed.last()));
        assert((line + typed.drop_last()).push(typed.last()) =~= line + typed);
    }
}

/// Backspace removes exactly the last character of a line that has one,
/// and on an empty line changes nothing and draws nothing.
pub proof fn lemma_backspace(line: Seq<char>, event: KeyEvent)
    requires
        edits(event),
        event.code == KeyCode::Backspace,
    ensures
        line.len() > 0 ==> line_after(line, event) == line.drop_last(),
        line.len() == 0 ==> line_after(line, event) == line && echo_of(line, event)
            == Seq::<DrawView>::empty(),
{
}

/// Enter on a line without a word in it dispatches nothing and leaves the
/// line as it is.
pub proof fn lemma_enter_on_blank<F: Fn(Vec<String>) -> bool + Copy>(
    line: Seq<char>,
    table: Map<Seq<char>, Command<F>>,
    event: KeyEvent,
)
    requires
        edits(event),
        event.code == KeyCode::Enter,
        is_blank(line),
    ensures
        line_after(line, event) == line,
        next_of(line, table, event) == NextView::<F>::Continue,
{
}

/// Drawing messages between key events does not touch the line: after any
/// interleaving, the line is what the key events alone make of it.
pub proof fn lemma_rendering_keeps_line(line: Seq<char>, steps: Seq<Step>)
    ensures
        replay_steps(line, steps) == replay(line, keys_of(steps)),
    decreases steps.len(),
{
    if steps.len() > 0 {
        lemma_rendering_keeps_line(line, steps.drop_last());
        match steps.last() {
            Step::Key(event) => {
                let keys = keys_of(steps.drop_last()).push(event);
                assert(keys.drop_last() =~= keys_of(steps.drop_last()));
            },
            Step::Render(_) => {},
        }
    }
}

/// The key events of the first `k` steps are the first of all the key
/// events.
proof fn lemma_keys_of_prefix(steps: Seq<Step>, k: int)
    requires
        0 <= k <= steps.len(),
    ensures
        keys_of(steps.take(k)).len() <= keys_of(steps).len(),
        keys_of(steps.take(k)) == keys_of(steps).take(keys_of(steps.take(k)).len() as int),
    decreases steps.len(),
{
    if k == steps.len() {
        assert(steps.take(k) =~= steps);
        assert(keys_of(steps).take(keys_of(steps).len() as int) =~= keys_of(steps));
    } else {
        lemma_keys_of_prefix(steps.drop_last(), k);
        assert(steps.drop_last().take(k) =~= steps.take(k));
        let before = keys_of(steps.drop_last());
        let n = keys_of(steps.take(k)).len() as int;
        match steps.last() {
            Step::Key(event) => {
                assert(before.push(event).take(n) =~= before.take(n));
            },
            Step::Render(_) => {},
        }
    }
}

/// No torn line: at every moment of a run in which key events and the
/// drawing of messages interleave, the line is what the first `n` of the
/// run's key events make of it, for an `n` from nought to their number.
pub proof fn lemma_line_is_never_torn(line: Seq<char>, steps: Seq<Step>, k: int)
    requires
        0 <= k <= steps.len(),
    ensures
        exists|n: int|
            0 <= n <= keys_of(steps).len() && replay_steps(line, steps.take(k)) == replay(
                line,
                #[trigger] keys_of(steps).take(n),
            ),
{
    lemma_rendering_keeps_line(line, steps.take(k));
    lemma_keys_of_prefix(steps, k);
    let n = keys_of(steps.take(k)).len() as int;
    assert(replay_steps(line, steps.take(k)) == replay(line, keys_of(steps).take(n)));
}

} // verus!
