use line_shell::command::Command;
use line_shell::draw::{ClearType, Color, Draw};
use line_shell::event::{KeyCode, KeyEvent, KeyEventKind, KeyModifiers, Polled};
use line_shell::log::{Level, LevelFilter, Logger, Record};
use line_shell::terminal::{Next, Terminal};
use std::cell::RefCell;

type Plain = fn(Vec<String>) -> bool;

const NONE: KeyModifiers = KeyModifiers {
    shift: false,
    control: false,
    alt: false,
    super_key: false,
    hyper: false,
    meta: false,
};

const CONTROL: KeyModifiers = KeyModifiers {
    shift: false,
    control: true,
    alt: false,
    super_key: false,
    hyper: false,
    meta: false,
};

fn press(code: KeyCode) -> KeyEvent {
    KeyEvent { code, modifiers: NONE, kind: KeyEventKind::Press }
}

fn succeed(_args: Vec<String>) -> bool {
    true
}

fn fail(_args: Vec<String>) -> bool {
    false
}

fn print(text: &str) -> Draw {
    Draw::Print(text.to_string())
}

fn warning(message: &str) -> Record {
    Record { level: Level::Warn, message: message.to_string() }
}

fn new_line() -> Vec<Draw> {
    vec![print("\n"), Draw::MoveToColumn(0), print("> ")]
}

fn type_text(terminal: &mut Terminal<Plain>, text: &str) {
    for c in text.chars() {
        terminal.handle_event(press(KeyCode::Char(c)));
    }
}

fn shell() -> Terminal<Plain> {
    let mut terminal: Terminal<Plain> = Terminal::new(Level::Info);
    terminal.dispatcher.add_command(Command::new(
        "foo".to_string(),
        None,
        Some("Usage: foo <x>".to_string()),
        fail,
    ));
    terminal.dispatcher.add_command(Command::new("ok".to_string(), None, None, succeed));
    terminal
}

#[test]
fn new_terminal_is_empty() {
    let terminal: Terminal<Plain> = Terminal::new(Level::Warn);
    assert_eq!(terminal.input, "");
    assert_eq!(terminal.level, Level::Warn);
    assert!(terminal.dispatcher.get_command_names().is_empty());
}

#[test]
fn typing_appends_the_characters_in_order() {
    let mut terminal = shell();
    let typed = "help me, \u{e9}\u{4e16}!";
    for (i, c) in typed.chars().enumerate() {
        let reaction = terminal.handle_event(press(KeyCode::Char(c)));
        assert_eq!(reaction.draw, vec![Draw::Print(c.to_string())]);
        assert!(matches!(reaction.next, Next::Continue));
        let so_far: String = typed.chars().take(i + 1).collect();
        assert_eq!(terminal.input, so_far);
    }
    assert_eq!(terminal.input, typed);
}

#[test]
fn typing_with_modifiers_still_types() {
    let mut terminal = shell();
    let shifted = KeyModifiers { shift: true, ..NONE };
    terminal.handle_event(KeyEvent {
        code: KeyCode::Char('A'),
        modifiers: shifted,
        kind: KeyEventKind::Press,
    });
    terminal.handle_event(KeyEvent {
        code: KeyCode::Char('a'),
        modifiers: CONTROL,
        kind: KeyEventKind::Press,
    });
    let both = KeyModifiers { shift: true, ..CONTROL };
    terminal.handle_event(KeyEvent {
        code: KeyCode::Char('c'),
        modifiers: both,
        kind: KeyEventKind::Press,
    });
    assert_eq!(terminal.input, "Aac");
}

#[test]
fn backspace_removes_the_last_character() {
    let mut terminal = shell();
    type_text(&mut terminal, "ab\u{e9}");
    let reaction = terminal.handle_event(press(KeyCode::Backspace));
    assert_eq!(terminal.input, "ab");
    assert_eq!(reaction.draw, vec![Draw::MoveLeft(1), Draw::Clear(ClearType::UntilNewLine)]);
    assert!(matches!(reaction.next, Next::Continue));
    terminal.handle_event(press(KeyCode::Backspace));
    assert_eq!(terminal.input, "a");
    terminal.handle_event(press(KeyCode::Backspace));
    assert_eq!(terminal.input, "");
}

#[test]
fn backspace_on_an_empty_line_does_nothing() {
    let mut terminal = shell();
    let reaction = terminal.handle_event(press(KeyCode::Backspace));
    assert_eq!(terminal.input, "");
    assert_eq!(reaction.draw, Vec::<Draw>::new());
    assert!(matches!(reaction.next, Next::Continue));
}

#[test]
fn only_presses_count() {
    let mut terminal = shell();
    type_text(&mut terminal, "ok");
    for kind in [KeyEventKind::Repeat, KeyEventKind::Release] {
        for code in [KeyCode::Char('x'), KeyCode::Backspace, KeyCode::Enter, KeyCode::Other] {
            let reaction = terminal.handle_event(KeyEvent { code, modifiers: NONE, kind });
            assert_eq!(reaction.draw, Vec::<Draw>::new());
            assert!(matches!(reaction.next, Next::Continue));
            assert_eq!(terminal.input, "ok");
        }
        let reaction =
            terminal.handle_event(KeyEvent { code: KeyCode::Char('c'), modifiers: CONTROL, kind });
        assert!(matches!(reaction.next, Next::Continue));
        assert_eq!(terminal.input, "ok");
    }
}

#[test]
fn other_keys_do_nothing() {
    let mut terminal = shell();
    type_text(&mut terminal, "ok");
    let reaction = terminal.handle_event(press(KeyCode::Other));
    assert_eq!(reaction.draw, Vec::<Draw>::new());
    assert!(matches!(reaction.next, Next::Continue));
    assert_eq!(terminal.input, "ok");
}

#[test]
fn control_c_interrupts() {
    let mut terminal = shell();
    type_text(&mut terminal, "fo");
    let event = KeyEvent { code: KeyCode::Char('c'), modifiers: CONTROL, kind: KeyEventKind::Press };
    assert!(event.is_interrupt());
    let reaction = terminal.handle_event(event);
    assert!(matches!(reaction.next, Next::Interrupt));
    assert_eq!(reaction.draw, Vec::<Draw>::new());
    assert_eq!(terminal.input, "fo");
    assert!(!press(KeyCode::Char('c')).is_interrupt());
    assert!(!KeyEvent { code: KeyCode::Char('d'), modifiers: CONTROL, kind: KeyEventKind::Press }
        .is_interrupt());
    assert!(!KeyEvent { code: KeyCode::Char('c'), modifiers: CONTROL, kind: KeyEventKind::Release }
        .is_interrupt());
    assert!(CONTROL.only_control());
    assert!(!NONE.only_control());
    assert!(!KeyModifiers { alt: true, ..CONTROL }.only_control());
}

#[test]
fn enter_on_an_empty_line_dispatches_nothing() {
    let mut terminal = shell();
    let reaction = terminal.handle_event(press(KeyCode::Enter));
    assert_eq!(reaction.draw, new_line());
    assert!(matches!(reaction.next, Next::Continue));
    assert_eq!(reaction.next.settle(), None);
    assert_eq!(terminal.input, "");
    assert_eq!(terminal.dispatcher.get_command_names().len(), 2);
}

#[test]
fn enter_on_a_blank_line_dispatches_nothing() {
    let mut terminal = shell();
    type_text(&mut terminal, " \t ");
    let reaction = terminal.handle_event(press(KeyCode::Enter));
    assert_eq!(reaction.draw, new_line());
    assert!(matches!(reaction.next, Next::Continue));
    assert_eq!(terminal.input, " \t ");
    assert_eq!(terminal.level, Level::Info);
    assert_eq!(terminal.dispatcher.get_command_names().len(), 2);
}

#[test]
fn enter_takes_the_line_and_finds_the_command() {
    let mut terminal = shell();
    type_text(&mut terminal, "foo a b");
    let reaction = terminal.handle_event(press(KeyCode::Enter));
    assert_eq!(reaction.draw, new_line());
    assert_eq!(terminal.input, "");
    match reaction.next {
        Next::Run(invocation) => {
            assert_eq!(invocation.command.get_name(), "foo");
            assert_eq!(invocation.args, vec!["a".to_string(), "b".to_string()]);
            assert_eq!(invocation.run(), Some(warning("Usage: foo <x>")));
        }
        _ => panic!("the line names a command"),
    }
}

#[test]
fn enter_on_an_unknown_command_reports_not_found() {
    let mut terminal = shell();
    type_text(&mut terminal, "bar a");
    let reaction = terminal.handle_event(press(KeyCode::Enter));
    assert_eq!(terminal.input, "");
    assert!(matches!(reaction.next, Next::NotFound));
    assert_eq!(reaction.next.settle(), Some(warning("Command not found!")));
    assert_eq!(terminal.dispatcher.get_command_names().len(), 2);
}

#[test]
fn settle_runs_the_command_once() {
    let calls: RefCell<Vec<Vec<String>>> = RefCell::new(Vec::new());
    let mut terminal = Terminal::new(Level::Info);
    terminal.dispatcher.add_command(Command::new(
        "foo".to_string(),
        None,
        Some("Usage: foo <x>".to_string()),
        |args: Vec<String>| {
            calls.borrow_mut().push(args);
            false
        },
    ));
    for c in " foo  a b ".chars() {
        terminal.handle_event(press(KeyCode::Char(c)));
    }
    let reaction = terminal.handle_event(press(KeyCode::Enter));
    assert!(calls.borrow().is_empty());
    assert_eq!(reaction.next.settle(), Some(warning("Usage: foo <x>")));
    assert_eq!(*calls.borrow(), vec![vec!["a".to_string(), "b".to_string()]]);
}

#[test]
fn settle_of_the_other_steps_is_silent() {
    assert_eq!(Next::<Plain>::Continue.settle(), None);
    assert_eq!(Next::<Plain>::Interrupt.settle(), None);
    assert_eq!(Next::<Plain>::Stop.settle(), None);
}

#[test]
fn prepare_command_splits_and_clears() {
    let mut terminal = shell();
    type_text(&mut terminal, "  foo  a\tb ");
    let (name, args) = terminal.prepare_command();
    assert_eq!(name, "foo");
    assert_eq!(args, vec!["a".to_string(), "b".to_string()]);
    assert_eq!(terminal.input, "");
    type_text(&mut terminal, "ok");
    let (name, args) = terminal.prepare_command();
    assert_eq!(name, "ok");
    assert_eq!(args, Vec::<String>::new());
}

#[test]
fn listen_handles_keys() {
    let mut terminal = shell();
    let reaction = terminal.listen(Polled::Key(press(KeyCode::Char('x'))));
    assert_eq!(reaction.draw, vec![print("x")]);
    assert!(matches!(reaction.next, Next::Continue));
    assert_eq!(terminal.input, "x");
}

#[test]
fn listen_passes_over_other_events() {
    let mut terminal = shell();
    type_text(&mut terminal, "x");
    let reaction = terminal.listen(Polled::Other);
    assert_eq!(reaction.draw, Vec::<Draw>::new());
    assert!(matches!(reaction.next, Next::Continue));
    assert_eq!(terminal.input, "x");
}

#[test]
fn listen_draws_a_failure_and_goes_on() {
    let mut terminal = shell();
    type_text(&mut terminal, "x");
    let reaction = terminal.listen(Polled::Failed("Kind(TimedOut)".to_string()));
    assert_eq!(reaction.draw, vec![print("Error: Kind(TimedOut)\n\n")]);
    assert!(matches!(reaction.next, Next::Continue));
    assert_eq!(terminal.input, "x");
}

#[test]
fn listen_stops_at_the_end_of_the_source() {
    let mut terminal = shell();
    type_text(&mut terminal, "x");
    let reaction = terminal.listen(Polled::Closed);
    assert_eq!(reaction.draw, Vec::<Draw>::new());
    assert!(matches!(reaction.next, Next::Stop));
    assert_eq!(terminal.input, "x");
}

#[test]
fn render_draws_the_message_and_restores_the_line() {
    let mut terminal = shell();
    type_text(&mut terminal, "fo");
    let draw = terminal.render(&warning("disk is full"));
    assert_eq!(
        draw,
        vec![
            Draw::MoveToColumn(0),
            Draw::Clear(ClearType::CurrentLine),
            Draw::SetForegroundColor(Color::Yellow),
            print("[WARN] disk is full"),
            Draw::ResetColor,
            print("\n"),
            Draw::MoveToColumn(0),
            print("> fo"),
        ]
    );
    assert_eq!(terminal.input, "fo");
}

#[test]
fn render_colours_by_level() {
    let terminal: Terminal<Plain> = Terminal::new(Level::Trace);
    let cases = [
        (Level::Error, Color::Red, "[ERROR] m"),
        (Level::Warn, Color::Yellow, "[WARN] m"),
        (Level::Info, Color::Reset, "[INFO] m"),
        (Level::Debug, Color::Reset, "[DEBUG] m"),
        (Level::Trace, Color::Reset, "[TRACE] m"),
    ];
    for (level, color, text) in cases {
        let draw = terminal.render(&Record { level, message: "m".to_string() });
        assert_eq!(draw.len(), 8);
        assert_eq!(draw[2], Draw::SetForegroundColor(color));
        assert_eq!(draw[3], print(text));
        assert_eq!(draw[7], print("> "));
    }
}

#[test]
fn render_drops_what_is_below_the_level() {
    let mut terminal = shell();
    type_text(&mut terminal, "fo");
    assert_eq!(
        terminal.render(&Record { level: Level::Debug, message: "m".to_string() }),
        Vec::<Draw>::new()
    );
    assert_eq!(
        terminal.render(&Record { level: Level::Trace, message: "m".to_string() }),
        Vec::<Draw>::new()
    );
    assert_eq!(terminal.render(&Record { level: Level::Info, message: "m".to_string() }).len(), 8);
    terminal.level = Level::Error;
    assert_eq!(terminal.render(&warning("m")), Vec::<Draw>::new());
    assert_eq!(terminal.render(&Record { level: Level::Error, message: "m".to_string() }).len(), 8);
}

#[test]
fn log_draws_what_the_filter_admits() {
    let mut terminal = shell();
    type_text(&mut terminal, "ok");
    let logger = Logger::new(LevelFilter::Warn);
    assert_eq!(logger.log(&warning("w"), &terminal), terminal.render(&warning("w")));
    assert_eq!(logger.log(&warning("w"), &terminal).len(), 8);
    let info = Record { level: Level::Info, message: "i".to_string() };
    assert_eq!(terminal.render(&info).len(), 8);
    assert_eq!(logger.log(&info, &terminal), Vec::<Draw>::new());
    let off = Logger::new(LevelFilter::Off);
    let error = Record { level: Level::Error, message: "e".to_string() };
    assert_eq!(off.log(&error, &terminal), Vec::<Draw>::new());
    let all = Logger::new(LevelFilter::Trace);
    let debug = Record { level: Level::Debug, message: "d".to_string() };
    assert_eq!(all.log(&debug, &terminal), Vec::<Draw>::new());
    terminal.level = Level::Trace;
    assert_eq!(all.log(&debug, &terminal).len(), 8);
}

#[test]
fn rendering_between_keys_shows_a_prefix_and_leaves_the_line() {
    let mut terminal = shell();
    let logger = Logger::new(LevelFilter::Trace);
    let typed = "foo a";
    let mut so_far = String::new();
    for c in typed.chars() {
        let draw = logger.log(&warning("busy"), &terminal);
        assert_eq!(draw[7], Draw::Print(format!("> {}", so_far)));
        assert_eq!(terminal.input, so_far);
        terminal.handle_event(press(KeyCode::Char(c)));
        so_far.push(c);
        let draw = terminal.render(&Record { level: Level::Error, message: "e".to_string() });
        assert_eq!(draw[7], Draw::Print(format!("> {}", so_far)));
        assert_eq!(terminal.input, so_far);
    }
    terminal.handle_event(press(KeyCode::Enter));
    let draw = logger.log(&warning("done"), &terminal);
    assert_eq!(draw[7], print("> "));
}

#[test]
fn prompt_line_puts_the_prompt_before_the_line() {
    assert_eq!(line_shell::draw::prompt_line(""), print("> "));
    assert_eq!(line_shell::draw::prompt_line("foo a"), print("> foo a"));
}
