//! The interactive loop's state and its reaction to each input event.
//!
//! `App` holds what the operator sees and edits. It never touches the
//! network: `handle_event` answers each event with a `Command` for the shell
//! to carry out, and `finish_send` takes the result of a send back in.

use crate::controller::Trigger;
use crate::focus::InputField;
use crate::keys::{decode, decoded, InputEvent, KeyStroke};
use crate::log::{after_appends, lemma_after_appends, Author, ChatEntry, Entry, MessageLog};
use crate::slot::{send_gate, SendFailure};
use vstd::prelude::*;

verus! {

/// The state of the interactive loop.
#[derive(Debug)]
pub struct App {
    running: bool,
    text_input_content: String,
    url_content: String,
    input_field: InputField,
    error_while_sending: bool,
}

/// The state of the interactive loop as a mathematical value.
pub struct AppView {
    /// The loop goes on.
    pub running: bool,
    /// The text of the message field.
    pub draft: Seq<char>,
    /// The text of the endpoint field.
    pub endpoint: Seq<char>,
    /// The field that has the focus.
    pub focus: InputField,
    /// The last send failed.
    pub send_failed: bool,
}

impl View for App {
    type V = AppView;

    closed spec fn view(&self) -> AppView {
        AppView {
            running: self.running,
            draft: self.text_input_content@,
            endpoint: self.url_content@,
            focus: self.input_field,
            send_failed: self.error_while_sending,
        }
    }
}

/// What the shell is to do after an event.
#[derive(Debug, PartialEq, Eq)]
pub enum Command {
    /// Nothing.
    Idle,
    /// Start a connect to `endpoint`, without waiting for it.
    Connect { endpoint: String, trigger: Trigger },
    /// Send `text` over the current connection and report the result with
    /// `App::finish_send`.
    Send { text: String },
}

/// A command as a mathematical value.
pub enum CommandView {
    Idle,
    Connect { endpoint: Seq<char>, trigger: Trigger },
    Send { text: Seq<char> },
}

impl View for Command {
    type V = CommandView;

    open spec fn view(&self) -> CommandView {
        match self {
            Command::Idle => CommandView::Idle,
            Command::Connect { endpoint, trigger } => CommandView::Connect {
                endpoint: endpoint@,
                trigger: *trigger,
            },
            Command::Send { text } => CommandView::Send { text: text@ },
        }
    }
}

/// A text field after Backspace: without its last character, or still empty.
pub open spec fn erased(text: Seq<char>) -> Seq<char> {
    if text.len() == 0 {
        text
    } else {
        text.drop_last()
    }
}

/// The state in which a session starts on `endpoint`.
pub open spec fn initial_state(endpoint: Seq<char>) -> AppView {
    AppView {
        running: true,
        draft: Seq::empty(),
        endpoint,
        focus: InputField::Message,
        send_failed: false,
    }
}

/// The command that opens a session: a connect to the endpoint, unless there
/// is none.
pub open spec fn opening_command(state: AppView) -> CommandView {
    if state.endpoint.len() == 0 {
        CommandView::Idle
    } else {
        CommandView::Connect { endpoint: state.endpoint, trigger: Trigger::Startup }
    }
}

/// The state after `event`.
pub open spec fn next_state(state: AppView, event: InputEvent) -> AppView {
    match event {
        InputEvent::Quit => AppView { running: false, ..state },
        InputEvent::Reconnect => state,
        InputEvent::Char(c) => match state.focus {
            InputField::Message => AppView { draft: state.draft.push(c), ..state },
            InputField::Url => AppView { endpoint: state.endpoint.push(c), ..state },
        },
        InputEvent::Backspace => match state.focus {
            InputField::Message => AppView { draft: erased(state.draft), ..state },
            InputField::Url => AppView { endpoint: erased(state.endpoint), ..state },
        },
        InputEvent::Submit => match state.focus {
            InputField::Message => state,
            InputField::Url => AppView {
                focus: InputField::Message,
                send_failed: false,
                ..state
            },
        },
        InputEvent::ToggleFocus => AppView { focus: state.focus.toggled(), ..state },
    }
}

/// Whether `event` makes the console connect anew: a reconnect does, and so
/// does submitting the endpoint field.
pub open spec fn reconnects(state: AppView, event: InputEvent) -> bool {
    event == InputEvent::Reconnect || (event == InputEvent::Submit && state.focus
        == InputField::Url)
}

/// The command that answers `event`.
pub open spec fn command_for(state: AppView, event: InputEvent) -> CommandView {
    if reconnects(state, event) {
        CommandView::Connect { endpoint: state.endpoint, trigger: Trigger::Reset }
    } else if event == InputEvent::Submit {
        CommandView::Send { text: state.draft }
    } else {
        CommandView::Idle
    }
}

/// The log after `event`: emptied by whatever connects anew, else untouched.
pub open spec fn next_log(log: Seq<Entry>, state: AppView, event: InputEvent) -> Seq<Entry> {
    if reconnects(state, event) {
        Seq::empty()
    } else {
        log
    }
}

/// The state after a send ended with `outcome`: the draft is gone either
/// way, and the failure flag says whether the send failed.
pub open spec fn state_after_send(state: AppView, outcome: Result<(), SendFailure>) -> AppView {
    AppView { draft: Seq::empty(), send_failed: outcome is Err, ..state }
}

/// The log after a send ended with `outcome`: a send that succeeded adds the
/// draft as an entry of the operator, one that failed adds nothing.
pub open spec fn log_after_send(
    log: Seq<Entry>,
    state: AppView,
    outcome: Result<(), SendFailure>,
) -> Seq<Entry> {
    if outcome is Ok {
        log.push(Entry { author: Author::Operator, content: state.draft })
    } else {
        log
    }
}

impl App {
    /// A session on `url`, with the message field focused and empty.
    pub fn new(url: String) -> (app: App)
        ensures
            app@ == initial_state(url@),
    {
        App {
            running: true,
            text_input_content: String::new(),
            url_content: url,
            input_field: InputField::Message,
            error_while_sending: false,
        }
    }

    /// Opens the session: marks the loop as running and asks for the first
    /// connect when an endpoint was given.
    pub fn run(&mut self) -> (command: Command)
        ensures
            final(self)@ == (AppView { running: true, ..old(self)@ }),
            command@ == opening_command(old(self)@),
    {
        self.running = true;
        if self.url_content.as_str().is_empty() {
            Command::Idle
        } else {
            Command::Connect { endpoint: self.url_content.clone(), trigger: Trigger::Startup }
        }
    }

    /// Ends the loop.
    pub fn quit(&mut self)
        ensures
            final(self)@ == (AppView { running: false, ..old(self)@ }),
    {
        self.running = false;
    }

    /// Whether the loop goes on.
    pub fn is_running(&self) -> (running: bool)
        ensures
            running == self@.running,
    {
        self.running
    }

    /// The field that has the focus.
    pub fn input_field(&self) -> (field: InputField)
        ensures
            field == self@.focus,
    {
        self.input_field
    }

    /// The text of the endpoint field.
    pub fn endpoint(&self) -> (text: &str)
        ensures
            text@ == self@.endpoint,
    {
        self.url_content.as_str()
    }

    /// The text of the message field.
    pub fn draft(&self) -> (text: &str)
        ensures
            text@ == self@.draft,
    {
        self.text_input_content.as_str()
    }

    /// Whether the last send failed.
    pub fn send_failed(&self) -> (failed: bool)
        ensures
            failed == self@.send_failed,
    {
        self.error_while_sending
    }

    /// Reacts to one input event.
    ///
    /// The state and the log change as `next_state` and `next_log` say, and
    /// the command is the one that `command_for` gives for the state before
    /// the event.
    pub fn handle_event(&mut self, log: &mut MessageLog, event: InputEvent) -> (command: Command)
        ensures
            final(self)@ == next_state(old(self)@, event),
            final(log)@ == next_log(old(log)@, old(self)@, event),
            command@ == command_for(old(self)@, event),
    {
        match event {
            InputEvent::Quit => {
                self.quit();
                Command::Idle
            },
            InputEvent::Reconnect => {
                log.clear();
                Command::Connect { endpoint: self.url_content.clone(), trigger: Trigger::Reset }
            },
            InputEvent::Char(c) => {
                match self.input_field {
                    InputField::Message => self.text_input_content.push(c),
                    InputField::Url => self.url_content.push(c),
                }
                Command::Idle
            },
            InputEvent::Submit => match self.input_field {
                InputField::Message => Command::Send { text: self.text_input_content.clone() },
                InputField::Url => {
                    self.error_while_sending = false;
                    self.input_field = InputField::Message;
                    log.clear();
                    Command::Connect {
                        endpoint: self.url_content.clone(),
                        trigger: Trigger::Reset,
                    }
                },
            },
            InputEvent::ToggleFocus => {
                self.input_field = self.input_field.other();
                Command::Idle
            },
            InputEvent::Backspace => {
                match self.input_field {
                    InputField::Message => {
                        self.text_input_content.pop();
                    },
                    InputField::Url => {
                        self.url_content.pop();
                    },
                }
                Command::Idle
            },
        }
    }

    /// Reacts to one key stroke: to the event it stands for, if it stands
    /// for one, and not at all otherwise.
    pub fn on_key_event(&mut self, log: &mut MessageLog, stroke: KeyStroke) -> (command: Command)
        ensures
            match decoded(stroke) {
                Some(event) => {
                    &&& final(self)@ == next_state(old(self)@, event)
                    &&& final(log)@ == next_log(old(log)@, old(self)@, event)
                    &&& command@ == command_for(old(self)@, event)
                },
                None => {
                    &&& final(self)@ == old(self)@
                    &&& final(log)@ == old(log)@
                    &&& command@ == CommandView::Idle
                },
            },
    {
        match decode(stroke) {
            Some(event) => self.handle_event(log, event),
            None => Command::Idle,
        }
    }

    /// Takes in the result of sending the draft.
    ///
    /// The text that was sent is the draft at the time of the `Send`
    /// command; the caller reports the result before it hands in the next
    /// event, so the draft here is still that text.
    ///
    /// A send that the transport confirmed puts the draft into the log as an
    /// entry of the operator and clears the failure flag. A send that
    /// failed, or found no connection, sets the flag and adds nothing. The
    /// draft is emptied in both cases.
    pub fn finish_send(&mut self, log: &mut MessageLog, outcome: Result<(), SendFailure>)
        ensures
            final(self)@ == state_after_send(old(self)@, outcome),
            final(log)@ == log_after_send(old(log)@, old(self)@, outcome),
    {
        match outcome {
            Ok(_) => {
                log.append(ChatEntry::operator(self.text_input_content.clone()));
                self.error_while_sending = false;
            },
            Err(_) => {
                self.error_while_sending = true;
            },
        }
        self.text_input_content.clear();
    }
}

/// A send without a connection reports `NotConnected`, adds no entry to the
/// log and raises the failure flag.
pub proof fn lemma_send_without_connection<H>(slot: Option<H>, state: AppView, log: Seq<Entry>)
    requires
        slot is None,
    ensures
        send_gate(slot) == Err::<H, SendFailure>(SendFailure::NotConnected),
        log_after_send(log, state, Err(SendFailure::NotConnected)) == log,
        state_after_send(state, Err(SendFailure::NotConnected)).send_failed,
{
}

/// No failed send adds an entry, whatever the failure.
pub proof fn lemma_failed_send_adds_nothing(
    state: AppView,
    log: Seq<Entry>,
    failure: SendFailure,
)
    ensures
        log_after_send(log, state, Err(failure)) == log,
        state_after_send(state, Err(failure)).send_failed,
{
}

/// A send that succeeded shows in the log as the last entry, written by the
/// operator and holding the text that was sent, after all entries that were
/// there before.
///
/// `state` is the state in which the message field was submitted and `log`
/// the log at that time; the text that was sent is the one that the `Send`
/// command carried.
pub proof fn lemma_sent_text_is_logged(state: AppView, log: Seq<Entry>)
    requires
        state.focus == InputField::Message,
    ensures
        ({
            let submitted = next_state(state, InputEvent::Submit);
            let pending = next_log(log, state, InputEvent::Submit);
            let shown = log_after_send(pending, submitted, Ok(()));
            &&& command_for(state, InputEvent::Submit) == CommandView::Send { text: state.draft }
            &&& shown.len() == log.len() + 1
            &&& shown.last() == Entry { author: Author::Operator, content: state.draft }
            &&& shown.subrange(0, log.len() as int) == log
            &&& !state_after_send(submitted, Ok(())).send_failed
        }),
{
    let submitted = next_state(state, InputEvent::Submit);
    let pending = next_log(log, state, InputEvent::Submit);
    let shown = log_after_send(pending, submitted, Ok(()));
    assert(shown.subrange(0, log.len() as int) =~= log);
}

/// Whatever connects anew leaves the log empty, and entries appended
/// afterwards are the only ones it then holds: nothing from before the
/// reconnect comes back.
pub proof fn lemma_reconnect_starts_empty_log(
    state: AppView,
    log: Seq<Entry>,
    event: InputEvent,
    arrivals: Seq<Entry>,
)
    requires
        reconnects(state, event),
    ensures
        next_log(log, state, event) == Seq::<Entry>::empty(),
        after_appends(next_log(log, state, event), arrivals) == arrivals,
        command_for(state, event) == (CommandView::Connect {
            endpoint: state.endpoint,
            trigger: Trigger::Reset,
        }),
{
    lemma_after_appends(next_log(log, state, event), arrivals);
    assert(Seq::<Entry>::empty() + arrivals =~= arrivals);
}

} // verus!
