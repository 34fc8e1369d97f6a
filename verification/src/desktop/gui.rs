//! What the graphical interface decides: how the program is launched, what
//! its wizard dialog sends to the engine, and what the chat box logs.

use vstd::prelude::*;
use crate::engine::event_bus::{AppEvent, AppEventView};
use crate::text::same_text;

verus! {

/// What the program does after it read its command line.
#[derive(Clone, Copy, Debug, PartialEq, Eq, Structural)]
pub enum Launch {
    /// Run the graphical interface.
    Gui,
    /// Say that the text interface is not available from this program, and
    /// fail.
    TuiUnavailable,
    /// Say how the program is used, and fail.
    Usage,
}

/// What the program does, given whether the graphical interface was asked
/// for, whether the text interface was, and whether there is a display: a
/// request decides, the graphical one first; without any request the display
/// does.
pub open spec fn launch_for(gui: bool, tui: bool, graphical: bool) -> Launch {
    if gui {
        Launch::Gui
    } else if tui {
        Launch::TuiUnavailable
    } else if graphical {
        Launch::Gui
    } else {
        Launch::Usage
    }
}

/// What the program does after it read its command line.
pub fn launch(gui: bool, tui: bool, graphical: bool) -> (decision: Launch)
    ensures
        decision == launch_for(gui, tui, graphical),
{
    if gui {
        Launch::Gui
    } else if tui {
        Launch::TuiUnavailable
    } else if graphical {
        Launch::Gui
    } else {
        Launch::Usage
    }
}

/// How many pages the wizard dialog has.
pub const WIZARD_PAGES: usize = 5;

/// The heading of a page of the wizard dialog.
pub open spec fn page_title(page: nat) -> Seq<char> {
    if page == 0 {
        "Welcome"@
    } else if page == 1 {
        "GPU Configuration"@
    } else if page == 2 {
        "Theme Selection"@
    } else if page == 3 {
        "Voice Setup"@
    } else {
        "Complete"@
    }
}

/// The explanation on a page of the wizard dialog.
pub open spec fn page_description(page: nat) -> Seq<char> {
    if page == 0 {
        "Welcome to ZenTerm Birthday MVP! This wizard will help configure the app."@
    } else if page == 1 {
        "Select a GPU limit to help manage resources."@
    } else if page == 2 {
        "Pick a theme: dark or light."@
    } else if page == 3 {
        "Enable or disable the voice mock engine."@
    } else {
        "Setup complete. Save settings to finish."@
    }
}

/// The page that is shown for a step: the step itself, the last page for
/// every step beyond it.
pub open spec fn shown_page(step: usize) -> nat {
    if step < WIZARD_PAGES {
        step as nat
    } else {
        (WIZARD_PAGES - 1) as nat
    }
}

/// What the wizard dialog holds: the step it is at and the choices made on
/// its pages.
#[derive(Clone, Copy, Debug, PartialEq, Eq, Structural)]
pub struct WizardForm {
    pub step: usize,
    pub gpu_limit: u8,
    pub theme_dark: bool,
    pub voice_enabled: bool,
}

/// The dialog as it opens: at its first page, with a quarter of the GPU, the
/// dark theme and no voice recognition chosen.
pub open spec fn initial_form() -> WizardForm {
    WizardForm { step: 0, gpu_limit: 25, theme_dark: true, voice_enabled: false }
}

/// What going on from a page sends to the engine: the choice made on it.
pub open spec fn page_event(form: WizardForm) -> Option<AppEventView> {
    if form.step == 1 {
        Some(AppEventView::GpuLimitChanged(form.gpu_limit))
    } else if form.step == 2 {
        Some(AppEventView::ThemeToggled(form.theme_dark))
    } else if form.step == 3 {
        Some(AppEventView::VoiceToggled(form.voice_enabled))
    } else {
        None
    }
}

/// The dialog after going on: one step further, unless it is at its last
/// page.
pub open spec fn after_next(form: WizardForm) -> WizardForm {
    if form.step + 1 < WIZARD_PAGES {
        WizardForm { step: (form.step + 1) as usize, ..form }
    } else {
        form
    }
}

/// What going on sends to the engine.
pub open spec fn next_event(form: WizardForm) -> Option<AppEventView> {
    if form.step + 1 < WIZARD_PAGES {
        page_event(form)
    } else {
        None
    }
}

/// The value of an optional event.
pub open spec fn event_view(event: Option<AppEvent>) -> Option<AppEventView> {
    match event {
        Some(e) => Some(e@),
        None => None,
    }
}

/// The values of a sequence of events.
pub open spec fn event_views(events: Seq<AppEvent>) -> Seq<AppEventView> {
    Seq::new(events.len(), |i: int| events[i]@)
}

impl WizardForm {
    /// The dialog as it opens.
    pub fn new() -> (form: Self)
        ensures
            form == initial_form(),
    {
        WizardForm { step: 0, gpu_limit: 25, theme_dark: true, voice_enabled: false }
    }

    /// The page that is shown, counted from zero.
    pub fn page(&self) -> (page: usize)
        ensures
            page == shown_page(self.step),
            page < WIZARD_PAGES,
    {
        if self.step < WIZARD_PAGES {
            self.step
        } else {
            WIZARD_PAGES - 1
        }
    }

    /// The heading of the page that is shown.
    pub fn title(&self) -> (title: &'static str)
        ensures
            title@ == page_title(shown_page(self.step)),
    {
        let page = self.page();
        if page == 0 {
            "Welcome"
        } else if page == 1 {
            "GPU Configuration"
        } else if page == 2 {
            "Theme Selection"
        } else if page == 3 {
            "Voice Setup"
        } else {
            "Complete"
        }
    }

    /// The explanation on the page that is shown.
    pub fn description(&self) -> (description: &'static str)
        ensures
            description@ == page_description(shown_page(self.step)),
    {
        let page = self.page();
        if page == 0 {
            "Welcome to ZenTerm Birthday MVP! This wizard will help configure the app."
        } else if page == 1 {
            "Select a GPU limit to help manage resources."
        } else if page == 2 {
            "Pick a theme: dark or light."
        } else if page == 3 {
            "Enable or disable the voice mock engine."
        } else {
            "Setup complete. Save settings to finish."
        }
    }

    /// Whether the dialog offers to go back.
    pub fn can_go_back(&self) -> (possible: bool)
        ensures
            possible == (self.step > 0),
    {
        self.step > 0
    }

    /// Whether the dialog offers to go on; at its last page it offers to
    /// finish instead.
    pub fn can_go_next(&self) -> (possible: bool)
        ensures
            possible == (self.step + 1 < WIZARD_PAGES),
    {
        self.step < WIZARD_PAGES - 1
    }

    /// Goes back one step, if there is one.
    pub fn back(&mut self)
        ensures
            *final(self) == (WizardForm {
                step: if old(self).step > 0 {
                    (old(self).step - 1) as usize
                } else {
                    0
                },
                ..*old(self)
            }),
    {
        self.step = self.step.saturating_sub(1);
    }

    /// Goes on one step and returns what has to be sent to the engine: the
    /// choice made on the page that is left, if it holds one. At the last
    /// page nothing happens.
    pub fn next(&mut self) -> (event: Option<AppEvent>)
        ensures
            *final(self) == after_next(*old(self)),
            event_view(event) == next_event(*old(self)),
    {
        if !self.can_go_next() {
            return None;
        }
        let event = if self.step == 1 {
            Some(AppEvent::GpuLimitChanged(self.gpu_limit))
        } else if self.step == 2 {
            Some(AppEvent::ThemeToggled(self.theme_dark))
        } else if self.step == 3 {
            Some(AppEvent::VoiceToggled(self.voice_enabled))
        } else {
            None
        };
        self.step = self.step + 1;
        event
    }

    /// Finishes the dialog at its last page and returns what has to be sent
    /// to the engine: a request to save the settings, then the closing of the
    /// wizard.
    pub fn finish(&mut self) -> (events: Vec<AppEvent>)
        ensures
            *final(self) == (WizardForm { step: (WIZARD_PAGES - 1) as usize, ..*old(self) }),
            event_views(events@) == seq![
                AppEventView::ConfigSaveRequested,
                AppEventView::WizardClosed,
            ],
    {
        self.step = WIZARD_PAGES - 1;
        let mut events: Vec<AppEvent> = Vec::new();
        events.push(AppEvent::ConfigSaveRequested);
        events.push(AppEvent::WizardClosed);
        assert(event_views(events@) =~= seq![
            AppEventView::ConfigSaveRequested,
            AppEventView::WizardClosed,
        ]);
        events
    }
}

/// Which way the voice button switches for the status that is shown: on
/// where it shows `OFF`, off otherwise.
pub fn voice_toggle_target(status: &str) -> (enable: bool)
    ensures
        enable == (status@ == "OFF"@),
{
    same_text(status, "OFF")
}

/// Whether `c` is white space: one of the code points that Unicode gives the
/// property `White_Space`.
pub open spec fn is_white_space(c: char) -> bool {
    let code = c as u32;
    ||| 0x09 <= code <= 0x0D
    ||| code == 0x20
    ||| code == 0x85
    ||| code == 0xA0
    ||| code == 0x1680
    ||| 0x2000 <= code <= 0x200A
    ||| code == 0x2028
    ||| code == 0x2029
    ||| code == 0x202F
    ||| code == 0x205F
    ||| code == 0x3000
}

/// A text without the white space at its beginning.
pub open spec fn without_leading_space(text: Seq<char>) -> Seq<char>
    decreases text.len(),
{
    if text.len() > 0 && is_white_space(text[0]) {
        without_leading_space(text.drop_first())
    } else {
        text
    }
}

/// A text without the white space at its end.
pub open spec fn without_trailing_space(text: Seq<char>) -> Seq<char>
    decreases text.len(),
{
    if text.len() > 0 && is_white_space(text.last()) {
        without_trailing_space(text.drop_last())
    } else {
        text
    }
}

/// A text without the white space at its ends; what lies between stays as it
/// is, white space included.
pub open spec fn trimmed_of(text: Seq<char>) -> Seq<char> {
    without_trailing_space(without_leading_space(text))
}

/// Whether `c` is white space.
pub fn is_white_space_char(c: char) -> (white: bool)
    ensures
        white == is_white_space(c),
{
    let code = c as u32;
    (0x09 <= code && code <= 0x0D) || code == 0x20 || code == 0x85 || code == 0xA0 || code
        == 0x1680 || (0x2000 <= code && code <= 0x200A) || code == 0x2028 || code == 0x2029
        || code == 0x202F || code == 0x205F || code == 0x3000
}

/// Takes the white space off the ends of `text`.
pub fn trim(text: &str) -> (trimmed: &str)
    ensures
        trimmed@ == trimmed_of(text@),
{
    let length = text.unicode_len();
    let mut start: usize = 0;
    assert(text@.skip(0) =~= text@);
    while start < length && is_white_space_char(text.get_char(start))
        invariant
            length == text@.len(),
            start <= length,
            without_leading_space(text@) == without_leading_space(text@.skip(start as int)),
        decreases length - start,
    {
        assert(text@.skip(start as int).drop_first() =~= text@.skip(start as int + 1));
        start += 1;
    }
    let ghost rest = text@.skip(start as int);
    assert(without_leading_space(text@) == rest);
    let mut end: usize = length;
    assert(text@.subrange(start as int, length as int) =~= rest);
    while start < end && is_white_space_char(text.get_char(end - 1))
        invariant
            length == text@.len(),
            start <= end <= length,
            without_trailing_space(rest) == without_trailing_space(
                text@.subrange(start as int, end as int),
            ),
        decreases end - start,
    {
        assert(text@.subrange(start as int, end as int).drop_last() =~= text@.subrange(
            start as int,
            end as int - 1,
        ));
        end -= 1;
    }
    proof {
        let kept = text@.subrange(start as int, end as int);
        if start < end {
            assert(kept.last() == text@[end as int - 1]);
        }
        assert(without_trailing_space(kept) == kept);
    }
    text.substring_char(start, end)
}

/// The log line for what the user said.
pub open spec fn user_line(message: Seq<char>) -> Seq<char> {
    "You: "@ + message
}

/// The log line with which the program answers when it can only echo.
pub open spec fn echo_line(message: Seq<char>) -> Seq<char> {
    "Bot: Echo: "@ + message
}

/// The log line for an answer of the chat service.
pub open spec fn bot_line(answer: Seq<char>) -> Seq<char> {
    "Bot: "@ + answer
}

/// The log lines for a message that was already trimmed: what the user said
/// and the echo. An empty message is not logged.
pub fn chat_lines_for(message: &str) -> (lines: Option<(String, String)>)
    ensures
        match lines {
            Some((user, echo)) => message@.len() > 0 && user@ == user_line(message@) && echo@
                == echo_line(message@),
            None => message@.len() == 0,
        },
{
    if message.unicode_len() == 0 {
        None
    } else {
        Some(("You: ".to_string().concat(message), "Bot: Echo: ".to_string().concat(message)))
    }
}

/// The log lines for what was typed into the chat box: what the user said,
/// without the white space around it, and the echo. Nothing but white space
/// is not logged.
pub fn chat_lines(input: &str) -> (lines: Option<(String, String)>)
    ensures
        match lines {
            Some((user, echo)) => trimmed_of(input@).len() > 0 && user@ == user_line(
                trimmed_of(input@),
            ) && echo@ == echo_line(trimmed_of(input@)),
            None => trimmed_of(input@).len() == 0,
        },
{
    chat_lines_for(trim(input))
}

/// The log line for an answer of the chat service, without the white space
/// around it.
pub fn bot_reply(answer: &str) -> (line: String)
    ensures
        line@ == bot_line(trimmed_of(answer@)),
{
    "Bot: ".to_string().concat(trim(answer))
}

/// How asking the chat service ended.
#[derive(Debug)]
pub enum ChatOutcome {
    /// The service answered with this text.
    Answer(String),
    /// The service answered, but not with a text.
    NoAnswer,
    /// The answer could not be read; carries why.
    Unreadable(String),
    /// The request failed; carries why.
    RequestFailed(String),
    /// No connection could be set up; carries why.
    NoClient(String),
}

/// Mathematical value of a [`ChatOutcome`].
pub enum ChatOutcomeView {
    Answer(Seq<char>),
    NoAnswer,
    Unreadable(Seq<char>),
    RequestFailed(Seq<char>),
    NoClient(Seq<char>),
}

impl View for ChatOutcome {
    type V = ChatOutcomeView;

    open spec fn view(&self) -> ChatOutcomeView {
        match self {
            ChatOutcome::Answer(text) => ChatOutcomeView::Answer(text@),
            ChatOutcome::NoAnswer => ChatOutcomeView::NoAnswer,
            ChatOutcome::Unreadable(cause) => ChatOutcomeView::Unreadable(cause@),
            ChatOutcome::RequestFailed(cause) => ChatOutcomeView::RequestFailed(cause@),
            ChatOutcome::NoClient(cause) => ChatOutcomeView::NoClient(cause@),
        }
    }
}

/// The log line for the end of a request to the chat service.
pub open spec fn outcome_line(outcome: ChatOutcomeView) -> Seq<char> {
    match outcome {
        ChatOutcomeView::Answer(text) => bot_line(trimmed_of(text)),
        ChatOutcomeView::NoAnswer => "Bot: (no reply)"@,
        ChatOutcomeView::Unreadable(cause) => "Bot: failed to parse response: "@ + cause,
        ChatOutcomeView::RequestFailed(cause) => "Bot: request failed: "@ + cause,
        ChatOutcomeView::NoClient(cause) => "Bot: failed to create HTTP client: "@ + cause,
    }
}

/// The log line for the end of a request to the chat service.
pub fn chat_outcome_line(outcome: &ChatOutcome) -> (line: String)
    ensures
        line@ == outcome_line(outcome@),
{
    match outcome {
        ChatOutcome::Answer(text) => bot_reply(text.as_str()),
        ChatOutcome::NoAnswer => "Bot: (no reply)".to_string(),
        ChatOutcome::Unreadable(cause) => "Bot: failed to parse response: ".to_string().concat(
            cause.as_str(),
        ),
        ChatOutcome::RequestFailed(cause) => "Bot: request failed: ".to_string().concat(
            cause.as_str(),
        ),
        ChatOutcome::NoClient(cause) => "Bot: failed to create HTTP client: ".to_string().concat(
            cause.as_str(),
        ),
    }
}

} // verus!
