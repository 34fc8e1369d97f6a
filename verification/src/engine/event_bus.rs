//! The events that the parts of the application send one another.

use vstd::prelude::*;

verus! {

/// Something that happened in one part of the application and concerns the
/// shared state.
#[derive(Debug)]
pub enum AppEvent {
    GpuLimitChanged(u8),
    /// The theme was set; `true` stands for the dark one.
    ThemeToggled(bool),
    /// Voice recognition was switched; `true` stands for on.
    VoiceToggled(bool),
    WizardOpened,
    WizardClosed,
    ConfigSaveRequested,
    LogMessage(String),
    QuitRequested,
}

/// Mathematical value of an [`AppEvent`].
pub enum AppEventView {
    GpuLimitChanged(u8),
    ThemeToggled(bool),
    VoiceToggled(bool),
    WizardOpened,
    WizardClosed,
    ConfigSaveRequested,
    LogMessage(Seq<char>),
    QuitRequested,
}

impl View for AppEvent {
    type V = AppEventView;

    open spec fn view(&self) -> AppEventView {
        match self {
            AppEvent::GpuLimitChanged(limit) => AppEventView::GpuLimitChanged(*limit),
            AppEvent::ThemeToggled(dark) => AppEventView::ThemeToggled(*dark),
            AppEvent::VoiceToggled(enabled) => AppEventView::VoiceToggled(*enabled),
            AppEvent::WizardOpened => AppEventView::WizardOpened,
            AppEvent::WizardClosed => AppEventView::WizardClosed,
            AppEvent::ConfigSaveRequested => AppEventView::ConfigSaveRequested,
            AppEvent::LogMessage(text) => AppEventView::LogMessage(text@),
            AppEvent::QuitRequested => AppEventView::QuitRequested,
        }
    }
}

impl Clone for AppEvent {
    fn clone(&self) -> (copy: Self)
        ensures
            copy@ == self@,
    {
        match self {
            AppEvent::GpuLimitChanged(limit) => AppEvent::GpuLimitChanged(*limit),
            AppEvent::ThemeToggled(dark) => AppEvent::ThemeToggled(*dark),
            AppEvent::VoiceToggled(enabled) => AppEvent::VoiceToggled(*enabled),
            AppEvent::WizardOpened => AppEvent::WizardOpened,
            AppEvent::WizardClosed => AppEvent::WizardClosed,
            AppEvent::ConfigSaveRequested => AppEvent::ConfigSaveRequested,
            AppEvent::LogMessage(text) => AppEvent::LogMessage(text.clone()),
            AppEvent::QuitRequested => AppEvent::QuitRequested,
        }
    }
}

} // verus!
