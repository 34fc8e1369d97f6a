//! The setup wizard that runs on first use.

use vstd::prelude::*;

verus! {

/// A step of the wizard, in the order in which they are walked.
#[derive(Clone, Copy, Debug, PartialEq, Eq, Structural)]
pub enum WizardStep {
    Welcome,
    GpuConfiguration,
    ThemeSelection,
    VoiceSetup,
    Complete,
}

/// How many steps the wizard has.
pub const TOTAL_STEPS: usize = 5;

/// The position of `step`, counted from zero.
pub open spec fn step_index(step: WizardStep) -> nat {
    match step {
        WizardStep::Welcome => 0,
        WizardStep::GpuConfiguration => 1,
        WizardStep::ThemeSelection => 2,
        WizardStep::VoiceSetup => 3,
        WizardStep::Complete => 4,
    }
}

/// The step that follows `step`; the last step follows itself.
pub open spec fn step_after(step: WizardStep) -> WizardStep {
    match step {
        WizardStep::Welcome => WizardStep::GpuConfiguration,
        WizardStep::GpuConfiguration => WizardStep::ThemeSelection,
        WizardStep::ThemeSelection => WizardStep::VoiceSetup,
        WizardStep::VoiceSetup => WizardStep::Complete,
        WizardStep::Complete => WizardStep::Complete,
    }
}

/// The step that precedes `step`; the first step precedes itself.
pub open spec fn step_before(step: WizardStep) -> WizardStep {
    match step {
        WizardStep::Welcome => WizardStep::Welcome,
        WizardStep::GpuConfiguration => WizardStep::Welcome,
        WizardStep::ThemeSelection => WizardStep::GpuConfiguration,
        WizardStep::VoiceSetup => WizardStep::ThemeSelection,
        WizardStep::Complete => WizardStep::VoiceSetup,
    }
}

/// The heading of `step`.
pub open spec fn step_title(step: WizardStep) -> Seq<char> {
    match step {
        WizardStep::Welcome => "Welcome to ZenTerm"@,
        WizardStep::GpuConfiguration => "GPU Configuration"@,
        WizardStep::ThemeSelection => "Theme Selection"@,
        WizardStep::VoiceSetup => "Voice Recognition"@,
        WizardStep::Complete => "Setup Complete"@,
    }
}

/// The explanation that `step` shows.
pub open spec fn step_description(step: WizardStep) -> Seq<char> {
    match step {
        WizardStep::Welcome =>
            "Welcome to ZenTerm Birthday MVP! This wizard will help you configure the application for first use. You can change these settings later in the application."@,
        WizardStep::GpuConfiguration =>
            "Set your preferred GPU usage limit. This helps manage system resources and performance. You can choose from 25%, 50%, 75%, or 100% GPU utilization."@,
        WizardStep::ThemeSelection =>
            "Choose your preferred visual theme. Dark mode is easier on the eyes in low-light conditions, while light mode provides better contrast in bright environments."@,
        WizardStep::VoiceSetup =>
            "Enable voice recognition for hands-free terminal control. Note: This is currently a mock implementation. Real voice recognition will be added in future releases."@,
        WizardStep::Complete =>
            "Congratulations! Your ZenTerm setup is complete. You can access this wizard again from the sidebar or change any settings through the application interface."@,
    }
}

/// Whether `step` may be skipped: every step but the first and the last.
pub open spec fn step_can_skip(step: WizardStep) -> bool {
    step != WizardStep::Welcome && step != WizardStep::Complete
}

/// What the wizard shows for one step.
#[derive(Debug)]
pub struct WizardStepData {
    pub title: String,
    pub description: String,
    pub can_skip: bool,
}

/// Mathematical value of a [`WizardStepData`].
pub struct WizardStepDataView {
    pub title: Seq<char>,
    pub description: Seq<char>,
    pub can_skip: bool,
}

impl View for WizardStepData {
    type V = WizardStepDataView;

    open spec fn view(&self) -> WizardStepDataView {
        WizardStepDataView {
            title: self.title@,
            description: self.description@,
            can_skip: self.can_skip,
        }
    }
}

impl Clone for WizardStepData {
    fn clone(&self) -> (copy: Self)
        ensures
            copy@ == self@,
    {
        WizardStepData {
            title: self.title.clone(),
            description: self.description.clone(),
            can_skip: self.can_skip,
        }
    }
}

/// What the wizard shows for `step`.
pub open spec fn step_data(step: WizardStep) -> WizardStepDataView {
    WizardStepDataView {
        title: step_title(step),
        description: step_description(step),
        can_skip: step_can_skip(step),
    }
}

/// Mathematical value of a [`Wizard`]: whether it is shown, the step it is
/// at, and the steps that were left by going on, in the order in which that
/// first happened.
pub struct WizardView {
    pub is_open: bool,
    pub current_step: WizardStep,
    pub completed: Seq<WizardStep>,
}

/// The wizard before it was first opened.
pub open spec fn closed_wizard() -> WizardView {
    WizardView { is_open: false, current_step: WizardStep::Welcome, completed: Seq::empty() }
}

/// The wizard as it opens: at the first step, with nothing completed.
pub open spec fn opened_wizard() -> WizardView {
    WizardView { is_open: true, current_step: WizardStep::Welcome, completed: Seq::empty() }
}

/// The completed steps after `step` was left by going on.
pub open spec fn completed_with(completed: Seq<WizardStep>, step: WizardStep) -> Seq<WizardStep> {
    if completed.contains(step) {
        completed
    } else {
        completed.push(step)
    }
}

/// The wizard after going on from its current step: the step counts as
/// completed; from the last step the wizard closes and stays there, from
/// every other it moves to the following one.
pub open spec fn after_next(v: WizardView) -> WizardView {
    WizardView {
        is_open: v.is_open && v.current_step != WizardStep::Complete,
        current_step: step_after(v.current_step),
        completed: completed_with(v.completed, v.current_step),
    }
}

/// The wizard after going back from its current step.
pub open spec fn after_previous(v: WizardView) -> WizardView {
    WizardView {
        is_open: v.is_open,
        current_step: step_before(v.current_step),
        completed: v.completed,
    }
}

/// The wizard after an attempt to skip its current step.
pub open spec fn after_skip(v: WizardView) -> WizardView {
    if step_can_skip(v.current_step) {
        after_next(v)
    } else {
        v
    }
}

/// The multi-step setup wizard.
#[derive(Debug)]
pub struct Wizard {
    is_open: bool,
    current_step: WizardStep,
    completed_steps: Vec<WizardStep>,
}

impl View for Wizard {
    type V = WizardView;

    closed spec fn view(&self) -> WizardView {
        WizardView {
            is_open: self.is_open,
            current_step: self.current_step,
            completed: self.completed_steps@,
        }
    }
}

impl Clone for Wizard {
    fn clone(&self) -> (copy: Self)
        ensures
            copy@ == self@,
    {
        let copy = Wizard {
            is_open: self.is_open,
            current_step: self.current_step,
            completed_steps: self.completed_steps(),
        };
        copy
    }
}

impl Default for Wizard {
    fn default() -> (wizard: Self)
        ensures
            wizard@ == closed_wizard(),
    {
        Wizard::new()
    }
}

impl Wizard {
    /// A wizard that is not shown, at its first step.
    pub fn new() -> (wizard: Self)
        ensures
            wizard@ == closed_wizard(),
    {
        Wizard { is_open: false, current_step: WizardStep::Welcome, completed_steps: Vec::new() }
    }

    /// Shows the wizard from its first step, with nothing completed.
    pub fn open(&mut self)
        ensures
            final(self)@ == opened_wizard(),
    {
        self.is_open = true;
        self.current_step = WizardStep::Welcome;
        self.completed_steps.clear();
    }

    /// Hides the wizard where it stands.
    pub fn close(&mut self)
        ensures
            final(self)@ == (WizardView { is_open: false, ..old(self)@ }),
    {
        self.is_open = false;
    }

    /// Whether the wizard is shown.
    pub fn is_open(&self) -> (open: bool)
        ensures
            open == self@.is_open,
    {
        self.is_open
    }

    /// The step the wizard is at.
    pub fn current_step(&self) -> (step: WizardStep)
        ensures
            step == self@.current_step,
    {
        self.current_step
    }

    /// The steps that were completed, in the order in which that first
    /// happened.
    pub fn completed_steps(&self) -> (steps: Vec<WizardStep>)
        ensures
            steps@ == self@.completed,
    {
        let mut steps: Vec<WizardStep> = Vec::new();
        let mut i: usize = 0;
        while i < self.completed_steps.len()
            invariant
                i <= self.completed_steps@.len(),
                steps@ == self.completed_steps@.take(i as int),
            decreases self.completed_steps@.len() - i,
        {
            steps.push(self.completed_steps[i]);
            assert(self.completed_steps@.take(i as int + 1) =~= self.completed_steps@.take(
                i as int,
            ).push(self.completed_steps@[i as int]));
            i += 1;
        }
        assert(self.completed_steps@.take(i as int) =~= self.completed_steps@);
        steps
    }

    /// Goes on to the next step and marks the current one completed. Returns
    /// whether there was a next step; from the last step the wizard closes
    /// instead.
    pub fn next_step(&mut self) -> (moved: bool)
        ensures
            moved == (old(self)@.current_step != WizardStep::Complete),
            final(self)@ == after_next(old(self)@),
    {
        if !self.is_step_completed(&self.current_step) {
            self.completed_steps.push(self.current_step);
        }
        let next_step = match self.current_step {
            WizardStep::Welcome => WizardStep::GpuConfiguration,
            WizardStep::GpuConfiguration => WizardStep::ThemeSelection,
            WizardStep::ThemeSelection => WizardStep::VoiceSetup,
            WizardStep::VoiceSetup => WizardStep::Complete,
            WizardStep::Complete => {
                self.close();
                return false;
            },
        };
        self.current_step = next_step;
        true
    }

    /// Goes back to the previous step. Returns whether there was one.
    pub fn previous_step(&mut self) -> (moved: bool)
        ensures
            moved == (old(self)@.current_step != WizardStep::Welcome),
            final(self)@ == after_previous(old(self)@),
    {
        let prev_step = match self.current_step {
            WizardStep::Welcome => {
                return false;
            },
            WizardStep::GpuConfiguration => WizardStep::Welcome,
            WizardStep::ThemeSelection => WizardStep::GpuConfiguration,
            WizardStep::VoiceSetup => WizardStep::ThemeSelection,
            WizardStep::Complete => WizardStep::VoiceSetup,
        };
        self.current_step = prev_step;
        true
    }

    /// Skips the current step where that is allowed, which is the same as
    /// going on from it. Returns whether the wizard moved.
    pub fn skip_step(&mut self) -> (moved: bool)
        ensures
            moved == step_can_skip(old(self)@.current_step),
            final(self)@ == after_skip(old(self)@),
    {
        let step_data = self.get_step_data(&self.current_step);
        if step_data.can_skip {
            self.next_step()
        } else {
            false
        }
    }

    /// What the wizard shows for `step`.
    pub fn get_step_data(&self, step: &WizardStep) -> (data: WizardStepData)
        ensures
            data@ == step_data(*step),
    {
        match step {
            WizardStep::Welcome => WizardStepData {
                title: "Welcome to ZenTerm".to_string(),
                description: "Welcome to ZenTerm Birthday MVP! This wizard will help you configure the application for first use. You can change these settings later in the application.".to_string(),
                can_skip: false,
            },
            WizardStep::GpuConfiguration => WizardStepData {
                title: "GPU Configuration".to_string(),
                description: "Set your preferred GPU usage limit. This helps manage system resources and performance. You can choose from 25%, 50%, 75%, or 100% GPU utilization.".to_string(),
                can_skip: true,
            },
            WizardStep::ThemeSelection => WizardStepData {
                title: "Theme Selection".to_string(),
                description: "Choose your preferred visual theme. Dark mode is easier on the eyes in low-light conditions, while light mode provides better contrast in bright environments.".to_string(),
                can_skip: true,
            },
            WizardStep::VoiceSetup => WizardStepData {
                title: "Voice Recognition".to_string(),
                description: "Enable voice recognition for hands-free terminal control. Note: This is currently a mock implementation. Real voice recognition will be added in future releases.".to_string(),
                can_skip: true,
            },
            WizardStep::Complete => WizardStepData {
                title: "Setup Complete".to_string(),
                description: "Congratulations! Your ZenTerm setup is complete. You can access this wizard again from the sidebar or change any settings through the application interface.".to_string(),
                can_skip: false,
            },
        }
    }

    /// What the wizard shows for the step it is at.
    pub fn current_step_data(&self) -> (data: WizardStepData)
        ensures
            data@ == step_data(self@.current_step),
    {
        self.get_step_data(&self.current_step)
    }

    /// Whether `step` was completed.
    pub fn is_step_completed(&self, step: &WizardStep) -> (completed: bool)
        ensures
            completed == self@.completed.contains(*step),
    {
        let mut i: usize = 0;
        while i < self.completed_steps.len()
            invariant
                i <= self.completed_steps@.len(),
                forall|k: int| 0 <= k < i ==> self.completed_steps@[k] != *step,
            decreases self.completed_steps@.len() - i,
        {
            if self.completed_steps[i] == *step {
                return true;
            }
            i += 1;
        }
        false
    }

    /// Whether there is a step to go on to.
    pub fn can_go_next(&self) -> (possible: bool)
        ensures
            possible == (self@.current_step != WizardStep::Complete),
    {
        !matches!(self.current_step, WizardStep::Complete)
    }

    /// Whether there is a step to go back to.
    pub fn can_go_previous(&self) -> (possible: bool)
        ensures
            possible == (self@.current_step != WizardStep::Welcome),
    {
        !matches!(self.current_step, WizardStep::Welcome)
    }

    /// How many steps the wizard has.
    pub fn total_steps(&self) -> (count: usize)
        ensures
            count == TOTAL_STEPS,
    {
        TOTAL_STEPS
    }

    /// The position of the current step, counted from zero.
    pub fn current_step_index(&self) -> (index: usize)
        ensures
            index == step_index(self@.current_step),
            index < TOTAL_STEPS,
    {
        match self.current_step {
            WizardStep::Welcome => 0,
            WizardStep::GpuConfiguration => 1,
            WizardStep::ThemeSelection => 2,
            WizardStep::VoiceSetup => 3,
            WizardStep::Complete => 4,
        }
    }
}

/// Going back undoes going on, and going on undoes going back, wherever the
/// wizard is not at an end: the steps form one line.
pub proof fn law_steps_form_a_line(step: WizardStep)
    ensures
        step != WizardStep::Complete ==> step_before(step_after(step)) == step,
        step != WizardStep::Welcome ==> step_after(step_before(step)) == step,
        step != WizardStep::Complete ==> step_index(step_after(step)) == step_index(step) + 1,
        step_index(step) < TOTAL_STEPS,
{
}

/// No step is ever listed twice among the completed ones, and going on never
/// forgets a completed step.
pub proof fn law_completion(v: WizardView)
    requires
        v.completed.no_duplicates(),
    ensures
        after_next(v).completed.no_duplicates(),
        after_next(v).completed.contains(v.current_step),
        forall|step: WizardStep|
            v.completed.contains(step) ==> after_next(v).completed.contains(step),
{
    let after = after_next(v).completed;
    if v.completed.contains(v.current_step) {
    } else {
        assert(after[v.completed.len() as int] == v.current_step);
        assert forall|step: WizardStep| v.completed.contains(step) implies after.contains(
            step,
        ) by {
            let at = v.completed.index_of(step);
            assert(after[at] == step);
        }
    }
}

} // verus!
