use vstd::prelude::*;

verus! {

/// An intent produced by a menu activation of the status icon and consumed
/// exactly once by the dispatcher.
#[derive(Clone, Copy, Debug, PartialEq, Eq, Structural)]
pub enum TrayMessage {
    ShowWindow,
    Exit,
}

/// An error of the status-icon side, carrying a readable message.
#[derive(Debug)]
pub struct SimpleError(String);

impl View for SimpleError {
    type V = Seq<char>;

    closed spec fn view(&self) -> Seq<char> {
        self.0@
    }
}

impl SimpleError {
    pub fn new(message: String) -> (r: SimpleError)
        ensures
            r@ == message@,
    {
        SimpleError(message)
    }

    /// The text that describes the error.
    pub fn message(&self) -> (r: &str)
        ensures
            r@ == self@,
    {
        self.0.as_str()
    }
}

/// The stages of bringing up the status icon, in order, and the two ends.
#[derive(Clone, Copy, Debug, PartialEq, Eq, Structural)]
pub enum TrayStep {
    /// Create the platform status-icon resource.
    CreateApp,
    /// Load the custom icon image.
    SetIcon,
    /// Register the menu entry that shows the window.
    AddShowItem,
    /// Register the separator between the two entries.
    AddSeparator,
    /// Register the menu entry that ends the application.
    AddExitItem,
    /// Block on the platform's event loop, dispatching menu activations.
    WaitForMessages,
    /// The event loop ended normally.
    Finished,
    /// A stage failed; the error is reported to the caller.
    Failed,
}

/// The stage that follows a stage that succeeded.
pub open spec fn step_after(step: TrayStep) -> TrayStep {
    match step {
        TrayStep::CreateApp => TrayStep::SetIcon,
        TrayStep::SetIcon => TrayStep::AddShowItem,
        TrayStep::AddShowItem => TrayStep::AddSeparator,
        TrayStep::AddSeparator => TrayStep::AddExitItem,
        TrayStep::AddExitItem => TrayStep::WaitForMessages,
        TrayStep::WaitForMessages => TrayStep::Finished,
        TrayStep::Finished => TrayStep::Finished,
        TrayStep::Failed => TrayStep::Failed,
    }
}

/// The bring-up has ended, one way or the other.
pub open spec fn is_done(step: TrayStep) -> bool {
    step is Finished || step is Failed
}

/// The decision taken after one stage of the bring-up.
#[derive(Clone, Copy, Debug, PartialEq, Eq, Structural)]
pub struct TrayTransition {
    /// The stage to perform next.
    pub next: TrayStep,
    /// The custom icon could not be loaded and the platform's default icon
    /// stays in place; worth a warning, not a failure.
    pub default_icon: bool,
}

/// Decides what follows a stage of the status-icon bring-up, given whether the
/// platform call of that stage succeeded. Only the icon image is optional:
/// any other failure ends the bring-up with an error.
pub fn next_tray_step(step: TrayStep, succeeded: bool) -> (r: TrayTransition)
    ensures
        is_done(step) ==> r.next == step,
        !is_done(step) && succeeded ==> r.next == step_after(step),
        !is_done(step) && !succeeded ==> r.next == (if step is SetIcon {
            TrayStep::AddShowItem
        } else {
            TrayStep::Failed
        }),
        r.default_icon == (step is SetIcon && !succeeded),
{
    let next = match step {
        TrayStep::Finished => TrayStep::Finished,
        TrayStep::Failed => TrayStep::Failed,
        TrayStep::SetIcon => TrayStep::AddShowItem,
        _ => if !succeeded {
            TrayStep::Failed
        } else {
            match step {
                TrayStep::CreateApp => TrayStep::SetIcon,
                TrayStep::AddShowItem => TrayStep::AddSeparator,
                TrayStep::AddSeparator => TrayStep::AddExitItem,
                TrayStep::AddExitItem => TrayStep::WaitForMessages,
                _ => TrayStep::Finished,
            }
        },
    };
    TrayTransition { next, default_icon: step == TrayStep::SetIcon && !succeeded }
}

/// The message that the menu entry registered at `step` sends when it is
/// activated, if that stage registers an entry.
pub fn menu_message(step: TrayStep) -> (r: Option<TrayMessage>)
    ensures
        step is AddShowItem ==> r == Some(TrayMessage::ShowWindow),
        step is AddExitItem ==> r == Some(TrayMessage::Exit),
        !(step is AddShowItem || step is AddExitItem) ==> r is None,
{
    match step {
        TrayStep::AddShowItem => Some(TrayMessage::ShowWindow),
        TrayStep::AddExitItem => Some(TrayMessage::Exit),
        _ => None,
    }
}

} // verus!
