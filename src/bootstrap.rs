use vstd::prelude::*;

verus! {

/// The stages of application start-up.
#[derive(Clone, Copy, Debug, PartialEq, Eq, Structural)]
pub enum BootStep {
    /// Create the signal channel and the shared visibility flag.
    CreateChannel,
    /// Hand the channel's sending half to whatever forms the menu callbacks.
    RegisterSender,
    /// Start the dispatcher thread on the channel's receiving half.
    StartDispatcher,
    /// Start the status-icon thread; its failure leaves the application
    /// running without a tray.
    StartTray,
    /// Start the UI runtime with the watcher attached to the main window.
    StartUi,
}

/// The order of start-up: no message can be produced before its consumer
/// exists.
pub open spec fn boot_order() -> Seq<BootStep> {
    seq![
        BootStep::CreateChannel,
        BootStep::RegisterSender,
        BootStep::StartDispatcher,
        BootStep::StartTray,
        BootStep::StartUi,
    ]
}

/// The start-up stages, in the order in which they must run.
pub fn startup_sequence() -> (r: Vec<BootStep>)
    ensures
        r@ == boot_order(),
{
    let r = vec![
        BootStep::CreateChannel,
        BootStep::RegisterSender,
        BootStep::StartDispatcher,
        BootStep::StartTray,
        BootStep::StartUi,
    ];
    assert(r@ =~= boot_order());
    r
}

} // verus!
