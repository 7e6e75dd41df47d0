//! The order in which the radio coprocessor is brought up, and when control
//! operations may be issued.
use vstd::prelude::*;

verus! {

/// How far the coprocessor bring-up has come.
#[derive(Clone, Copy, Debug, PartialEq, Eq, Structural)]
pub enum Stage {
    PoweredDown,
    PoweringUp,
    DriverConstructed,
    DriverRunning,
    LocaleApplied,
    Ready,
}

/// One step of the bring-up sequence.
#[derive(Clone, Copy, Debug, PartialEq, Eq, Structural)]
pub enum BringupStep {
    /// Assert the coprocessor's reset and power lines.
    PowerUp,
    /// Build the driver from the firmware image and the bus transport.
    Construct,
    /// Start the driver's background run loop.
    StartDriver,
    /// Apply the locale and regulatory configuration (a control operation).
    ApplyLocale,
    /// Apply the power-management policy (a control operation).
    SetPowerManagement,
}

/// A step completed out of order.
#[derive(Clone, Copy, Debug, PartialEq, Eq, Structural)]
pub struct OrderError {
    /// The step that was due, if any.
    pub expected: Option<BringupStep>,
    /// The step that was reported done.
    pub got: BringupStep,
}

/// The position of a stage in the sequence.
pub open spec fn rank(s: Stage) -> nat {
    match s {
        Stage::PoweredDown => 0,
        Stage::PoweringUp => 1,
        Stage::DriverConstructed => 2,
        Stage::DriverRunning => 3,
        Stage::LocaleApplied => 4,
        Stage::Ready => 5,
    }
}

/// The step due at a stage; none once ready.
pub open spec fn due(s: Stage) -> Option<BringupStep> {
    match s {
        Stage::PoweredDown => Some(BringupStep::PowerUp),
        Stage::PoweringUp => Some(BringupStep::Construct),
        Stage::DriverConstructed => Some(BringupStep::StartDriver),
        Stage::DriverRunning => Some(BringupStep::ApplyLocale),
        Stage::LocaleApplied => Some(BringupStep::SetPowerManagement),
        Stage::Ready => None,
    }
}

/// The stage reached by completing a step.
pub open spec fn reached(step: BringupStep) -> Stage {
    match step {
        BringupStep::PowerUp => Stage::PoweringUp,
        BringupStep::Construct => Stage::DriverConstructed,
        BringupStep::StartDriver => Stage::DriverRunning,
        BringupStep::ApplyLocale => Stage::LocaleApplied,
        BringupStep::SetPowerManagement => Stage::Ready,
    }
}

/// Whether a step is an operation issued through the control handle.
pub open spec fn is_control(step: BringupStep) -> bool {
    step == BringupStep::ApplyLocale || step == BringupStep::SetPowerManagement
}

/// Control operations may be issued once the driver's run loop is running.
pub open spec fn control_allowed(s: Stage) -> bool {
    rank(s) >= rank(Stage::DriverRunning)
}

/// Tracks the bring-up sequence and refuses steps taken out of order.
#[derive(Clone, Copy, Debug, PartialEq, Eq, Structural)]
pub struct Bringup {
    pub stage: Stage,
}

impl Bringup {
    /// A sequence that has not started: the coprocessor is powered down.
    pub fn new() -> (r: Bringup)
        ensures
            r.stage == Stage::PoweredDown,
    {
        Bringup { stage: Stage::PoweredDown }
    }

    /// The step due next, or `None` when bring-up is complete.
    pub fn next_step(&self) -> (r: Option<BringupStep>)
        ensures
            r == due(self.stage),
    {
        match self.stage {
            Stage::PoweredDown => Some(BringupStep::PowerUp),
            Stage::PoweringUp => Some(BringupStep::Construct),
            Stage::DriverConstructed => Some(BringupStep::StartDriver),
            Stage::DriverRunning => Some(BringupStep::ApplyLocale),
            Stage::LocaleApplied => Some(BringupStep::SetPowerManagement),
            Stage::Ready => None,
        }
    }

    /// Records that `step` was carried out. It succeeds exactly when `step` was
    /// the one due, and then advances to the stage it reaches; otherwise the
    /// stage is unchanged.
    pub fn complete(&mut self, step: BringupStep) -> (r: Result<(), OrderError>)
        ensures
            due(old(self).stage) == Some(step) ==> r is Ok && final(self).stage == reached(step),
            due(old(self).stage) != Some(step) ==> r == Err::<(), OrderError>(
                OrderError { expected: due(old(self).stage), got: step },
            ) && *final(self) == *old(self),
    {
        let expected = self.next_step();
        if expected == Some(step) {
            self.stage = match step {
                BringupStep::PowerUp => Stage::PoweringUp,
                BringupStep::Construct => Stage::DriverConstructed,
                BringupStep::StartDriver => Stage::DriverRunning,
                BringupStep::ApplyLocale => Stage::LocaleApplied,
                BringupStep::SetPowerManagement => Stage::Ready,
            };
            Ok(())
        } else {
            Err(OrderError { expected, got: step })
        }
    }

    /// Whether control operations may be issued now.
    pub fn control_ready(&self) -> (r: bool)
        ensures
            r == control_allowed(self.stage),
    {
        match self.stage {
            Stage::PoweredDown | Stage::PoweringUp | Stage::DriverConstructed => false,
            _ => true,
        }
    }

    /// Whether bring-up is complete.
    pub fn is_ready(&self) -> (r: bool)
        ensures
            r == (self.stage == Stage::Ready),
    {
        self.stage == Stage::Ready
    }
}

/// Steps come due in sequence order, each moving one stage on, and no control
/// operation comes due before the driver's run loop has been started.
pub proof fn lemma_control_after_driver(s: Stage)
    ensures
        due(s) is Some ==> rank(reached(due(s)->0)) == rank(s) + 1,
        due(s) is None <==> s == Stage::Ready,
        due(s) is Some && is_control(due(s)->0) ==> control_allowed(s),
        due(s) == Some(BringupStep::StartDriver) ==> !control_allowed(s),
{
}

} // verus!
