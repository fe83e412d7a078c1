//! Pointer reports and the guards for motion with and without a button.
use vstd::prelude::*;

verus! {

/// Pointer action accepted by a terminal mouse encoder.
#[derive(Debug, Clone, Copy, PartialEq, Eq, Structural)]
pub enum PointerAction {
    Press,
    Release,
    Motion,
}

/// Logical terminal mouse button. Wheel up and down are buttons four and five.
#[derive(Debug, Clone, Copy, PartialEq, Eq, Structural)]
pub enum PointerButton {
    Left,
    Right,
    Middle,
    Four,
    Five,
}

/// Guard for motion without a button: a report goes out when the pointer has reached a new
/// cell and the shortest interval since the last report has passed. The caller keeps the
/// clock. The decision and its commit are apart, so that a report the encoder declined does
/// not move the guard's memory.
#[derive(Debug, Clone, Copy)]
pub struct MotionEmitter {
    pub last_cell: Option<(u32, u32)>,
}

impl MotionEmitter {
    /// A guard that remembers no report.
    pub fn new() -> (emitter: MotionEmitter)
        ensures
            emitter.last_cell is None,
    {
        MotionEmitter { last_cell: None }
    }

    /// Whether a report of this cell goes out, `too_soon` being whether less than the
    /// shortest interval has passed since the last one.
    pub fn would_emit(&self, col: u32, row: u32, too_soon: bool) -> (yes: bool)
        ensures
            yes == (self.last_cell != Some((col, row)) && !too_soon),
    {
        let same = match self.last_cell {
            Some((c, r)) => c == col && r == row,
            None => false,
        };
        !same && !too_soon
    }

    /// Records a report that went out.
    pub fn commit(&mut self, col: u32, row: u32)
        ensures
            final(self).last_cell == Some((col, row)),
    {
        self.last_cell = Some((col, row));
    }
}

/// Guard for button-held motion: a report goes out only when the pointer crosses into a new
/// cell. The decision and its commit are apart, so that a report the encoder declined does
/// not move the guard's memory.
#[derive(Debug, Clone, Copy)]
pub struct DragCellGate {
    pub active: Option<(PointerButton, (u32, u32))>,
}

/// Whether a button can hold a drag; a wheel step cannot.
pub open spec fn drags(button: PointerButton) -> bool {
    button is Left || button is Right || button is Middle
}

impl DragCellGate {
    /// A guard that remembers no press.
    pub fn new() -> (gate: DragCellGate)
        ensures
            gate.active is None,
    {
        DragCellGate { active: None }
    }

    /// Whether a report reaches the terminal: only button-held motion at the cell already
    /// reported for that button is withheld.
    pub open spec fn passes(
        self,
        action: PointerAction,
        button: Option<PointerButton>,
        cell: (u32, u32),
    ) -> bool {
        !(action is Motion && button is Some && self.active == Some((button->0, cell)))
    }

    /// The guard after a report that went out.
    pub open spec fn after(
        self,
        action: PointerAction,
        button: Option<PointerButton>,
        cell: (u32, u32),
    ) -> DragCellGate {
        match action {
            PointerAction::Release => DragCellGate { active: None },
            _ => if button is Some && drags(button->0) {
                DragCellGate { active: Some((button->0, cell)) }
            } else {
                self
            },
        }
    }

    /// Whether this report reaches the terminal.
    pub fn would_dispatch(
        &self,
        action: PointerAction,
        button: Option<PointerButton>,
        cell: (u32, u32),
    ) -> (yes: bool)
        ensures
            yes == self.passes(action, button, cell),
    {
        match (action, button) {
            (PointerAction::Motion, Some(button)) => match self.active {
                Some((held, at)) => !(held == button && at.0 == cell.0 && at.1 == cell.1),
                None => true,
            },
            _ => true,
        }
    }

    /// Records a report the encoder produced bytes for. A release is recorded whether or
    /// not it encoded: the gesture is over.
    pub fn commit_dispatched(
        &mut self,
        action: PointerAction,
        button: Option<PointerButton>,
        cell: (u32, u32),
    )
        ensures
            *final(self) == old(self).after(action, button, cell),
    {
        match action {
            PointerAction::Release => {
                self.active = None;
            },
            _ => {
                match button {
                    Some(PointerButton::Left) => {
                        self.active = Some((PointerButton::Left, cell));
                    },
                    Some(PointerButton::Right) => {
                        self.active = Some((PointerButton::Right, cell));
                    },
                    Some(PointerButton::Middle) => {
                        self.active = Some((PointerButton::Middle, cell));
                    },
                    _ => {},
                }
            },
        }
    }

    /// Forgets any press.
    pub fn reset(&mut self)
        ensures
            final(self).active is None,
    {
        self.active = None;
    }
}

impl Default for DragCellGate {
    fn default() -> (gate: DragCellGate)
        ensures
            gate.active is None,
    {
        DragCellGate { active: None }
    }
}

/// Every crossing is reported, and once: motion to a cell other than the last reported one
/// passes, and once it is recorded the same motion is withheld until the pointer moves on.
pub proof fn law_a_crossing_is_reported_once(
    gate: DragCellGate,
    button: PointerButton,
    cell: (u32, u32),
    next: (u32, u32),
)
    requires
        drags(button),
        next != cell,
    ensures
        !gate.after(PointerAction::Motion, Some(button), cell).passes(
            PointerAction::Motion,
            Some(button),
            cell,
        ),
        gate.after(PointerAction::Motion, Some(button), cell).passes(
            PointerAction::Motion,
            Some(button),
            next,
        ),
{
}

/// A press and a release always pass, and after a release the next motion passes too.
pub proof fn law_only_held_motion_is_gated(
    gate: DragCellGate,
    button: Option<PointerButton>,
    cell: (u32, u32),
)
    ensures
        gate.passes(PointerAction::Press, button, cell),
        gate.passes(PointerAction::Release, button, cell),
        gate.passes(PointerAction::Motion, None, cell),
        gate.after(PointerAction::Release, button, cell).passes(
            PointerAction::Motion,
            button,
            cell,
        ),
{
}

/// A wheel step is no gesture: it leaves a live drag as it was and starts none.
pub proof fn law_a_wheel_step_is_no_gesture(
    gate: DragCellGate,
    button: PointerButton,
    cell: (u32, u32),
)
    requires
        !drags(button),
    ensures
        gate.after(PointerAction::Press, Some(button), cell) == gate,
        gate.after(PointerAction::Motion, Some(button), cell) == gate,
{
}

/// What is held back and what is remembered: a motion of the held button in the cell it was
/// last reported in is held back and nothing else; a press or a motion of a button that drags is
/// remembered with its cell, a release forgets, and no other button changes what is remembered.
pub proof fn law_a_drag_is_remembered_by_button_and_cell(
    gate: DragCellGate,
    action: PointerAction,
    button: PointerButton,
    cell: (u32, u32),
)
    ensures
        gate.passes(PointerAction::Motion, Some(button), cell) <==> gate.active != Some(
            (button, cell),
        ),
        gate.passes(PointerAction::Press, Some(button), cell),
        gate.passes(PointerAction::Release, Some(button), cell),
        gate.passes(action, None, cell),
        gate.after(PointerAction::Release, Some(button), cell).active is None,
        gate.after(PointerAction::Release, None, cell).active is None,
        !(action is Release) && (button is Left || button is Right || button is Middle)
            ==> gate.after(action, Some(button), cell).active == Some((button, cell)),
        !(action is Release) && (button is Four || button is Five) ==> gate.after(
            action,
            Some(button),
            cell,
        ) == gate,
        !(action is Release) ==> gate.after(action, None, cell) == gate,
{
}

} // verus!
