use vstd::prelude::*;
use vstd::string::StringExecFns;

use enigo::Mouse;

use crate::geometry::Position;
use crate::plan::Step;

verus! {

/// A failure of the platform input-injection facility. Every failure is
/// terminal for the operation that met it: nothing is retried.
#[derive(Clone, Copy, Debug, PartialEq, Eq, Structural)]
pub enum DriverError {
    /// The input handle could not be acquired.
    InitFailed,
    /// A pointer move was rejected by the platform.
    MoveFailed,
    /// A click was rejected by the platform.
    ClickFailed,
    /// A button press was rejected by the platform.
    PressFailed,
    /// A button release was rejected by the platform.
    ReleaseFailed,
    /// The platform could not report the pointer position.
    QueryFailed,
}

/// The description of a driver failure.
pub open spec fn driver_error_text(e: DriverError) -> Seq<char> {
    match e {
        DriverError::InitFailed => "Failed to create the input driver"@,
        DriverError::MoveFailed => "Failed to move mouse"@,
        DriverError::ClickFailed => "Failed to click"@,
        DriverError::PressFailed => "Failed to press"@,
        DriverError::ReleaseFailed => "Failed to release"@,
        DriverError::QueryFailed => "Failed to get mouse location"@,
    }
}

impl DriverError {
    /// A short description of the failure.
    pub fn text(&self) -> (r: String)
        ensures
            r@ == driver_error_text(*self),
    {
        match self {
            DriverError::InitFailed => String::from_str("Failed to create the input driver"),
            DriverError::MoveFailed => String::from_str("Failed to move mouse"),
            DriverError::ClickFailed => String::from_str("Failed to click"),
            DriverError::PressFailed => String::from_str("Failed to press"),
            DriverError::ReleaseFailed => String::from_str("Failed to release"),
            DriverError::QueryFailed => String::from_str("Failed to get mouse location"),
        }
    }
}

#[verifier::external_type_specification]
#[verifier::external_body]
pub struct ExEnigo(enigo::Enigo);

/// A button actuation at the current pointer location.
#[derive(Clone, Copy, Debug, PartialEq, Eq, Structural)]
pub enum ButtonAction {
    Press,
    Release,
    Click,
}

/// Relies on enigo::Enigo::new with default settings: acquires a fresh
/// handle to the platform input facility.
#[verifier::external_body]
fn acquire_driver() -> (r: Result<enigo::Enigo, ()>) {
    let settings = enigo::Settings::default();
    enigo::Enigo::new(&settings).map_err(|_| ())
}

/// Relies on enigo::Mouse::move_mouse with absolute coordinates: commands
/// the OS to place the pointer at `(x, y)`.
#[verifier::external_body]
fn driver_move(e: &mut enigo::Enigo, x: i32, y: i32) -> (r: Result<(), ()>) {
    e.move_mouse(x, y, enigo::Coordinate::Abs).map_err(|_| ())
}

/// Relies on enigo::Mouse::button with the left button: presses, releases
/// or clicks at the current pointer location.
#[verifier::external_body]
fn driver_button(e: &mut enigo::Enigo, a: ButtonAction) -> (r: Result<(), ()>) {
    let direction = match a {
        ButtonAction::Press => enigo::Direction::Press,
        ButtonAction::Release => enigo::Direction::Release,
        ButtonAction::Click => enigo::Direction::Click,
    };
    e.button(enigo::Button::Left, direction).map_err(|_| ())
}

/// Relies on enigo::Mouse::location: asks the OS for the pointer's
/// current absolute position.
#[verifier::external_body]
fn driver_location(e: &enigo::Enigo) -> (r: Result<(i32, i32), ()>) {
    e.location().map_err(|_| ())
}

/// Reads the pointer's current absolute position, acquiring a fresh
/// driver handle for the query.
pub fn get_mouse_position() -> (r: Result<Position, DriverError>)
    ensures
        r matches Err(e) ==> e == DriverError::InitFailed || e == DriverError::QueryFailed,
{
    match acquire_driver() {
        Err(()) => Err(DriverError::InitFailed),
        Ok(driver) => match driver_location(&driver) {
            Ok((x, y)) => Ok(Position { x, y }),
            Err(()) => Err(DriverError::QueryFailed),
        },
    }
}

/// The error reported when the platform rejects a step; a pause is never
/// rejected.
pub open spec fn step_error(s: Step) -> Option<DriverError> {
    match s {
        Step::MoveTo(_, _) => Some(DriverError::MoveFailed),
        Step::Press => Some(DriverError::PressFailed),
        Step::Release => Some(DriverError::ReleaseFailed),
        Step::Click => Some(DriverError::ClickFailed),
        Step::Wait(_) => None,
    }
}

/// What a finished segment asks of the host next.
#[derive(Clone, Copy, Debug, PartialEq, Eq, Structural)]
pub enum SegmentOutcome {
    /// Pause for the given milliseconds, then run the next segment.
    PauseFor(u64),
    /// The plan is complete.
    Done,
}

/// A gesture in progress: the acquired input driver, the full step plan,
/// and how far it has been carried out. The pointer actions run here; the
/// host performs the pauses between segments, since this crate takes no
/// clock of its own. On an error the run stops at the failing step and
/// physical state stays exactly where the last successful step left it —
/// in mid-drag the button may still be held.
pub struct GestureRun {
    driver: enigo::Enigo,
    plan: Vec<Step>,
    next: usize,
}

impl GestureRun {
    /// The full step plan of this run.
    pub closed spec fn plan_view(self) -> Seq<Step> {
        self.plan@
    }

    /// The index of the next step to carry out.
    pub closed spec fn cursor(self) -> int {
        self.next as int
    }

    /// The cursor never leaves the plan.
    pub closed spec fn wf(self) -> bool {
        self.next <= self.plan@.len()
    }

    /// Acquires a fresh driver handle and stands ready at the plan's
    /// first step. Nothing is carried out yet.
    pub fn start(plan: Vec<Step>) -> (r: Result<GestureRun, DriverError>)
        ensures
            r matches Ok(g) ==> g.wf() && g.plan_view() == plan@ && g.cursor() == 0,
            r matches Err(e) ==> e == DriverError::InitFailed,
    {
        match acquire_driver() {
            Ok(driver) => Ok(GestureRun { driver, plan, next: 0 }),
            Err(()) => Err(DriverError::InitFailed),
        }
    }

    /// Carries out pointer actions until the plan asks for a pause or
    /// ends. On `PauseFor(ms)` the host must pause at least `ms`
    /// milliseconds before the next segment; on an error the cursor
    /// stands on the rejected step and the rest of the plan is abandoned.
    pub fn run_segment(&mut self) -> (r: Result<SegmentOutcome, DriverError>)
        requires
            old(self).wf(),
        ensures
            final(self).wf(),
            final(self).plan_view() == old(self).plan_view(),
            old(self).cursor() <= final(self).cursor(),
            r matches Ok(SegmentOutcome::PauseFor(ms)) ==> {
                &&& old(self).cursor() < final(self).cursor() <= final(self).plan_view().len()
                &&& final(self).plan_view()[final(self).cursor() - 1] == Step::Wait(ms)
                &&& forall|i: int|
                    old(self).cursor() <= i < final(self).cursor() - 1
                        ==> !(#[trigger] final(self).plan_view()[i] is Wait)
            },
            r matches Ok(SegmentOutcome::Done) ==> {
                &&& final(self).cursor() == final(self).plan_view().len()
                &&& forall|i: int|
                    old(self).cursor() <= i < final(self).plan_view().len()
                        ==> !(#[trigger] final(self).plan_view()[i] is Wait)
            },
            r matches Err(e) ==> {
                &&& final(self).cursor() < final(self).plan_view().len()
                &&& step_error(final(self).plan_view()[final(self).cursor()]) == Some(e)
                &&& forall|i: int|
                    old(self).cursor() <= i < final(self).cursor()
                        ==> !(#[trigger] final(self).plan_view()[i] is Wait)
            },
    {
        let ghost start: int = self.next as int;
        while self.next < self.plan.len()
            invariant
                self.wf(),
                self.plan@ == old(self).plan_view(),
                start == old(self).cursor(),
                start <= self.next as int,
                forall|i: int| start <= i < self.next as int ==> !(#[trigger] self.plan@[i] is Wait),
            decreases self.plan@.len() - self.next as int,
        {
            let s = self.plan[self.next];
            match s {
                Step::Wait(ms) => {
                    self.next = self.next + 1;
                    return Ok(SegmentOutcome::PauseFor(ms));
                },
                Step::MoveTo(x, y) => {
                    if driver_move(&mut self.driver, x, y).is_err() {
                        return Err(DriverError::MoveFailed);
                    }
                },
                Step::Press => {
                    if driver_button(&mut self.driver, ButtonAction::Press).is_err() {
                        return Err(DriverError::PressFailed);
                    }
                },
                Step::Release => {
                    if driver_button(&mut self.driver, ButtonAction::Release).is_err() {
                        return Err(DriverError::ReleaseFailed);
                    }
                },
                Step::Click => {
                    if driver_button(&mut self.driver, ButtonAction::Click).is_err() {
                        return Err(DriverError::ClickFailed);
                    }
                },
            }
            self.next = self.next + 1;
        }
        Ok(SegmentOutcome::Done)
    }
}

} // verus!
