//! Game actions driven by the capture side's controllers: each button and
//! axis is bound to a named action, and the action table keeps the latest
//! state of every action for display.
use vstd::prelude::*;
use crate::latest::{entries_map, names_unique, LatestValues};
use crate::normalizer::{RawAxis, RawButton};
use crate::scaling::{is_pressed_level, trigger_pressed};

verus! {

/// The action bound to a button, if any.
pub open spec fn button_action(b: RawButton) -> Option<Seq<char>> {
    match b {
        RawButton::South => Some("A (South) [ID: 0] - Jump"@),
        RawButton::East => Some("B (East) [ID: 1] - Fire"@),
        RawButton::West => Some("X (West) [ID: 2] - Reload"@),
        RawButton::North => Some("Y (North) [ID: 3] - Menu"@),
        RawButton::LeftTrigger => Some("LB [ID: 4] - Use"@),
        RawButton::RightTrigger => Some("RB [ID: 5] - Sprint"@),
        RawButton::LeftTrigger2 => Some("LT [ID: 6] - Aim"@),
        RawButton::RightTrigger2 => Some("RT [ID: 7] - Fire"@),
        RawButton::LeftThumb => Some("LSB [ID: 8] - Sprint"@),
        RawButton::RightThumb => Some("RSB [ID: 9] - Crouch"@),
        RawButton::Start => Some("Start [ID: 10] - Menu"@),
        RawButton::Select => Some("Select [ID: 11] - Map"@),
        RawButton::DPadUp => Some("D-Pad Up [ID: 12] - Quick Action 1"@),
        RawButton::DPadDown => Some("D-Pad Down [ID: 13] - Quick Action 2"@),
        RawButton::DPadLeft => Some("D-Pad Left [ID: 14] - Quick Action 3"@),
        RawButton::DPadRight => Some("D-Pad Right [ID: 15] - Quick Action 4"@),
        _ => None,
    }
}

/// The action bound to an axis, if any; both components of a stick share one.
pub open spec fn axis_action(a: RawAxis) -> Option<Seq<char>> {
    match a {
        RawAxis::LeftStickX | RawAxis::LeftStickY => Some("Left Stick - Move"@),
        RawAxis::RightStickX | RawAxis::RightStickY => Some("Right Stick - Look"@),
        RawAxis::LeftZ => Some("Left Trigger - Aim"@),
        RawAxis::RightZ => Some("Right Trigger - Fire"@),
        _ => None,
    }
}

/// The digital actions at start: every bound button released.
pub open spec fn initial_digital() -> Map<Seq<char>, bool> {
    Map::empty().insert("A (South) [ID: 0] - Jump"@, false).insert(
        "B (East) [ID: 1] - Fire"@,
        false,
    ).insert("X (West) [ID: 2] - Reload"@, false).insert("Y (North) [ID: 3] - Menu"@, false).insert(
        "LB [ID: 4] - Use"@,
        false,
    ).insert("RB [ID: 5] - Sprint"@, false).insert("LT [ID: 6] - Aim"@, false).insert(
        "RT [ID: 7] - Fire"@,
        false,
    ).insert("LSB [ID: 8] - Sprint"@, false).insert("RSB [ID: 9] - Crouch"@, false).insert(
        "Start [ID: 10] - Menu"@,
        false,
    ).insert("Select [ID: 11] - Map"@, false).insert("D-Pad Up [ID: 12] - Quick Action 1"@, false).insert(
        "D-Pad Down [ID: 13] - Quick Action 2"@,
        false,
    ).insert("D-Pad Left [ID: 14] - Quick Action 3"@, false).insert(
        "D-Pad Right [ID: 15] - Quick Action 4"@,
        false,
    )
}

/// The analog actions at start: every bound axis centred.
pub open spec fn initial_analog() -> Map<Seq<char>, (i32, i32)> {
    Map::empty().insert("Left Stick - Move"@, (0i32, 0i32)).insert("Right Stick - Look"@, (0i32, 0i32)).insert(
        "Left Trigger - Aim"@,
        (0i32, 0i32),
    ).insert("Right Trigger - Fire"@, (0i32, 0i32))
}

/// A stick's vertical reading turned for game controls (up is positive),
/// held in the range of `i32`.
pub open spec fn turned(v: i32) -> i32 {
    if v == i32::MIN {
        i32::MAX
    } else {
        (-v) as i32
    }
}

/// What the action table holds: whether it is live, the controllers seen,
/// and the latest state of each digital and analog action (readings in
/// millionths, as `(x, y)`).
pub struct SteamInputView {
    pub initialized: bool,
    pub controllers: Seq<u32>,
    pub digital: Map<Seq<char>, bool>,
    pub analog: Map<Seq<char>, (i32, i32)>,
}

/// The analog actions after an axis reading `v` bound to action `n`, whose
/// current value is `cur`: a stick's X sets the first component, its Y the
/// second (turned), and a trigger sets the first and clears the second.
pub open spec fn analog_after(a: RawAxis, v: i32, cur: (i32, i32)) -> (i32, i32) {
    match a {
        RawAxis::LeftStickY | RawAxis::RightStickY => (cur.0, turned(v)),
        RawAxis::LeftZ | RawAxis::RightZ => (v, 0),
        _ => (v, cur.1),
    }
}

/// The digital action that mirrors a trigger axis, if `a` is one.
pub open spec fn trigger_action(a: RawAxis) -> Option<Seq<char>> {
    match a {
        RawAxis::LeftZ => Some("LT [ID: 6] - Aim"@),
        RawAxis::RightZ => Some("RT [ID: 7] - Fire"@),
        _ => None,
    }
}

/// The table after input from controller `id`: the controller is added if
/// new; a bound button sets its action; a bound axis updates its action,
/// and a trigger axis also sets its mirroring button, pressed exactly when
/// the reading is above 0.1. A table that is not live is left alone.
pub open spec fn after_input(
    s: SteamInputView,
    id: u32,
    button: Option<(RawButton, bool)>,
    axis: Option<(RawAxis, i32)>,
) -> SteamInputView {
    if !s.initialized {
        s
    } else {
        let controllers = if s.controllers.contains(id) {
            s.controllers
        } else {
            s.controllers.push(id)
        };
        let digital = match button {
            Some((b, p)) => match button_action(b) {
                Some(n) => s.digital.insert(n, p),
                None => s.digital,
            },
            None => s.digital,
        };
        match axis {
            Some((a, v)) => match axis_action(a) {
                Some(n) => {
                    let cur = if s.analog.contains_key(n) {
                        s.analog[n]
                    } else {
                        (0i32, 0i32)
                    };
                    SteamInputView {
                        controllers,
                        digital: match trigger_action(a) {
                            Some(t) => digital.insert(t, is_pressed_level(v as int)),
                            None => digital,
                        },
                        analog: s.analog.insert(n, analog_after(a, v, cur)),
                        ..s
                    }
                },
                None => SteamInputView { controllers, digital, ..s },
            },
            None => SteamInputView { controllers, digital, ..s },
        }
    }
}

fn button_action_name(b: RawButton) -> (r: Option<String>)
    ensures
        match r {
            Some(s) => button_action(b) == Some(s@),
            None => button_action(b) is None,
        },
{
    match b {
        RawButton::South => Some("A (South) [ID: 0] - Jump".to_owned()),
        RawButton::East => Some("B (East) [ID: 1] - Fire".to_owned()),
        RawButton::West => Some("X (West) [ID: 2] - Reload".to_owned()),
        RawButton::North => Some("Y (North) [ID: 3] - Menu".to_owned()),
        RawButton::LeftTrigger => Some("LB [ID: 4] - Use".to_owned()),
        RawButton::RightTrigger => Some("RB [ID: 5] - Sprint".to_owned()),
        RawButton::LeftTrigger2 => Some("LT [ID: 6] - Aim".to_owned()),
        RawButton::RightTrigger2 => Some("RT [ID: 7] - Fire".to_owned()),
        RawButton::LeftThumb => Some("LSB [ID: 8] - Sprint".to_owned()),
        RawButton::RightThumb => Some("RSB [ID: 9] - Crouch".to_owned()),
        RawButton::Start => Some("Start [ID: 10] - Menu".to_owned()),
        RawButton::Select => Some("Select [ID: 11] - Map".to_owned()),
        RawButton::DPadUp => Some("D-Pad Up [ID: 12] - Quick Action 1".to_owned()),
        RawButton::DPadDown => Some("D-Pad Down [ID: 13] - Quick Action 2".to_owned()),
        RawButton::DPadLeft => Some("D-Pad Left [ID: 14] - Quick Action 3".to_owned()),
        RawButton::DPadRight => Some("D-Pad Right [ID: 15] - Quick Action 4".to_owned()),
        _ => None,
    }
}

fn axis_action_name(a: RawAxis) -> (r: Option<String>)
    ensures
        match r {
            Some(s) => axis_action(a) == Some(s@),
            None => axis_action(a) is None,
        },
{
    match a {
        RawAxis::LeftStickX | RawAxis::LeftStickY => Some("Left Stick - Move".to_owned()),
        RawAxis::RightStickX | RawAxis::RightStickY => Some("Right Stick - Look".to_owned()),
        RawAxis::LeftZ => Some("Left Trigger - Aim".to_owned()),
        RawAxis::RightZ => Some("Right Trigger - Fire".to_owned()),
        _ => None,
    }
}

/// Whether `ids` holds `id`.
fn holds(ids: &Vec<u32>, id: u32) -> (r: bool)
    ensures
        r == ids@.contains(id),
{
    let mut i: usize = 0;
    while i < ids.len()
        invariant
            i <= ids@.len(),
            forall|j: int| 0 <= j < i ==> ids@[j] != id,
        decreases ids@.len() - i,
    {
        if ids[i] == id {
            return true;
        }
        i += 1;
    }
    false
}

/// `v` turned for game controls, held in the range of `i32`.
fn turn(v: i32) -> (r: i32)
    ensures
        r == turned(v),
{
    if v == i32::MIN {
        i32::MAX
    } else {
        -v
    }
}

/// The game actions bound to the controllers' buttons and axes, with the
/// latest state of each.
pub struct SteamInputManager {
    initialized: bool,
    digital_actions: LatestValues<bool>,
    analog_actions: LatestValues<(i32, i32)>,
    controller_handles: Vec<u32>,
}

impl View for SteamInputManager {
    type V = SteamInputView;

    closed spec fn view(&self) -> SteamInputView {
        SteamInputView {
            initialized: self.initialized,
            controllers: self.controller_handles@,
            digital: self.digital_actions.map(),
            analog: self.analog_actions.map(),
        }
    }
}

impl SteamInputManager {
    /// Whether the action tables are well formed.
    pub closed spec fn wf(&self) -> bool {
        self.digital_actions.wf() && self.analog_actions.wf()
    }

    /// A live table with every bound action at rest and no controller seen.
    pub fn new() -> (r: Self)
        ensures
            r.wf(),
            r@ == (SteamInputView {
                initialized: true,
                controllers: Seq::empty(),
                digital: initial_digital(),
                analog: initial_analog(),
            }),
    {
        let mut digital = LatestValues::new();
        digital.record("A (South) [ID: 0] - Jump", false);
        digital.record("B (East) [ID: 1] - Fire", false);
        digital.record("X (West) [ID: 2] - Reload", false);
        digital.record("Y (North) [ID: 3] - Menu", false);
        digital.record("LB [ID: 4] - Use", false);
        digital.record("RB [ID: 5] - Sprint", false);
        digital.record("LT [ID: 6] - Aim", false);
        digital.record("RT [ID: 7] - Fire", false);
        digital.record("LSB [ID: 8] - Sprint", false);
        digital.record("RSB [ID: 9] - Crouch", false);
        digital.record("Start [ID: 10] - Menu", false);
        digital.record("Select [ID: 11] - Map", false);
        digital.record("D-Pad Up [ID: 12] - Quick Action 1", false);
        digital.record("D-Pad Down [ID: 13] - Quick Action 2", false);
        digital.record("D-Pad Left [ID: 14] - Quick Action 3", false);
        digital.record("D-Pad Right [ID: 15] - Quick Action 4", false);
        let mut analog = LatestValues::new();
        analog.record("Left Stick - Move", (0, 0));
        analog.record("Right Stick - Look", (0, 0));
        analog.record("Left Trigger - Aim", (0, 0));
        analog.record("Right Trigger - Fire", (0, 0));
        let r = SteamInputManager {
            initialized: true,
            digital_actions: digital,
            analog_actions: analog,
            controller_handles: Vec::new(),
        };
        assert(r@.controllers =~= Seq::<u32>::empty());
        r
    }

    /// Takes input from controller `controller_id`: at most one button
    /// change and one axis reading (in millionths).
    pub fn update_from_controller_input(
        &mut self,
        controller_id: u32,
        button: Option<(RawButton, bool)>,
        axis: Option<(RawAxis, i32)>,
    )
        requires
            old(self).wf(),
        ensures
            final(self).wf(),
            final(self)@ == after_input(old(self)@, controller_id, button, axis),
    {
        if !self.initialized {
            return;
        }
        if !holds(&self.controller_handles, controller_id) {
            self.controller_handles.push(controller_id);
        }
        if let Some((b, pressed)) = button {
            if let Some(name) = button_action_name(b) {
                self.digital_actions.record(name.as_str(), pressed);
            }
        }
        if let Some((a, v)) = axis {
            if let Some(name) = axis_action_name(a) {
                let cur = match self.analog_actions.get(name.as_str()) {
                    Some(c) => c,
                    None => (0, 0),
                };
                let next = match a {
                    RawAxis::LeftStickY | RawAxis::RightStickY => (cur.0, turn(v)),
                    RawAxis::LeftZ | RawAxis::RightZ => (v, 0),
                    _ => (v, cur.1),
                };
                match a {
                    RawAxis::LeftZ => self.digital_actions.record("LT [ID: 6] - Aim", trigger_pressed(v)),
                    RawAxis::RightZ => self.digital_actions.record("RT [ID: 7] - Fire", trigger_pressed(v)),
                    _ => {},
                }
                self.analog_actions.record(name.as_str(), next);
            }
        }
    }

    /// Forgets a controller; when none is left, every action returns to rest.
    pub fn remove_controller(&mut self, controller_id: u32)
        requires
            old(self).wf(),
        ensures
            final(self).wf(),
            final(self)@.controllers == old(self)@.controllers.filter(|c: u32| c != controller_id),
            final(self)@.initialized == old(self)@.initialized,
            final(self)@.controllers.len() == 0 ==> final(self)@.digital == Map::new(
                |k: Seq<char>| old(self)@.digital.contains_key(k),
                |k: Seq<char>| false,
            ) && final(self)@.analog == Map::new(
                |k: Seq<char>| old(self)@.analog.contains_key(k),
                |k: Seq<char>| (0i32, 0i32),
            ),
            final(self)@.controllers.len() > 0 ==> final(self)@.digital == old(self)@.digital
                && final(self)@.analog == old(self)@.analog,
    {
        let ghost start = self.controller_handles@;
        let mut kept: Vec<u32> = Vec::new();
        let mut i: usize = 0;
        while i < self.controller_handles.len()
            invariant
                i <= start.len(),
                self.controller_handles@ == start,
                kept@ == start.take(i as int).filter(|c: u32| c != controller_id),
            decreases start.len() - i,
        {
            let c = self.controller_handles[i];
            proof {
                reveal(Seq::filter);
                assert(start.take(i + 1).drop_last() =~= start.take(i as int));
                assert(start.take(i + 1).last() == c);
            }
            if c != controller_id {
                kept.push(c);
            }
            i += 1;
        }
        assert(start.take(i as int) =~= start);
        self.controller_handles = kept;
        if self.controller_handles.len() == 0 {
            self.digital_actions.reset_all(false);
            self.analog_actions.reset_all((0, 0));
        }
    }

    /// Whether the table is live.
    pub fn is_initialized(&self) -> (r: bool)
        ensures
            r == self@.initialized,
    {
        self.initialized
    }

    /// Stops the table; later input is ignored.
    pub fn shutdown(&mut self)
        requires
            old(self).wf(),
        ensures
            final(self).wf(),
            final(self)@ == (SteamInputView { initialized: false, ..old(self)@ }),
    {
        self.initialized = false;
    }

    /// The digital actions, one entry per action.
    pub fn get_digital_actions(&self) -> (r: &Vec<(String, bool)>)
        requires
            self.wf(),
        ensures
            entries_map(r@) == self@.digital,
            names_unique(r@),
    {
        self.digital_actions.entries()
    }

    /// The analog actions, one entry per action, readings as `(x, y)`.
    pub fn get_analog_actions(&self) -> (r: &Vec<(String, (i32, i32))>)
        requires
            self.wf(),
        ensures
            entries_map(r@) == self@.analog,
            names_unique(r@),
    {
        self.analog_actions.entries()
    }

    /// How many controllers have been seen and not removed.
    pub fn get_controller_count(&self) -> (r: usize)
        ensures
            r == self@.controllers.len(),
    {
        self.controller_handles.len()
    }

    /// The ids of the controllers seen and not removed, in order of arrival.
    pub fn controller_ids(&self) -> (r: &Vec<u32>)
        ensures
            r@ == self@.controllers,
    {
        &self.controller_handles
    }

    /// The action bound to a button.
    pub fn get_action_for_button(&self, button: RawButton) -> (r: Option<String>)
        ensures
            match r {
                Some(s) => button_action(button) == Some(s@),
                None => button_action(button) is None,
            },
    {
        button_action_name(button)
    }

    /// The action bound to an axis.
    pub fn get_action_for_axis(&self, axis: RawAxis) -> (r: Option<String>)
        ensures
            match r {
                Some(s) => axis_action(axis) == Some(s@),
                None => axis_action(axis) is None,
            },
    {
        axis_action_name(axis)
    }
}

} // verus!
