//! The display task's state machine.
//!
//! The display task owns the panel exclusively.  It runs a fixed one-time
//! initialization sequence, then consumes commands from the command channel
//! forever, keeping two pieces of state: an inversion flag and a five-step
//! brightness level.  Everything here is the decision logic of that task;
//! the calls that push the decisions to the physical panel stay outside the
//! crate, driven by the actions this module hands out.

use vstd::prelude::*;

use crate::commands::GatewayCommand;

verus! {

/// One of the five panel brightness steps, ordered
/// `Dimmest < Dim < Normal < Bright < Brightest`.
#[derive(Clone, Copy, Debug, PartialEq, Eq, Structural)]
pub enum Brightness {
    Dimmest,
    Dim,
    Normal,
    Bright,
    Brightest,
}

impl Brightness {
    /// The position of this step in the order, from 0 (`Dimmest`)
    /// to 4 (`Brightest`).  Distinct steps have distinct positions, so a
    /// step's position determines the step.
    pub open spec fn level(self) -> int {
        match self {
            Brightness::Dimmest => 0,
            Brightness::Dim => 1,
            Brightness::Normal => 2,
            Brightness::Bright => 3,
            Brightness::Brightest => 4,
        }
    }

    /// The step one above this one, clamped at `Brightest`.
    pub open spec fn spec_brighter(self) -> Brightness {
        match self {
            Brightness::Dimmest => Brightness::Dim,
            Brightness::Dim => Brightness::Normal,
            Brightness::Normal => Brightness::Bright,
            Brightness::Bright => Brightness::Brightest,
            Brightness::Brightest => Brightness::Brightest,
        }
    }

    /// The step one below this one, clamped at `Dimmest`.
    pub open spec fn spec_dimmer(self) -> Brightness {
        match self {
            Brightness::Dimmest => Brightness::Dimmest,
            Brightness::Dim => Brightness::Dimmest,
            Brightness::Normal => Brightness::Dim,
            Brightness::Bright => Brightness::Normal,
            Brightness::Brightest => Brightness::Bright,
        }
    }

    /// Advance one step toward `Brightest`, a no-op at the top.
    pub fn brighter(self) -> (r: Brightness)
        ensures
            r == self.spec_brighter(),
            r.level() == vstd::math::min(self.level() + 1, 4),
    {
        match self {
            Brightness::Dimmest => Brightness::Dim,
            Brightness::Dim => Brightness::Normal,
            Brightness::Normal => Brightness::Bright,
            Brightness::Bright => Brightness::Brightest,
            Brightness::Brightest => Brightness::Brightest,
        }
    }

    /// Advance one step toward `Dimmest`, a no-op at the bottom.
    pub fn dimmer(self) -> (r: Brightness)
        ensures
            r == self.spec_dimmer(),
            r.level() == vstd::math::max(self.level() - 1, 0),
    {
        match self {
            Brightness::Dimmest => Brightness::Dimmest,
            Brightness::Dim => Brightness::Dimmest,
            Brightness::Normal => Brightness::Dim,
            Brightness::Bright => Brightness::Normal,
            Brightness::Brightest => Brightness::Bright,
        }
    }
}

/// What the display task must apply to the physical panel after it has
/// consumed one command.
#[derive(Clone, Copy, Debug, PartialEq, Eq, Structural)]
pub enum PanelAction {
    /// Set the panel's inversion to the given flag.
    SetInvert(bool),
    /// Set the panel's brightness to the given step.
    SetBrightness(Brightness),
}

/// The on-screen state owned exclusively by the display task: the current
/// inversion flag and the current brightness step.
#[derive(Clone, Copy, Debug, PartialEq, Eq, Structural)]
pub struct DisplayState {
    pub invert: bool,
    pub brightness: Brightness,
}

impl DisplayState {
    /// The state the display task enters its command loop with: not
    /// inverted, brightness at `Normal`.
    pub open spec fn spec_init() -> DisplayState {
        DisplayState { invert: false, brightness: Brightness::Normal }
    }

    /// The state after consuming one command: `COMMAND0` toggles the
    /// inversion flag, `COMMAND1` raises the brightness one step clamped at
    /// `Brightest`, `COMMAND2` lowers it one step clamped at `Dimmest`.
    pub open spec fn spec_apply(self, cmd: GatewayCommand) -> DisplayState {
        match cmd {
            GatewayCommand::COMMAND0 => DisplayState { invert: !self.invert, ..self },
            GatewayCommand::COMMAND1 => DisplayState { brightness: self.brightness.spec_brighter(), ..self },
            GatewayCommand::COMMAND2 => DisplayState { brightness: self.brightness.spec_dimmer(), ..self },
        }
    }

    /// The state the display task enters its command loop with.
    pub fn new() -> (r: DisplayState)
        ensures
            r == DisplayState::spec_init(),
    {
        DisplayState { invert: false, brightness: Brightness::Normal }
    }

    /// Consume one command: update the state and return the one action the
    /// task must apply to the panel.
    pub fn apply(&mut self, cmd: GatewayCommand) -> (action: PanelAction)
        ensures
            *final(self) == old(self).spec_apply(cmd),
            action == (match cmd {
                GatewayCommand::COMMAND0 => PanelAction::SetInvert(!old(self).invert),
                GatewayCommand::COMMAND1 => PanelAction::SetBrightness(old(self).brightness.spec_brighter()),
                GatewayCommand::COMMAND2 => PanelAction::SetBrightness(old(self).brightness.spec_dimmer()),
            }),
    {
        match cmd {
            GatewayCommand::COMMAND0 => {
                self.invert = !self.invert;
                PanelAction::SetInvert(self.invert)
            }
            GatewayCommand::COMMAND1 => {
                self.brightness = self.brightness.brighter();
                PanelAction::SetBrightness(self.brightness)
            }
            GatewayCommand::COMMAND2 => {
                self.brightness = self.brightness.dimmer();
                PanelAction::SetBrightness(self.brightness)
            }
        }
    }
}

/// The state after consuming a whole sequence of commands, first first.
pub open spec fn spec_process(s: DisplayState, cmds: Seq<GatewayCommand>) -> DisplayState
    decreases cmds.len(),
{
    if cmds.len() == 0 {
        s
    } else {
        spec_process(s.spec_apply(cmds[0]), cmds.skip(1))
    }
}

/// How many commands of a sequence are `COMMAND0` (inversion toggles).
pub open spec fn count_inverts(cmds: Seq<GatewayCommand>) -> nat
    decreases cmds.len(),
{
    if cmds.len() == 0 {
        0
    } else {
        (if cmds[0] is COMMAND0 { 1nat } else { 0nat }) + count_inverts(cmds.skip(1))
    }
}

/// Inversion parity: consuming a sequence of commands leaves the inversion
/// flag flipped exactly when the sequence holds an odd number of `COMMAND0`;
/// the other commands never touch the flag.
pub proof fn lemma_invert_parity(s: DisplayState, cmds: Seq<GatewayCommand>)
    ensures
        spec_process(s, cmds).invert == (if count_inverts(cmds) % 2 == 0 { s.invert } else { !s.invert }),
    decreases cmds.len(),
{
    if cmds.len() > 0 {
        lemma_invert_parity(s.spec_apply(cmds[0]), cmds.skip(1));
    }
}

/// `count_inverts` distributes over concatenation.
pub proof fn lemma_count_inverts_add(a: Seq<GatewayCommand>, b: Seq<GatewayCommand>)
    ensures
        count_inverts(a + b) == count_inverts(a) + count_inverts(b),
    decreases a.len(),
{
    if a.len() == 0 {
        assert(a + b =~= b);
    } else {
        assert((a + b).skip(1) =~= a.skip(1) + b);
        lemma_count_inverts_add(a.skip(1), b);
    }
}

/// A sequence with no `COMMAND0` holds zero inversion toggles.
pub proof fn lemma_count_inverts_none(cmds: Seq<GatewayCommand>)
    requires
        forall|i: int| 0 <= i < cmds.len() ==> cmds[i] !is COMMAND0,
    ensures
        count_inverts(cmds) == 0,
    decreases cmds.len(),
{
    if cmds.len() > 0 {
        lemma_count_inverts_none(cmds.skip(1));
    }
}

/// A run of `n` `COMMAND0` presses holds exactly `n` inversion toggles.
pub proof fn lemma_count_inverts_presses(n: nat)
    ensures
        count_inverts(Seq::new(n, |i: int| GatewayCommand::COMMAND0)) == n,
    decreases n,
{
    let s = Seq::new(n, |i: int| GatewayCommand::COMMAND0);
    if n > 0 {
        assert(s.skip(1) =~= Seq::new((n - 1) as nat, |i: int| GatewayCommand::COMMAND0));
        lemma_count_inverts_presses((n - 1) as nat);
    }
}

/// After `n` presses of the inversion button followed by any interleaving of
/// the two brightness buttons, the inversion flag is set exactly when `n` is
/// odd.
pub proof fn lemma_invert_after_presses(n: nat, tail: Seq<GatewayCommand>)
    requires
        forall|i: int| 0 <= i < tail.len() ==> tail[i] !is COMMAND0,
    ensures
        spec_process(
            DisplayState::spec_init(),
            Seq::new(n, |i: int| GatewayCommand::COMMAND0) + tail,
        ).invert == (n % 2 == 1),
{
    let presses = Seq::new(n, |i: int| GatewayCommand::COMMAND0);
    lemma_count_inverts_presses(n);
    lemma_count_inverts_none(tail);
    lemma_count_inverts_add(presses, tail);
    lemma_invert_parity(DisplayState::spec_init(), presses + tail);
}

/// One step of the display task's one-time initialization sequence, run
/// before the command loop starts.
#[derive(Clone, Copy, Debug, PartialEq, Eq, Structural)]
pub enum DisplayInitStep {
    /// Power the panel on.
    PowerOn,
    /// Set the panel to the given brightness step.
    SetBrightness(Brightness),
    /// Clear the frame buffer.
    ClearBuffer,
    /// Draw the fixed splash image at the top-left corner.
    DrawSplash,
    /// Draw the fixed header text line.
    DrawHeader,
    /// Flush the frame buffer to the physical panel.
    Flush,
}

/// The fixed initialization sequence of the display task: power on, panel
/// brightness to `Dim`, clear the frame buffer, draw the splash image and
/// the header text, flush.  The command loop that follows starts from
/// [`DisplayState::spec_init`].  Any failure while running this sequence is
/// fatal for the display task.
pub fn display_init_plan() -> (plan: Vec<DisplayInitStep>)
    ensures
        plan@ == seq![
            DisplayInitStep::PowerOn,
            DisplayInitStep::SetBrightness(Brightness::Dim),
            DisplayInitStep::ClearBuffer,
            DisplayInitStep::DrawSplash,
            DisplayInitStep::DrawHeader,
            DisplayInitStep::Flush,
        ],
{
    let mut plan: Vec<DisplayInitStep> = Vec::new();
    plan.push(DisplayInitStep::PowerOn);
    plan.push(DisplayInitStep::SetBrightness(Brightness::Dim));
    plan.push(DisplayInitStep::ClearBuffer);
    plan.push(DisplayInitStep::DrawSplash);
    plan.push(DisplayInitStep::DrawHeader);
    plan.push(DisplayInitStep::Flush);
    proof {
        assert(plan@ =~= seq![
            DisplayInitStep::PowerOn,
            DisplayInitStep::SetBrightness(Brightness::Dim),
            DisplayInitStep::ClearBuffer,
            DisplayInitStep::DrawSplash,
            DisplayInitStep::DrawHeader,
            DisplayInitStep::Flush,
        ]);
    }
    plan
}

/// The splash image is 16 pixels wide, one bit per pixel.
pub const SPLASH_IMAGE_WIDTH: u32 = 16;

/// The rows of the splash image: a 16-by-16 boxed letter X, two bytes per
/// row, most significant bit leftmost.
pub open spec fn splash_image_spec() -> Seq<u8> {
    seq![
        0b11111111u8, 0b11111111u8, 0b11000000u8, 0b00000011u8,
        0b10100000u8, 0b00000101u8, 0b10010000u8, 0b00001001u8,
        0b10001000u8, 0b00010001u8, 0b10000100u8, 0b00100001u8,
        0b10000010u8, 0b01000001u8, 0b10000001u8, 0b10000001u8,
        0b10000001u8, 0b10000001u8, 0b10000010u8, 0b01000001u8,
        0b10000100u8, 0b00100001u8, 0b10001000u8, 0b00010001u8,
        0b10010000u8, 0b00001001u8, 0b10100000u8, 0b00000101u8,
        0b11000000u8, 0b00000011u8, 0b11111111u8, 0b11111111u8,
    ]
}

/// The bitmap drawn by the `DrawSplash` initialization step.
pub fn splash_image() -> (r: Vec<u8>)
    ensures
        r@ == splash_image_spec(),
{
    let mut r: Vec<u8> = Vec::new();
    r.push(0b11111111u8);
    r.push(0b11111111u8);
    r.push(0b11000000u8);
    r.push(0b00000011u8);
    r.push(0b10100000u8);
    r.push(0b00000101u8);
    r.push(0b10010000u8);
    r.push(0b00001001u8);
    r.push(0b10001000u8);
    r.push(0b00010001u8);
    r.push(0b10000100u8);
    r.push(0b00100001u8);
    r.push(0b10000010u8);
    r.push(0b01000001u8);
    r.push(0b10000001u8);
    r.push(0b10000001u8);
    r.push(0b10000001u8);
    r.push(0b10000001u8);
    r.push(0b10000010u8);
    r.push(0b01000001u8);
    r.push(0b10000100u8);
    r.push(0b00100001u8);
    r.push(0b10001000u8);
    r.push(0b00010001u8);
    r.push(0b10010000u8);
    r.push(0b00001001u8);
    r.push(0b10100000u8);
    r.push(0b00000101u8);
    r.push(0b11000000u8);
    r.push(0b00000011u8);
    r.push(0b11111111u8);
    r.push(0b11111111u8);
    proof {
        assert(r@ =~= splash_image_spec());
    }
    r
}

/// Raising the brightness `n` times moves the level to
/// `min(start + n, 4)`: it climbs one step per press and clamps at
/// `Brightest`, so it never exceeds `Brightest` however long the run is.
pub proof fn lemma_brightness_up_clamped(s: DisplayState, n: nat)
    ensures
        spec_process(s, Seq::new(n, |i: int| GatewayCommand::COMMAND1)).brightness.level()
            == vstd::math::min(s.brightness.level() + n, 4),
    decreases n,
{
    let cmds = Seq::new(n, |i: int| GatewayCommand::COMMAND1);
    if n > 0 {
        assert(cmds.skip(1) =~= Seq::new((n - 1) as nat, |i: int| GatewayCommand::COMMAND1));
        lemma_brightness_up_clamped(s.spec_apply(cmds[0]), (n - 1) as nat);
    }
}

/// Lowering the brightness `n` times moves the level to
/// `max(start - n, 0)`: it descends one step per press and clamps at
/// `Dimmest`, so it never goes below `Dimmest` however long the run is.
pub proof fn lemma_brightness_down_clamped(s: DisplayState, n: nat)
    ensures
        spec_process(s, Seq::new(n, |i: int| GatewayCommand::COMMAND2)).brightness.level()
            == vstd::math::max(s.brightness.level() - n, 0),
    decreases n,
{
    let cmds = Seq::new(n, |i: int| GatewayCommand::COMMAND2);
    if n > 0 {
        assert(cmds.skip(1) =~= Seq::new((n - 1) as nat, |i: int| GatewayCommand::COMMAND2));
        lemma_brightness_down_clamped(s.spec_apply(cmds[0]), (n - 1) as nat);
    }
}

} // verus!
