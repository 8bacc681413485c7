use receiver::commands::GatewayCommand;
use receiver::display::{
    display_init_plan, splash_image, Brightness, DisplayInitStep, DisplayState, PanelAction,
    SPLASH_IMAGE_WIDTH,
};

fn process(state: &mut DisplayState, cmds: &[GatewayCommand]) {
    for cmd in cmds {
        state.apply(*cmd);
    }
}

#[test]
fn inversion_follows_press_parity() {
    // Three inversion presses followed by brightness presses in any mix:
    // the flag ends up set because three is odd.
    let mut s = DisplayState::new();
    assert!(!s.invert);
    process(
        &mut s,
        &[
            GatewayCommand::COMMAND0,
            GatewayCommand::COMMAND0,
            GatewayCommand::COMMAND0,
            GatewayCommand::COMMAND1,
            GatewayCommand::COMMAND2,
            GatewayCommand::COMMAND2,
            GatewayCommand::COMMAND1,
        ],
    );
    assert!(s.invert);

    // Two presses: even, so the flag is clear again.
    let mut s = DisplayState::new();
    process(&mut s, &[GatewayCommand::COMMAND0, GatewayCommand::COMMAND0]);
    assert!(!s.invert);
}

#[test]
fn apply_returns_the_action_to_render() {
    let mut s = DisplayState::new();
    assert_eq!(s.apply(GatewayCommand::COMMAND0), PanelAction::SetInvert(true));
    assert_eq!(s.apply(GatewayCommand::COMMAND1), PanelAction::SetBrightness(Brightness::Bright));
    assert_eq!(s.apply(GatewayCommand::COMMAND2), PanelAction::SetBrightness(Brightness::Normal));
    assert_eq!(s.apply(GatewayCommand::COMMAND0), PanelAction::SetInvert(false));
}

#[test]
fn brightness_clamps_at_brightest() {
    let mut s = DisplayState::new();
    assert_eq!(s.brightness, Brightness::Normal);
    for _ in 0..10 {
        s.apply(GatewayCommand::COMMAND1);
    }
    assert_eq!(s.brightness, Brightness::Brightest);
    // The clamp is a no-op at the top.
    s.apply(GatewayCommand::COMMAND1);
    assert_eq!(s.brightness, Brightness::Brightest);
}

#[test]
fn brightness_clamps_at_dimmest() {
    let mut s = DisplayState::new();
    for _ in 0..10 {
        s.apply(GatewayCommand::COMMAND2);
    }
    assert_eq!(s.brightness, Brightness::Dimmest);
    s.apply(GatewayCommand::COMMAND2);
    assert_eq!(s.brightness, Brightness::Dimmest);
}

#[test]
fn brightness_steps_one_at_a_time() {
    assert_eq!(Brightness::Dimmest.brighter(), Brightness::Dim);
    assert_eq!(Brightness::Dim.brighter(), Brightness::Normal);
    assert_eq!(Brightness::Normal.brighter(), Brightness::Bright);
    assert_eq!(Brightness::Bright.brighter(), Brightness::Brightest);
    assert_eq!(Brightness::Brightest.brighter(), Brightness::Brightest);
    assert_eq!(Brightness::Brightest.dimmer(), Brightness::Bright);
    assert_eq!(Brightness::Bright.dimmer(), Brightness::Normal);
    assert_eq!(Brightness::Normal.dimmer(), Brightness::Dim);
    assert_eq!(Brightness::Dim.dimmer(), Brightness::Dimmest);
    assert_eq!(Brightness::Dimmest.dimmer(), Brightness::Dimmest);
}

#[test]
fn init_plan_is_the_fixed_sequence() {
    let plan = display_init_plan();
    assert_eq!(
        plan,
        vec![
            DisplayInitStep::PowerOn,
            DisplayInitStep::SetBrightness(Brightness::Dim),
            DisplayInitStep::ClearBuffer,
            DisplayInitStep::DrawSplash,
            DisplayInitStep::DrawHeader,
            DisplayInitStep::Flush,
        ]
    );
}

#[test]
fn splash_image_is_a_16_by_16_bitmap() {
    let image = splash_image();
    assert_eq!(SPLASH_IMAGE_WIDTH, 16);
    assert_eq!(image.len(), 32);
    // The frame: solid first and last rows.
    assert_eq!(image[0], 0b11111111);
    assert_eq!(image[1], 0b11111111);
    assert_eq!(image[30], 0b11111111);
    assert_eq!(image[31], 0b11111111);
    // A middle row of the X.
    assert_eq!(image[8], 0b10001000);
    assert_eq!(image[9], 0b00010001);
}
