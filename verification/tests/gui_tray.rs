use lecoo_control::gui::tray::{
    queue_action, startup_command, starts_minimized, tray_action_for_menu_id, tray_icon_rgba,
    TrayAction, TrayController,
};

#[test]
fn tray_icon_rgba_is_a_complete_square_image() {
    let pixels = tray_icon_rgba();
    assert_eq!(pixels.len(), 32 * 32 * 4);
    assert!(pixels.chunks_exact(4).any(|pixel| pixel == [255, 255, 255, 255]));
    assert!(pixels.chunks_exact(4).any(|pixel| pixel == [25, 110, 190, 255]));
}

#[test]
fn tray_menu_ids_map_to_the_expected_actions() {
    assert_eq!(tray_action_for_menu_id("show-window"), Some(TrayAction::Show));
    assert_eq!(tray_action_for_menu_id("hide-window"), Some(TrayAction::Hide));
    assert_eq!(tray_action_for_menu_id("exit-app"), Some(TrayAction::Exit));
    assert_eq!(tray_action_for_menu_id("unknown"), None);
}

#[test]
fn startup_command_quotes_program_path_and_starts_minimized() {
    let executable =
        std::path::Path::new(r"C:\Program Files\LecooControlCenter\lecoo-control-center.exe");
    assert_eq!(
        startup_command(&executable.display().to_string()),
        r#""C:\Program Files\LecooControlCenter\lecoo-control-center.exe" --minimized"#
    );
}

#[test]
fn tray_icon_pixels_by_place() {
    let pixels = tray_icon_rgba();
    let pixel = |x: usize, y: usize| pixels[(y * 32 + x) * 4..(y * 32 + x) * 4 + 4].to_vec();
    assert_eq!(pixel(0, 0), vec![0, 0, 0, 0]);
    assert_eq!(pixel(15, 1), vec![25, 110, 190, 255]);
    assert_eq!(pixel(15, 0), vec![0, 0, 0, 0]);
    assert_eq!(pixel(11, 8), vec![255, 255, 255, 255]);
    assert_eq!(pixel(22, 23), vec![255, 255, 255, 255]);
    assert_eq!(pixel(23, 23), vec![25, 110, 190, 255]);
}

#[test]
fn actions_are_drained_once_and_in_order() {
    let mut controller = TrayController::new();
    queue_action(&mut controller, TrayAction::Show);
    queue_action(&mut controller, TrayAction::Hide);
    queue_action(&mut controller, TrayAction::Show);
    assert_eq!(
        controller.drain_actions(),
        vec![TrayAction::Show, TrayAction::Hide, TrayAction::Show]
    );
    assert_eq!(controller.drain_actions(), Vec::new());
}

#[test]
fn only_the_exact_argument_starts_minimized() {
    let arguments = |list: &[&str]| list.iter().map(|a| a.to_string()).collect::<Vec<_>>();
    assert!(starts_minimized(&arguments(&["app", "--minimized"])));
    assert!(!starts_minimized(&arguments(&["app", "--minimized=1"])));
    assert!(!starts_minimized(&arguments(&[])));
}
