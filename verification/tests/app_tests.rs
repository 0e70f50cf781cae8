use vulkan_engine::app::{App, AppAction, WindowSignal};
use vulkan_engine::utils::GameInfo;

fn info() -> GameInfo {
    GameInfo { app_name: "Test".to_string(), major: 0, minor: 0, patch: 1 }
}

#[test]
fn new_app_is_uninitialised() {
    let app: App<u32> = App::new(info());
    assert!(!app.is_initialised());
    assert!(matches!(app, App::Uninitialised { game_info } if game_info.app_name == "Test"));
}

#[test]
fn init_brings_the_app_up_with_the_built_context() {
    let app: App<String> = App::new(info());
    let app = app.init(|game_info: GameInfo| format!("{} {}", game_info.app_name, game_info.patch));
    assert!(app.is_initialised());
    assert!(matches!(app, App::Initialised(context) if context == "Test 1"));
}

#[test]
fn uninitialised_app_only_answers_activation_and_close() {
    let app: App<u32> = App::new(info());
    assert_eq!(app.window_event(WindowSignal::Resumed), AppAction::Initialise);
    assert_eq!(app.window_event(WindowSignal::CloseRequested), AppAction::Exit);
    assert_eq!(app.window_event(WindowSignal::Resized), AppAction::Ignore);
    assert_eq!(app.window_event(WindowSignal::RedrawRequested), AppAction::Ignore);
    assert_eq!(app.window_event(WindowSignal::Other), AppAction::Ignore);
}

#[test]
fn initialised_app_renders_and_invalidates() {
    let app: App<u32> = App::new(info()).init(|_game_info: GameInfo| 7);
    assert_eq!(app.window_event(WindowSignal::Resumed), AppAction::Ignore);
    assert_eq!(app.window_event(WindowSignal::CloseRequested), AppAction::Exit);
    assert_eq!(app.window_event(WindowSignal::Resized), AppAction::InvalidateSwapchain);
    assert_eq!(app.window_event(WindowSignal::RedrawRequested), AppAction::RenderAndRedraw);
    assert_eq!(app.window_event(WindowSignal::Other), AppAction::Ignore);
}
