use rand::rngs::StdRng;
use rand::SeedableRng;
use wanderball::components::shapes::circle::Circle;
use wanderball::components::shapes::rectangle::Rectangle;
use wanderball::components::transform::Transform;
use wanderball::components::videographer::Videographer;
use wanderball::components::wanderdata::Pedometer;
use wanderball::config::WanderballConfig;
use wanderball::resources::save::{
    BallRecord, GameRecord, PathSegmentRecord, PedometerRecord, VideographerRecord,
};
use wanderball::states::event::{hits, StateEvent, Transition};
use wanderball::states::game::Wanderball;
use wanderball::states::menu::Menu;
use wanderball::states::start::StartScreen;

fn menu() -> Menu {
    Menu {
        ui_root: Some(1),
        button_resume: Some(2),
        button_restart: Some(3),
        button_save: Some(4),
        button_load: Some(5),
        button_quit: Some(6),
    }
}

#[test]
fn the_menu_answers_its_buttons() {
    let m = menu();
    assert_eq!(m.handle_event(StateEvent::Click(2)), Transition::Resume);
    assert_eq!(m.handle_event(StateEvent::Click(3)), Transition::NewGame);
    assert_eq!(m.handle_event(StateEvent::Click(4)), Transition::SaveGame);
    assert_eq!(m.handle_event(StateEvent::Click(5)), Transition::LoadGame);
    assert_eq!(m.handle_event(StateEvent::Click(6)), Transition::Quit);
    assert_eq!(m.handle_event(StateEvent::Click(1)), Transition::Stay);
    assert_eq!(m.handle_event(StateEvent::Click(7)), Transition::Stay);
}

#[test]
fn the_menu_answers_the_window_and_the_escape_key() {
    let m = menu();
    assert_eq!(m.handle_event(StateEvent::CloseRequested), Transition::Quit);
    assert_eq!(m.handle_event(StateEvent::EscapePressed), Transition::Resume);
    assert_eq!(m.handle_event(StateEvent::Other), Transition::Stay);
}

#[test]
fn a_menu_without_buttons_answers_no_click() {
    let m = Menu::default();
    assert!(!m.has_buttons());
    assert_eq!(m.handle_event(StateEvent::Click(0)), Transition::Stay);
    let mut m = menu();
    assert!(m.has_buttons());
    m.button_load = None;
    assert!(!m.has_buttons());
    assert_eq!(m.handle_event(StateEvent::Click(5)), Transition::Stay);
    assert_eq!(m.handle_event(StateEvent::Click(6)), Transition::Quit);
}

#[test]
fn of_two_buttons_on_one_entity_the_first_answers() {
    let mut m = menu();
    m.button_quit = Some(2);
    m.button_load = Some(3);
    assert_eq!(m.handle_event(StateEvent::Click(2)), Transition::Resume);
    assert_eq!(m.handle_event(StateEvent::Click(3)), Transition::NewGame);
}

#[test]
fn a_closed_menu_has_forgotten_its_buttons() {
    let mut m = menu();
    m.on_stop();
    assert_eq!(m, Menu::default());
    let mut s = StartScreen {
        ui_root: Some(1),
        button_start: Some(2),
        button_load: Some(3),
        button_quit: Some(4),
    };
    s.on_stop();
    assert_eq!(s, StartScreen::default());
}

#[test]
fn the_start_screen_answers_its_buttons() {
    let s = StartScreen {
        ui_root: Some(1),
        button_start: Some(2),
        button_load: Some(3),
        button_quit: Some(4),
    };
    assert!(s.has_buttons());
    assert_eq!(s.handle_event(StateEvent::Click(2)), Transition::NewGame);
    assert_eq!(s.handle_event(StateEvent::Click(3)), Transition::LoadGame);
    assert_eq!(s.handle_event(StateEvent::Click(4)), Transition::Quit);
    assert_eq!(s.handle_event(StateEvent::Click(1)), Transition::Stay);
    assert_eq!(s.handle_event(StateEvent::CloseRequested), Transition::Quit);
    assert_eq!(s.handle_event(StateEvent::EscapePressed), Transition::Stay);
    assert_eq!(s.handle_event(StateEvent::Other), Transition::Stay);
    assert!(!StartScreen::default().has_buttons());
    assert_eq!(StartScreen::default().handle_event(StateEvent::Click(0)), Transition::Stay);
}

#[test]
fn the_running_game_answers_the_window_and_the_escape_key() {
    assert_eq!(Wanderball.handle_event(StateEvent::CloseRequested), Transition::Quit);
    assert_eq!(Wanderball.handle_event(StateEvent::EscapePressed), Transition::OpenMenu);
    assert_eq!(Wanderball.handle_event(StateEvent::Click(3)), Transition::Stay);
    assert_eq!(Wanderball.handle_event(StateEvent::Other), Transition::Stay);
}

#[test]
fn a_button_is_hit_by_its_own_entity() {
    assert!(hits(Some(4), 4));
    assert!(!hits(Some(4), 5));
    assert!(!hits(None, 0));
}

#[test]
fn a_new_game_is_set_up_from_the_configuration() {
    let mut c = WanderballConfig::default();
    c.start_x = 10;
    c.start_y = 20;
    c.start_ball_z = 4;
    c.path_length = 30;
    let mut rng = StdRng::seed_from_u64(9);
    let game = Wanderball.on_start(None, &c, &mut rng);
    assert_eq!(game.path_segments.len(), 30);
    assert_eq!(game.path_segments[0].transform, Transform::at(10, 20, 0));
    assert_eq!(game.path_segments[0].rectangle, Rectangle::new(24, 8));
    assert_eq!(
        game.balls,
        vec![BallRecord { transform: Transform::at(10, 20, 4), circle: Circle::new(2) }]
    );
    assert_eq!(
        game.videographer.videographer,
        Videographer { view_width: 100, view_height: 100, view_x: 50, view_y: 50 }
    );
    assert_eq!(game.videographer.transform, Transform::at(50, 50, 2));
    assert_eq!(game.pedometer.steps, 0);
    assert!(game.pedometer.visited.is_empty());
}

#[test]
fn a_saved_game_is_taken_up_as_it_was() {
    let mut pedometer = Pedometer::new();
    pedometer.visit(77);
    pedometer.steps = 12;
    let saved = GameRecord {
        path_segments: vec![PathSegmentRecord {
            transform: Transform { x: 1, y: 2, z: 3, quarter_turn: true },
            rectangle: Rectangle::new(7, 9),
        }],
        balls: Vec::new(),
        videographer: VideographerRecord {
            videographer: Videographer { view_width: 5, view_height: 6, view_x: 7, view_y: 8 },
            transform: Transform::at(0, 0, 0),
        },
        pedometer: PedometerRecord::from(pedometer),
    };
    // a configuration that allows no path does not matter to a saved game
    let mut c = WanderballConfig::default();
    c.path_segment_width = 0;
    let mut rng = StdRng::seed_from_u64(9);
    let game = Wanderball.on_start(Some(saved.clone()), &c, &mut rng);
    assert_eq!(game.path_segments, saved.path_segments);
    assert_eq!(game.balls, saved.balls);
    assert_eq!(game.videographer, saved.videographer);
    assert_eq!(game.pedometer.steps, 12);
    assert_eq!(game.pedometer.visited, saved.pedometer.visited);
}
