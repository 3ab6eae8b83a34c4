use menu_flow::flow::{Flow, MenuData, Step, Transition};
use menu_flow::menu::{menu_layout, react, Length, UiKind};
use menu_flow::scene::{camera, game_scene, ObjectKind, Point};
use menu_flow::state::{AppState, Interaction};
use menu_flow::style::{button_color, clear_color, text_color, Rgb};

#[test]
fn default_state_is_menu() {
    assert_eq!(AppState::default(), AppState::Menu);
}

#[test]
fn new_flow_starts_in_menu() {
    let f = Flow::new();
    assert_eq!(f.current(), AppState::Menu);
    assert_eq!(f.pending(), None);
    assert_eq!(f.menu(), None);
}

#[test]
fn button_colors_per_interaction() {
    assert_eq!(button_color(Interaction::Idle), Rgb { r: 15, g: 15, b: 15 });
    assert_eq!(button_color(Interaction::Hovered), Rgb { r: 25, g: 25, b: 25 });
    assert_eq!(button_color(Interaction::Pressed), Rgb { r: 35, g: 75, b: 35 });
    assert_eq!(text_color(), Rgb { r: 90, g: 90, b: 90 });
    assert_eq!(clear_color(), Rgb { r: 0, g: 0, b: 0 });
}

#[test]
fn only_press_requests_game() {
    assert_eq!(react(Interaction::Idle).request, None);
    assert_eq!(react(Interaction::Hovered).request, None);
    assert_eq!(react(Interaction::Pressed).request, Some(AppState::InGame));
    assert_eq!(react(Interaction::Pressed).color, Rgb { r: 35, g: 75, b: 35 });
}

#[test]
fn hovering_never_transitions() {
    let mut f = Flow::new();
    f.menu_spawned(3);
    for _ in 0..5 {
        assert_eq!(f.interact(Interaction::Hovered), Some(Rgb { r: 25, g: 25, b: 25 }));
        assert_eq!(f.apply_pending(), None);
        assert_eq!(f.interact(Interaction::Idle), Some(Rgb { r: 15, g: 15, b: 15 }));
        assert_eq!(f.apply_pending(), None);
    }
    assert_eq!(f.current(), AppState::Menu);
    assert_eq!(f.menu(), Some(MenuData { button_entity: 3 }));
}

#[test]
fn press_makes_exactly_one_transition() {
    let mut f = Flow::new();
    f.menu_spawned(42);
    assert_eq!(f.interact(Interaction::Pressed), Some(Rgb { r: 35, g: 75, b: 35 }));
    assert_eq!(f.interact(Interaction::Pressed), Some(Rgb { r: 35, g: 75, b: 35 }));
    assert_eq!(f.current(), AppState::Menu);
    let step = f.apply_pending();
    assert_eq!(
        step,
        Some(Step {
            transition: Transition { before: AppState::Menu, after: AppState::InGame },
            despawn: Some(42),
            spawn_menu: false,
            spawn_game: true,
        })
    );
    assert_eq!(f.current(), AppState::InGame);
    assert_eq!(f.menu(), None);
    assert_eq!(f.interact(Interaction::Pressed), None);
    assert_eq!(f.apply_pending(), None);
    assert_eq!(f.current(), AppState::InGame);
}

#[test]
fn leaving_menu_without_recorded_root_despawns_nothing() {
    let mut f = Flow::new();
    f.interact(Interaction::Pressed);
    let step = f.apply_pending().unwrap();
    assert_eq!(step.despawn, None);
    assert!(step.spawn_game);
}

#[test]
fn transition_line_text() {
    let t = Transition { before: AppState::Menu, after: AppState::InGame };
    assert_eq!(t.line(), "transition: Menu => InGame");
    let back = Transition { before: AppState::InGame, after: AppState::Menu };
    assert_eq!(back.line(), "transition: InGame => Menu");
    assert_eq!(AppState::Menu.name(), "Menu");
    assert_eq!(AppState::InGame.name(), "InGame");
}

#[test]
fn menu_layout_is_one_tree() {
    let nodes = menu_layout();
    assert_eq!(nodes.len(), 3);
    assert_eq!(nodes[0].parent, None);
    assert_eq!(nodes[0].kind, UiKind::Container);
    assert_eq!(nodes[0].width, Some(Length::Percent(100)));
    assert_eq!(nodes[0].height, Some(Length::Percent(100)));
    assert_eq!(nodes[1].kind, UiKind::Button);
    assert_eq!(nodes[1].parent, Some(0));
    assert_eq!(nodes[1].width, Some(Length::Px(150)));
    assert_eq!(nodes[1].height, Some(Length::Px(65)));
    assert_eq!(nodes[1].background, Some(Rgb { r: 15, g: 15, b: 15 }));
    assert_eq!(nodes[2].kind, UiKind::Label);
    assert_eq!(nodes[2].parent, Some(1));
    assert_eq!(nodes[2].text, "Play");
    assert_eq!(nodes[2].font_size, 40);
}

#[test]
fn game_scene_has_one_of_each() {
    let objects = game_scene();
    assert_eq!(objects.len(), 3);
    for kind in [ObjectKind::Light, ObjectKind::Ground, ObjectKind::Player] {
        assert_eq!(objects.iter().filter(|o| o.kind == kind).count(), 1);
    }
    assert_eq!(objects[0].name, "Light");
    assert_eq!(objects[0].position, Point { x: 80, y: 160, z: 80 });
    assert_eq!(objects[1].name, "Ground");
    assert_eq!(objects[2].name, "Player");
    assert_eq!(objects[2].position, Point { x: 0, y: 5, z: 0 });
}

#[test]
fn camera_placement() {
    let c = camera();
    assert_eq!(c.kind, ObjectKind::Camera);
    assert_eq!(c.name, "Main Camera");
    assert_eq!(c.position, Point { x: 0, y: 320, z: 60 });
}
