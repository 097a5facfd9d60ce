use wasm_bindgen::{JsCast, JsValue};
use walk_the_dog::{
    Cell, DrawCommand, GameError, KeyState, Rect, RedHatBoy, RedHatBoyStateMachine, Sheet,
    SheetRect, WalkTheDog,
};
use web_sys::HtmlImageElement;

fn image() -> HtmlImageElement {
    JsValue::NULL.unchecked_into()
}

fn cell_of(animation: usize, index: i16) -> Cell {
    Cell {
        frame: SheetRect {
            x: 100 * index,
            y: 200 * animation as i16,
            w: 80 + animation as i16,
            h: 120 + index,
        },
    }
}

fn full_sheet() -> Sheet {
    let mut sheet = Sheet::new();
    for (animation, (name, cells)) in
        [("Idle", 10), ("Run", 8), ("Slide", 5), ("Jump", 12)].into_iter().enumerate()
    {
        for index in 1..=cells {
            sheet.insert(format!("{} ({}).png", name, index), cell_of(animation, index));
        }
    }
    sheet
}

fn keys(codes: &[&str]) -> KeyState {
    let mut keystate = KeyState::new();
    for code in codes {
        keystate.set_pressed(code);
    }
    keystate
}

fn loaded() -> WalkTheDog {
    match WalkTheDog::new().initialize(full_sheet(), image()) {
        Ok(game) => game,
        Err(error) => panic!("{}", error.message()),
    }
}

fn machine_of(game: &WalkTheDog) -> RedHatBoyStateMachine {
    match game {
        WalkTheDog::Loaded(rhb) => rhb.state_machine(),
        WalkTheDog::Loading => panic!("the game is not loaded"),
    }
}

fn sprite(animation: usize, index: i16, x: i16, y: i16) -> DrawCommand {
    let frame = cell_of(animation, index).frame;
    DrawCommand::Image {
        source: Rect { x: frame.x, y: frame.y, width: frame.w, height: frame.h },
        destination: Rect { x, y, width: frame.w, height: frame.h },
    }
}

fn clear() -> DrawCommand {
    DrawCommand::Clear(Rect { x: 0, y: 0, width: 600, height: 600 })
}

#[test]
fn character_runs_ten_ticks() {
    let mut rhb = RedHatBoy::new(full_sheet(), image());
    assert_eq!(rhb.state_machine().frame_name(), "Idle");
    rhb.run_right();
    for _ in 0..10 {
        rhb.update();
    }
    let machine = rhb.state_machine();
    assert_eq!(machine.frame_name(), "Run");
    assert_eq!(machine.context().position.x, 30);
    assert_eq!(machine.context().frame, 10);
}

#[test]
fn character_ignores_requests_that_its_state_does_not_accept() {
    let mut rhb = RedHatBoy::new(full_sheet(), image());
    rhb.slide();
    rhb.jump();
    assert_eq!(rhb.state_machine().frame_name(), "Idle");
    rhb.run_right();
    rhb.run_right();
    assert_eq!(rhb.state_machine().context().velocity.x, 3);
    rhb.slide();
    let sliding = *rhb.state_machine().context();
    rhb.jump();
    assert_eq!(rhb.state_machine().frame_name(), "Slide");
    assert_eq!(*rhb.state_machine().context(), sliding);
}

#[test]
fn character_draws_the_cell_of_its_frame_at_its_position() {
    let mut rhb = RedHatBoy::new(full_sheet(), image());
    assert!(rhb.can_draw());
    assert_eq!(rhb.draw(), sprite(0, 1, 0, 475));
    rhb.run_right();
    for _ in 0..10 {
        rhb.update();
    }
    assert_eq!(rhb.draw(), sprite(1, 4, 30, 475));
    rhb.jump();
    rhb.update();
    assert_eq!(rhb.draw(), sprite(3, 1, 33, 451));
    rhb.update();
    rhb.update();
    assert_eq!(rhb.draw(), sprite(3, 2, 39, 406));
}

#[test]
fn character_cannot_draw_from_a_sheet_without_its_cell() {
    let mut sheet = Sheet::new();
    sheet.insert("Idle (1).png".to_string(), cell_of(0, 1));
    let mut rhb = RedHatBoy::new(sheet, image());
    assert!(rhb.can_draw());
    rhb.update();
    rhb.update();
    assert!(rhb.can_draw());
    rhb.update();
    assert!(!rhb.can_draw());
    assert!(!RedHatBoy::new(Sheet::new(), image()).can_draw());
}

#[test]
fn new_game_is_loading() {
    assert!(matches!(WalkTheDog::new(), WalkTheDog::Loading));
}

#[test]
fn loading_game_asks_for_its_assets() {
    match WalkTheDog::new().required_assets() {
        Ok(assets) => {
            assert_eq!(assets.sprite_sheet, "Assets/sprite_sheets/rhb.json");
            assert_eq!(assets.image, "Assets/sprite_sheets/rhb.png");
        }
        Err(error) => panic!("{}", error.message()),
    }
}

#[test]
fn loaded_game_asks_for_nothing() {
    assert_eq!(loaded().required_assets().err(), Some(GameError::AlreadyInitialized));
}

#[test]
fn initialize_twice_fails_the_second_time() {
    let waiting = WalkTheDog::new();
    let first = waiting.initialize(full_sheet(), image());
    assert!(matches!(waiting, WalkTheDog::Loading));
    let game = match first {
        Ok(game) => game,
        Err(error) => panic!("{}", error.message()),
    };
    assert!(matches!(game, WalkTheDog::Loaded(_)));
    assert_eq!(machine_of(&game).frame_name(), "Idle");
    assert_eq!(machine_of(&game).context().frame, 0);
    let second = game.initialize(full_sheet(), image());
    assert_eq!(second.err(), Some(GameError::AlreadyInitialized));
    assert!(matches!(game, WalkTheDog::Loaded(_)));
}

#[test]
fn already_initialized_in_words() {
    assert_eq!(GameError::AlreadyInitialized.message(), "Error: Game is already initialized!");
}

#[test]
fn loading_game_does_nothing_on_update() {
    let mut game = WalkTheDog::new();
    assert!(game.can_update(&keys(&["ArrowRight", "Space"])));
    game.update(&keys(&["ArrowRight", "Space"]));
    assert!(matches!(game, WalkTheDog::Loading));
}

#[test]
fn loading_game_draws_a_blank_frame() {
    let game = WalkTheDog::new();
    assert!(game.can_draw());
    assert_eq!(game.draw(), vec![clear()]);
}

#[test]
fn loaded_game_clears_and_draws_the_character() {
    let mut game = loaded();
    assert!(game.can_draw());
    assert_eq!(game.draw(), vec![clear(), sprite(0, 1, 0, 475)]);
    game.update(&keys(&["ArrowRight"]));
    for _ in 0..5 {
        game.update(&keys(&[]));
    }
    assert_eq!(game.draw(), vec![clear(), sprite(1, 3, 18, 475)]);
}

#[test]
fn game_without_keys_idles() {
    let mut game = loaded();
    for _ in 0..31 {
        game.update(&keys(&[]));
    }
    let machine = machine_of(&game);
    assert_eq!(machine.frame_name(), "Idle");
    assert_eq!(machine.context().frame, 1);
    assert_eq!(machine.context().position.x, 0);
}

#[test]
fn game_updates_once_after_the_requests_of_the_tick() {
    let mut game = loaded();
    game.update(&keys(&["ArrowRight"]));
    let machine = machine_of(&game);
    assert_eq!(machine.frame_name(), "Run");
    assert_eq!(machine.context().frame, 1);
    assert_eq!(machine.context().position.x, 3);
}

#[test]
fn game_holding_right_keeps_running_at_the_same_speed() {
    let mut game = loaded();
    for _ in 0..10 {
        game.update(&keys(&["ArrowRight"]));
    }
    let machine = machine_of(&game);
    assert_eq!(machine.frame_name(), "Run");
    assert_eq!(machine.context().velocity.x, 3);
    assert_eq!(machine.context().position.x, 30);
    assert_eq!(machine.context().frame, 10);
}

#[test]
fn game_does_not_slide_or_jump_from_rest() {
    let mut game = loaded();
    game.update(&keys(&["ArrowDown"]));
    assert_eq!(machine_of(&game).frame_name(), "Idle");
    game.update(&keys(&["Space"]));
    assert_eq!(machine_of(&game).frame_name(), "Idle");
    assert_eq!(machine_of(&game).context().frame, 2);
}

#[test]
fn game_takes_the_requests_in_the_order_run_slide_jump() {
    let mut game = loaded();
    game.update(&keys(&["ArrowRight", "ArrowDown", "Space"]));
    let machine = machine_of(&game);
    assert_eq!(machine.frame_name(), "Slide");
    assert_eq!(machine.context().frame, 1);

    let mut game = loaded();
    game.update(&keys(&["Space", "ArrowRight"]));
    let machine = machine_of(&game);
    assert_eq!(machine.frame_name(), "Jump");
    assert_eq!(machine.context().velocity.y, -24);
    assert_eq!(machine.context().position.y, 451);
}

#[test]
fn game_ignores_other_keys() {
    let mut game = loaded();
    game.update(&keys(&["KeyW", "KeyA", "KeyS", "KeyD", "arrowright", "ArrowLeft"]));
    assert_eq!(machine_of(&game).frame_name(), "Idle");
}

#[test]
fn game_slides_and_stands_up() {
    let mut game = loaded();
    game.update(&keys(&["ArrowRight"]));
    game.update(&keys(&["ArrowDown"]));
    assert_eq!(machine_of(&game).frame_name(), "Slide");
    assert_eq!(machine_of(&game).context().frame, 1);
    for _ in 0..12 {
        game.update(&keys(&["Space"]));
        assert_eq!(machine_of(&game).frame_name(), "Slide");
    }
    game.update(&keys(&[]));
    assert_eq!(machine_of(&game).frame_name(), "Run");
    assert_eq!(machine_of(&game).context().frame, 0);
}

#[test]
fn game_cannot_update_past_the_range_of_the_coordinates() {
    let mut game = loaded();
    game.update(&keys(&["ArrowRight"]));
    for _ in 0..10921 {
        assert!(game.can_update(&keys(&[])));
        game.update(&keys(&[]));
    }
    assert_eq!(machine_of(&game).context().position.x, 32766);
    assert!(!game.can_update(&keys(&[])));
    assert!(!game.can_update(&keys(&["Space"])));
}

#[test]
fn game_can_jump_where_gravity_alone_would_leave_the_range() {
    let mut game = loaded();
    for _ in 0..32292 {
        assert!(game.can_update(&keys(&[])));
        game.update(&keys(&[]));
    }
    assert_eq!(machine_of(&game).context().velocity.y, 32292);
    assert!(!game.can_update(&keys(&[])));
    assert!(!game.can_update(&keys(&["ArrowRight"])));
    assert!(game.can_update(&keys(&["ArrowRight", "Space"])));
    game.update(&keys(&["ArrowRight", "Space"]));
    assert_eq!(machine_of(&game).frame_name(), "Jump");
    assert_eq!(machine_of(&game).context().velocity.y, -24);
}

fn sheet_without(missing: &str) -> Sheet {
    let mut sheet = Sheet::new();
    for (animation, (name, cells)) in
        [("Idle", 10), ("Run", 8), ("Slide", 5), ("Jump", 12)].into_iter().enumerate()
    {
        for index in 1..=cells {
            let cell = format!("{} ({}).png", name, index);
            if cell != missing {
                sheet.insert(cell, cell_of(animation, index));
            }
        }
    }
    sheet
}

#[test]
fn complete_sheet_draws_every_frame_of_a_long_game() {
    let mut game = loaded();
    let script = ["", "ArrowRight", "", "ArrowDown", "", "Space", "", "ArrowDown", "Space"];
    for tick in 0..600 {
        assert!(game.can_draw());
        assert_eq!(game.draw().len(), 2);
        game.update(&keys(&[script[(tick / 7) % script.len()]]));
    }
}

#[test]
fn sheet_with_a_gap_fails_at_the_frame_that_needs_the_cell() {
    let mut rhb = RedHatBoy::new(sheet_without("Run (8).png"), image());
    rhb.run_right();
    for _ in 0..21 {
        assert!(rhb.can_draw());
        rhb.update();
    }
    assert_eq!(rhb.state_machine().context().frame, 21);
    assert!(!rhb.can_draw());
    rhb.update();
    rhb.update();
    assert!(!rhb.can_draw());
    rhb.update();
    assert_eq!(rhb.state_machine().context().frame, 0);
    assert!(rhb.can_draw());
}
