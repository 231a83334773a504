use sus_core::game::{
    update_lobby_timer, Game, GameState, MoveKey, Player, PlayerInput, PlayerState, PlayerType,
    LOBBY_COUNTDOWN_MILLIS,
};
use sus_core::movement::Position;
use sus_core::text::{AxisAlign, Color, Font, StyledText, TextAlignment};

#[test]
fn axis_values_from_held_keys() {
    let mut input = PlayerInput::default();
    assert_eq!(input.x(), 0);
    assert_eq!(input.y(), 0);

    input.apply_key(MoveKey::Right, true);
    assert_eq!(input.x(), i16::MAX);
    input.apply_key(MoveKey::Left, true);
    assert_eq!(input.x(), 0, "opposite keys cancel");
    input.apply_key(MoveKey::Right, false);
    assert_eq!(input.x(), i16::MIN);

    input.apply_key(MoveKey::Up, true);
    assert_eq!(input.y(), i16::MAX);
    input.apply_key(MoveKey::Up, false);
    input.apply_key(MoveKey::Down, true);
    assert_eq!(input.y(), i16::MIN);
}

#[test]
fn input_packet_from_current_keys() {
    let mut input = PlayerInput::default();
    input.apply_key(MoveKey::Right, true);
    input.apply_key(MoveKey::Up, true);
    let pkt = input.to_player_input_packet(41);
    assert_eq!(pkt.counter, 41);
    assert_eq!(pkt.x, i16::MAX);
    assert_eq!(pkt.y, i16::MAX);
}

#[test]
fn lobby_timer_moves_to_intro_screen_once_expired() {
    let lobby = GameState::Lobby;
    assert_eq!(update_lobby_timer(&lobby, LOBBY_COUNTDOWN_MILLIS), None);
    assert_eq!(update_lobby_timer(&lobby, LOBBY_COUNTDOWN_MILLIS + 1), Some(GameState::IntroScreen));
    assert_eq!(update_lobby_timer(&GameState::Main, LOBBY_COUNTDOWN_MILLIS + 1), None);
}

#[test]
fn new_player_is_alive_crew_at_origin() {
    let p = Player::new("Brian", 3);
    assert_eq!(p.id, 3);
    assert_eq!(p.name, "Brian");
    assert_eq!(p.pos, (0, 0));
    assert!(matches!(p.player_type, PlayerType::Crew));
    assert!(matches!(p.state, PlayerState::Alive));
}

#[test]
fn new_game_starts_empty_in_lobby() {
    let g = Game::new();
    assert!(g.players.is_empty());
    assert_eq!(g.game_state, GameState::Lobby);
    assert_eq!(GameState::default(), GameState::Lobby);
}

#[test]
fn position_step_is_fixed_point_and_total() {
    let p = Position { x: 0, y: 0 };
    let q = p.step(100, -100);
    assert_eq!(q, Position { x: 100, y: -100 });
    // Integration wraps instead of panicking at the numeric edge.
    let edge = Position { x: i64::MAX, y: i64::MIN };
    let wrapped = edge.step(1, -1);
    assert_eq!(wrapped, Position { x: i64::MIN, y: i64::MAX });
}

#[test]
fn default_styling_is_opaque_white_at_sixty() {
    let styled = StyledText::default_styling("hello");
    assert_eq!(styled.text, "hello");
    assert_eq!(styled.font, Font::SpaceMono400(60));
    assert_eq!(styled.color, Color::new(255, 255, 255, 255));
    assert_eq!(styled.font.size(), 60);
}

#[test]
fn alignment_constructors() {
    let a = TextAlignment::new(AxisAlign::Center(5), AxisAlign::WindowCenter);
    assert_eq!(a.x, AxisAlign::Center(5));
    assert_eq!(a.y, AxisAlign::WindowCenter);
    assert_eq!(a.max_width, None);
    assert_eq!(a.max_height, None);

    let lt = TextAlignment::left_top(10, 20);
    assert_eq!(lt.x, AxisAlign::Start(10));
    assert_eq!(lt.y, AxisAlign::Start(20));

    assert_eq!(AxisAlign::default(), AxisAlign::Start(0));
    let d = TextAlignment::default();
    assert_eq!(d.x, AxisAlign::Start(0));

    let c = Color::new(1, 2, 3, 4);
    assert_eq!((c.red, c.green, c.blue, c.alpha), (1, 2, 3, 4));
}
