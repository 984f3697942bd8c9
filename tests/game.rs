use mcp23017_emulator::game::{
    latest_action, AuraLedColor, BdAddr, BleAction, BluetoothScreen, CharacterCardId,
    ConnectState, ConnectionAction, DetectedPolicyCards, FascistAction, GameScreen, GameState,
    GameStatePlaying, HitlerState, Input, PolicyCardId, PolicyCardSet, SecretRole,
    Team,
};
use mcp23017_emulator::ui::SelectedItem;

fn policies(cards: &[(Team, usize)]) -> PolicyCardSet {
    let ids: Vec<PolicyCardId> = cards.iter().map(|&(team, id)| PolicyCardId { team, id }).collect();
    PolicyCardSet::from_cards(&ids)
}

fn detected(liberal: &[(Team, usize)], fascist: &[(Team, usize)]) -> DetectedPolicyCards {
    DetectedPolicyCards { liberal: policies(liberal), fascist: policies(fascist) }
}

fn fascists(n: usize) -> Vec<(Team, usize)> {
    (0..n).map(|id| (Team::Fascist, id)).collect()
}

fn liberals(n: usize) -> Vec<(Team, usize)> {
    (0..n).map(|id| (Team::Liberal, id)).collect()
}

#[test]
fn six_fascist_policies() {
    let mut state = GameState::new(None);
    // Enter bluetooth menu
    state.process_input(Input::Down);
    state.process_input(Input::Click);

    // Simulate a bluetooth device showing up
    assert_eq!(state.ble_action(), BleAction::Scan);
    let address = BdAddr::new([0x00, 0x01, 0x02, 0x03, 0x04, 0x05]);
    state.ble_peripheral_found(address);

    // Select that bluetooth device
    state.process_input(Input::Down);
    state.process_input(Input::Click);

    // Go back to main menu
    state.process_input(Input::Up);
    state.process_input(Input::Click);

    // Start the game
    state.process_input(Input::Up);
    state.process_input(Input::Click);

    assert!(matches!(state, GameState::Playing(_)));
    assert_eq!(state.ble_action(), BleAction::MaintainConnection(address));
    assert_eq!(state.should_scan_cards(), true);

    // A fascist policy is placed
    state.update_scanned_policy_cards(detected(&[], &fascists(1)));
    // The hint should show up
    assert_eq!(state.display_action_hint(), Some(FascistAction::CheckParty));
    // Manually dismiss the hint
    state.process_input(Input::Click);
    assert_eq!(state.display_action_hint(), None);

    // A liberal policy is placed
    state.update_scanned_policy_cards(detected(&liberals(1), &fascists(1)));
    assert_eq!(state.display_action_hint(), None);

    // Fascist policy placed
    state.update_scanned_policy_cards(detected(&liberals(1), &fascists(2)));
    // The hint should show up
    assert_eq!(state.display_action_hint(), Some(FascistAction::CheckParty));
    // Manually dismiss the hint
    state.process_input(Input::Click);
    assert_eq!(state.display_action_hint(), None);

    // Liberal policy placed
    state.update_scanned_policy_cards(detected(&liberals(2), &fascists(2)));
    assert_eq!(state.display_action_hint(), None);

    // Fascist policy placed
    state.update_scanned_policy_cards(detected(&liberals(2), &fascists(3)));
    // The hint should show up
    assert_eq!(state.display_action_hint(), Some(FascistAction::ChooseNextPresident));
    // Manually dismiss the hint
    state.process_input(Input::Click);
    assert_eq!(state.display_action_hint(), None);

    // Fascist policy placed
    state.update_scanned_policy_cards(detected(&liberals(2), &fascists(4)));
    // The hint should show up
    assert_eq!(state.display_action_hint(), Some(FascistAction::Kill));
    // A liberal is killed
    state.process_dead_character(CharacterCardId { secret_role: SecretRole::Liberal, id: 0 });
    assert_eq!(state.display_action_hint(), None);

    // Fascist policy placed
    state.update_scanned_policy_cards(detected(&liberals(2), &fascists(5)));
    // The hint should show up
    assert_eq!(state.display_action_hint(), Some(FascistAction::Kill));
    // A fascist is killed
    state.process_dead_character(CharacterCardId { secret_role: SecretRole::Fascist, id: 0 });
    assert_eq!(state.display_action_hint(), None);

    // Fascist policy placed
    state.update_scanned_policy_cards(detected(&liberals(2), &fascists(6)));
    // Fascists win
    assert_eq!(state.get_leds().aura_led_color, AuraLedColor::FascistWin);
}

fn playing(pending_action: bool, fascist: usize) -> GameState {
    GameState::Playing(GameStatePlaying {
        players: 10,
        connection_status: mcp23017_emulator::game::ConnectionStatus {
            peripheral_address: BdAddr::new([1, 2, 3, 4, 5, 6]),
            state: ConnectState::Connecting,
        },
        liberal_policies_placed: 0,
        fascist_policies_placed: fascist,
        hitler_state: HitlerState::Secret,
        election_fail_streak: 2,
        pending_action,
    })
}

#[test]
fn latest_action_by_players() {
    assert_eq!(latest_action(5, 2), None);
    assert_eq!(latest_action(6, 3), Some(FascistAction::ExamineTop3));
    assert_eq!(latest_action(5, 5), Some(FascistAction::Kill));
    assert_eq!(latest_action(7, 2), Some(FascistAction::CheckParty));
    assert_eq!(latest_action(8, 3), Some(FascistAction::ChooseNextPresident));
    assert_eq!(latest_action(8, 1), None);
    assert_eq!(latest_action(9, 1), Some(FascistAction::CheckParty));
    assert_eq!(latest_action(10, 4), Some(FascistAction::Kill));
    assert_eq!(latest_action(10, 6), None);
    assert_eq!(latest_action(10, 0), None);
}

#[test]
fn only_kill_cannot_be_cleared_by_button() {
    assert!(FascistAction::CheckParty.can_clear_with_button_press());
    assert!(FascistAction::ChooseNextPresident.can_clear_with_button_press());
    assert!(FascistAction::ExamineTop3.can_clear_with_button_press());
    assert!(!FascistAction::Kill.can_clear_with_button_press());
}

#[test]
fn kill_hint_survives_button_press() {
    let mut state = playing(true, 4);
    state.process_input(Input::Click);
    assert_eq!(state.display_action_hint(), Some(FascistAction::Kill));
}

#[test]
fn killing_hitler_makes_liberals_win() {
    let mut state = playing(true, 4);
    state.process_dead_character(CharacterCardId { secret_role: SecretRole::Hitler, id: 0 });
    assert_eq!(state.get_leds().aura_led_color, AuraLedColor::LiberalWin);
    assert_eq!(state.display_action_hint(), None);
}

#[test]
fn dead_character_without_pending_kill_changes_nothing() {
    let mut state = playing(false, 4);
    state.process_dead_character(CharacterCardId { secret_role: SecretRole::Hitler, id: 0 });
    assert_eq!(state.get_leds().aura_led_color, AuraLedColor::BoardSpecific);
}

#[test]
fn winner_rules() {
    let mut p = match playing(false, 0) {
        GameState::Playing(p) => p,
        GameState::SettingUp(_) => unreachable!(),
    };
    assert_eq!(p.winner(), None);
    p.liberal_policies_placed = 5;
    assert_eq!(p.winner(), Some(Team::Liberal));
    p.liberal_policies_placed = 4;
    p.fascist_policies_placed = 6;
    assert_eq!(p.winner(), Some(Team::Fascist));
    p.fascist_policies_placed = 0;
    p.hitler_state = HitlerState::ElectedChancellor;
    assert_eq!(p.winner(), Some(Team::Fascist));
    p.hitler_state = HitlerState::Dead;
    assert_eq!(p.winner(), Some(Team::Liberal));
}

#[test]
fn leds_follow_the_board() {
    let state = GameState::new(None);
    let leds = state.get_leds();
    assert_eq!(leds.aura_led_color, AuraLedColor::BoardSpecific);
    assert_eq!(leds.liberal_policy_leds, 0);
    let mut state = playing(false, 0);
    state.update_scanned_policy_cards(detected(&[(Team::Liberal, 0), (Team::Fascist, 3)], &liberals(1)));
    let leds = state.get_leds();
    // The same liberal card on both boards counts twice.
    assert_eq!(leds.liberal_policy_leds, 2);
    assert_eq!(leds.fascist_policy_leds, 1);
    // A new policy resets the election tracker.
    assert_eq!(leds.election_tracker_leds, 0);
}

#[test]
fn policy_set_ignores_duplicates_and_overflow() {
    let mut state = playing(false, 0);
    let many: Vec<(Team, usize)> = (0..10).map(|id| (Team::Fascist, id)).collect();
    state.update_scanned_policy_cards(detected(&[(Team::Liberal, 1), (Team::Liberal, 1)], &many));
    let leds = state.get_leds();
    assert_eq!(leds.liberal_policy_leds, 1);
    assert_eq!(leds.fascist_policy_leds, 8);
}

#[test]
fn no_new_policy_keeps_tracker_and_hint() {
    let mut state = playing(true, 1);
    state.update_scanned_policy_cards(detected(&[], &fascists(1)));
    assert_eq!(state.get_leds().election_tracker_leds, 2);
    assert_eq!(state.display_action_hint(), Some(FascistAction::CheckParty));
}

#[test]
fn new_game_with_address_connects() {
    let address = BdAddr::new([9, 8, 7, 6, 5, 4]);
    let mut state = GameState::new(Some(address));
    assert_eq!(state.ble_action(), BleAction::MaintainConnection(address));
    state.ble_connected();
    match &state {
        GameState::SettingUp(s) => match &s.connection_action {
            ConnectionAction::Connect(status) => assert_eq!(status.state, ConnectState::Connected),
            ConnectionAction::Scan { .. } => panic!("expected a connection"),
        },
        GameState::Playing(_) => panic!("expected the setup"),
    }
    state.ble_disconnected();
    match &state {
        GameState::SettingUp(s) => match &s.connection_action {
            ConnectionAction::Connect(status) => assert_eq!(status.state, ConnectState::Connecting),
            ConnectionAction::Scan { .. } => panic!("expected a connection"),
        },
        GameState::Playing(_) => panic!("expected the setup"),
    }
    // Starting the game right away.
    state.process_input(Input::Click);
    assert!(matches!(state, GameState::Playing(_)));
    assert!(state.should_scan_cards());
}

#[test]
fn scan_list_keeps_four_distinct_devices() {
    let mut state = GameState::new(None);
    state.process_input(Input::Click);
    for i in 0..6u8 {
        state.ble_peripheral_found(BdAddr::new([i, 0, 0, 0, 0, 0]));
        state.ble_peripheral_found(BdAddr::new([i, 0, 0, 0, 0, 0]));
    }
    let items = state.screen().unwrap().items;
    assert_eq!(
        items,
        vec![
            "00:00:00:00:00:00".to_string(),
            "00:00:00:00:00:01".to_string(),
            "00:00:00:00:00:02".to_string(),
            "00:00:00:00:00:03".to_string(),
        ]
    );
}

#[test]
fn menus_navigate_and_clamp() {
    let mut state = GameState::new(None);
    state.process_input(Input::Up);
    state.process_input(Input::Down);
    state.process_input(Input::Down);
    match &state {
        GameState::SettingUp(s) => assert_eq!(
            s.screen,
            GameScreen::MainMenu(mcp23017_emulator::game::MainMenuScreen { scroll_y: 0, selected_item: 1 })
        ),
        GameState::Playing(_) => panic!("expected the setup"),
    }
    state.process_input(Input::Click);
    state.process_input(Input::Down);
    match &state {
        GameState::SettingUp(s) => assert_eq!(
            s.screen,
            GameScreen::Bluetooth(BluetoothScreen::Scanning { scroll_y: 0, selected_item: 1 })
        ),
        GameState::Playing(_) => panic!("expected the setup"),
    }
    // Back to the main menu.
    state.process_input(Input::Up);
    state.process_input(Input::Click);
    match &state {
        GameState::SettingUp(s) => assert_eq!(
            s.screen,
            GameScreen::MainMenu(mcp23017_emulator::game::MainMenuScreen { scroll_y: 0, selected_item: 1 })
        ),
        GameState::Playing(_) => panic!("expected the setup"),
    }
}

#[test]
fn cancel_connection_returns_to_scanning() {
    let mut state = GameState::new(None);
    state.process_input(Input::Click);
    state.ble_peripheral_found(BdAddr::new([1, 1, 1, 1, 1, 1]));
    state.process_input(Input::Down);
    state.process_input(Input::Click);
    assert_eq!(state.ble_action(), BleAction::MaintainConnection(BdAddr::new([1; 6])));
    state.process_input(Input::Down);
    state.process_input(Input::Down);
    state.process_input(Input::Click);
    assert_eq!(state.ble_action(), BleAction::Scan);
    match &state {
        GameState::SettingUp(s) => {
            assert_eq!(
                s.screen,
                GameScreen::Bluetooth(BluetoothScreen::Scanning { scroll_y: 0, selected_item: 0 })
            );
        },
        GameState::Playing(_) => panic!("expected the setup"),
    }
    assert!(state.screen().unwrap().items.is_empty());
}

#[test]
fn screens_show_menu_and_addresses() {
    let mut state = GameState::new(None);
    let screen = state.screen().unwrap();
    assert_eq!(screen.title, "Setup");
    assert!(!screen.can_go_back);
    assert_eq!(screen.items, vec!["Start Game".to_string(), "Bluetooth".to_string()]);
    assert!(matches!(screen.selected_item, SelectedItem::Item(0)));
    state.process_input(Input::Click);
    state.ble_peripheral_found(BdAddr::new([0x00, 0x01, 0x02, 0x03, 0x04, 0xAB]));
    let screen = state.screen().unwrap();
    assert_eq!(screen.title, "Bluetooth");
    assert!(screen.can_go_back);
    assert_eq!(screen.items, vec!["AB:04:03:02:01:00".to_string()]);
    assert!(playing(false, 0).screen().is_none());
}
