//! The state of a board game session: setting up (menus and Bluetooth), then
//! playing (policies placed, presidential actions, the winner).
use vstd::prelude::*;
use heapless::index_set::FnvIndexSet;
use crate::ui::{Screen, SelectedItem};

verus! {

/// How many scanned Bluetooth devices are listed at most.
pub const SCAN_LIST_SIZE: usize = 4;

pub const LIBERAL_POLICY_CARDS: usize = 6;

pub const FASCIST_POLICY_CARDS: usize = 11;

pub const LIBERAL_BOARD_SLOTS: usize = 5;

pub const FASCIST_BOARD_SLOTS: usize = 6;

/// Capacity of each set of detected policy cards (a power of two).
pub const DETECTED_CARDS_CAPACITY: usize = 8;

/// A Bluetooth device address, least significant byte first.
#[derive(Debug, Clone, Copy, PartialEq, Eq)]
pub struct BdAddr {
    pub bytes: [u8; 6],
}

impl BdAddr {
    pub fn new(val: [u8; 6]) -> (r: BdAddr)
        ensures
            r.bytes == val,
    {
        BdAddr { bytes: val }
    }

    /// The address's bytes.
    pub fn raw(&self) -> (r: [u8; 6])
        ensures
            r == self.bytes,
    {
        self.bytes
    }
}

/// Whether two addresses have the same bytes.
pub fn same_address(a: &BdAddr, b: &BdAddr) -> (r: bool)
    ensures
        r == (a.bytes@ == b.bytes@),
{
    let mut i: usize = 0;
    while i < 6
        invariant
            i <= 6,
            forall|j: int| 0 <= j < i ==> a.bytes@[j] == b.bytes@[j],
        decreases 6 - i,
    {
        if a.bytes[i] != b.bytes[i] {
            return false;
        }
        i = i + 1;
    }
    assert(a.bytes@ =~= b.bytes@);
    true
}

/// The devices found by a scan, in the order found, at most `SCAN_LIST_SIZE`.
#[verifier::external_body]
#[derive(Debug)]
pub struct ScanList {
    peripherals: heapless::Vec<[u8; 6], SCAN_LIST_SIZE>,
}

/// The addresses that a scan list holds, in order.
pub uninterp spec fn scan_list_contents(list: ScanList) -> Seq<[u8; 6]>;

/// A set of detected policy cards, in the order they were added, at most
/// `DETECTED_CARDS_CAPACITY`.
#[verifier::external_body]
#[derive(Debug)]
pub struct PolicyCardSet {
    cards: FnvIndexSet<PolicyCardId, DETECTED_CARDS_CAPACITY>,
}

/// The cards that a set holds, in insertion order.
pub uninterp spec fn policy_set_contents(set: PolicyCardSet) -> Seq<PolicyCardId>;

impl ScanList {
    /// The list's addresses as values.
    pub open spec fn spec_addresses(self) -> Seq<Seq<u8>> {
        scan_list_contents(self).map_values(|a: [u8; 6]| a@)
    }

    /// Relies on `heapless::Vec::new`: an empty vector.
    #[verifier::external_body]
    pub(crate) fn new() -> (r: ScanList)
        ensures
            scan_list_contents(r) == Seq::<[u8; 6]>::empty(),
    {
        ScanList { peripherals: heapless::Vec::new() }
    }

    /// Relies on `heapless::Vec::len`: the number of items held.
    #[verifier::external_body]
    pub(crate) fn len(&self) -> (r: usize)
        ensures
            r == scan_list_contents(*self).len(),
            r <= SCAN_LIST_SIZE,
    {
        self.peripherals.len()
    }

    /// Relies on indexing a `heapless::Vec` (through its slice): item `i`.
    #[verifier::external_body]
    pub(crate) fn get(&self, i: usize) -> (r: [u8; 6])
        requires
            i < scan_list_contents(*self).len(),
        ensures
            r == scan_list_contents(*self)[i as int],
    {
        self.peripherals[i]
    }

    /// Relies on `heapless::Vec::push`: appends the item, or hands it back when
    /// the vector is full.
    #[verifier::external_body]
    fn push(&mut self, item: [u8; 6]) -> (r: Option<[u8; 6]>)
        ensures
            r is None <==> scan_list_contents(*old(self)).len() < SCAN_LIST_SIZE,
            r is None ==> scan_list_contents(*final(self)) == scan_list_contents(*old(self)).push(item),
            r is Some ==> r == Some(item) && scan_list_contents(*final(self)) == scan_list_contents(*old(self)),
    {
        self.peripherals.push(item).err()
    }

    /// Whether the list holds `address`.
    pub fn contains(&self, address: &BdAddr) -> (r: bool)
        ensures
            r == self.spec_addresses().contains(address.bytes@),
    {
        let n = self.len();
        let mut i: usize = 0;
        while i < n
            invariant
                i <= n,
                n == scan_list_contents(*self).len(),
                forall|j: int| 0 <= j < i ==> scan_list_contents(*self)[j]@ != address.bytes@,
            decreases n - i,
        {
            let item = BdAddr { bytes: self.get(i) };
            if same_address(&item, address) {
                assert(self.spec_addresses()[i as int] == address.bytes@);
                return true;
            }
            i = i + 1;
        }
        assert forall|j: int| 0 <= j < self.spec_addresses().len() implies self.spec_addresses()[j]
            != address.bytes@ by {}
        false
    }

    /// Appends `address` unless the list holds it already or is full; returns
    /// whether it is listed afterwards.
    pub fn insert(&mut self, address: BdAddr) -> (r: bool)
        ensures
            ({
                let before = old(self).spec_addresses();
                let after = final(self).spec_addresses();
                if before.contains(address.bytes@) {
                    r && after == before
                } else if before.len() < SCAN_LIST_SIZE {
                    r && after == before.push(address.bytes@)
                } else {
                    !r && after == before
                }
            }),
    {
        if self.contains(&address) {
            return true;
        }
        let pushed = self.push(address.bytes);
        proof {
            assert(scan_list_contents(*self).map_values(|a: [u8; 6]| a@) =~= if pushed is None {
                old(self).spec_addresses().push(address.bytes@)
            } else {
                old(self).spec_addresses()
            });
        }
        pushed.is_none()
    }
}

/// The cards of `cards` added one after another to an empty set: a card
/// already held, or one that finds the set full, is dropped.
pub open spec fn added_in_order(cards: Seq<PolicyCardId>) -> Seq<PolicyCardId>
    decreases cards.len(),
{
    if cards.len() == 0 {
        Seq::empty()
    } else {
        let held = added_in_order(cards.drop_last());
        if held.contains(cards.last()) || held.len() >= DETECTED_CARDS_CAPACITY {
            held
        } else {
            held.push(cards.last())
        }
    }
}

impl PolicyCardSet {
    /// Relies on `heapless::IndexSet::new`: an empty set.
    #[verifier::external_body]
    pub(crate) fn new() -> (r: PolicyCardSet)
        ensures
            policy_set_contents(r) == Seq::<PolicyCardId>::empty(),
    {
        PolicyCardSet { cards: FnvIndexSet::new() }
    }

    /// Relies on `heapless::IndexSet::insert`: a card already held leaves the
    /// set as it is (`Some(false)`); another is appended (`Some(true)`), unless
    /// the set is full (`None`).
    #[verifier::external_body]
    fn insert(&mut self, card: PolicyCardId) -> (r: Option<bool>)
        ensures
            policy_set_contents(*old(self)).contains(card) ==> r == Some(false) && policy_set_contents(*final(self)) == policy_set_contents(*old(self)),
            !policy_set_contents(*old(self)).contains(card) && policy_set_contents(*old(self)).len() < DETECTED_CARDS_CAPACITY ==> r == Some(true) && policy_set_contents(*final(self)) == policy_set_contents(*old(self)).push(card),
            !policy_set_contents(*old(self)).contains(card) && policy_set_contents(*old(self)).len() >= DETECTED_CARDS_CAPACITY ==> r is None && policy_set_contents(*final(self)) == policy_set_contents(*old(self)),
    {
        self.cards.insert(card).ok()
    }

    /// Relies on `heapless::IndexSet::iter`: the cards in insertion order, each
    /// mapped to its team; the set holds at most its capacity.
    #[verifier::external_body]
    fn teams(&self) -> (r: Vec<Team>)
        ensures
            r@ == policy_set_contents(*self).map_values(|c: PolicyCardId| c.team),
            r@.len() <= DETECTED_CARDS_CAPACITY,
    {
        self.cards.iter().map(|c| c.team).collect()
    }

    /// The set of `cards`, each added once, in order, as long as there is room.
    pub fn from_cards(cards: &[PolicyCardId]) -> (r: PolicyCardSet)
        ensures
            policy_set_contents(r) == added_in_order(cards@),
            policy_set_contents(r).len() <= DETECTED_CARDS_CAPACITY,
    {
        let mut set = PolicyCardSet::new();
        let mut i: usize = 0;
        proof {
            assert(cards@.take(0) =~= Seq::<PolicyCardId>::empty());
        }
        while i < cards.len()
            invariant
                i <= cards@.len(),
                policy_set_contents(set) == added_in_order(cards@.take(i as int)),
                policy_set_contents(set).len() <= DETECTED_CARDS_CAPACITY,
            decreases cards@.len() - i,
        {
            let card = cards[i];
            let _ = set.insert(card);
            assert(cards@.take(i + 1).drop_last() =~= cards@.take(i as int));
            i = i + 1;
        }
        assert(cards@.take(cards@.len() as int) =~= cards@);
        set
    }
}

#[derive(Debug, Clone, Copy, PartialEq, Eq, Structural)]
pub enum ConnectState {
    Connecting,
    Connected,
}

#[derive(Debug, Clone, Copy, PartialEq, Eq)]
pub struct ConnectionStatus {
    pub peripheral_address: BdAddr,
    pub state: ConnectState,
}

#[derive(Debug)]
pub enum ConnectionAction {
    Scan { peripherals: ScanList },
    Connect(ConnectionStatus),
}

/// The items of the connecting / connected screen.
#[derive(Debug, Clone, Copy, PartialEq, Eq, Structural)]
pub enum ConnectingConnectedSelectedItem {
    Back,
    /// Highlight the text that says connecting to ...
    Title,
    Cancel,
}

impl ConnectingConnectedSelectedItem {
    pub const COUNT: usize = 3;

    pub open spec fn spec_from_index(i: nat) -> ConnectingConnectedSelectedItem {
        if i == 0 {
            ConnectingConnectedSelectedItem::Back
        } else if i == 1 {
            ConnectingConnectedSelectedItem::Title
        } else {
            ConnectingConnectedSelectedItem::Cancel
        }
    }

    pub fn from_index(i: usize) -> (r: ConnectingConnectedSelectedItem)
        requires
            i < Self::COUNT,
        ensures
            r == Self::spec_from_index(i as nat),
    {
        if i == 0 {
            ConnectingConnectedSelectedItem::Back
        } else if i == 1 {
            ConnectingConnectedSelectedItem::Title
        } else {
            ConnectingConnectedSelectedItem::Cancel
        }
    }
}

/// The first items of the scanning screen; the scanned devices follow them.
#[derive(Debug, Clone, Copy, PartialEq, Eq, Structural)]
pub enum ScanningSelectedItem {
    Back,
    Title,
}

impl ScanningSelectedItem {
    pub const COUNT: usize = 2;

    /// The index of the `Title` item.
    pub const TITLE: usize = 1;
}

#[derive(Debug, Clone, Copy, PartialEq, Eq, Structural)]
pub enum BluetoothScreen {
    Scanning {
        scroll_y: u32,
        /// See [`ScanningSelectedItem`] for the first two items, then one item
        /// for each scanned device.
        selected_item: usize,
    },
    ConnectingConnected {
        scroll_y: u32,
        /// See [`ConnectingConnectedSelectedItem`].
        selected_item: usize,
    },
}

#[derive(Debug, Clone, Copy, PartialEq, Eq, Structural)]
pub enum MainMenuSelectedItem {
    StartGame,
    Bluetooth,
}

impl MainMenuSelectedItem {
    pub const COUNT: usize = 2;

    /// The index of the `Bluetooth` item.
    pub const BLUETOOTH: usize = 1;
}

#[derive(Debug, Clone, Copy, PartialEq, Eq, Structural)]
pub struct MainMenuScreen {
    pub scroll_y: u32,
    /// See [`MainMenuSelectedItem`].
    pub selected_item: usize,
}

#[derive(Debug, Clone, Copy, PartialEq, Eq, Structural)]
pub enum GameScreen {
    MainMenu(MainMenuScreen),
    Bluetooth(BluetoothScreen),
}

#[derive(Debug)]
pub struct GameStateSettingUp {
    pub connection_action: ConnectionAction,
    pub screen: GameScreen,
}

#[derive(Debug, Clone, Copy, PartialEq, Eq, Structural)]
pub enum HitlerState {
    /// It has not been publicly revealed who hitler is.
    Secret,
    /// Hitler was elected as chancellor at a point when 3+ fascist policies were
    /// placed, and the fascist team won.
    ElectedChancellor,
    /// Hitler was killed, and the liberal team won.
    Dead,
}

#[derive(Debug, Clone, Copy, PartialEq, Eq, Structural)]
pub enum FascistAction {
    /// The president checks another player's party.
    CheckParty,
    /// The president chooses another player to be the next president.
    ChooseNextPresident,
    /// The president chooses another player to kill.
    Kill,
    /// The president examines the top 3 cards.
    /// This action only exists when there are 5-6 players in the game.
    ExamineTop3,
}

/// The presidential power of the last fascist policy placed, by the number of
/// players (5 to 10) and of fascist policies placed.
pub open spec fn spec_latest_action(players: u8, fascist_policies_placed: usize) -> Option<
    FascistAction,
> {
    if players <= 6 {
        if fascist_policies_placed == 3 {
            Some(FascistAction::ExamineTop3)
        } else if fascist_policies_placed == 4 || fascist_policies_placed == 5 {
            Some(FascistAction::Kill)
        } else {
            None
        }
    } else if players <= 8 {
        if fascist_policies_placed == 2 {
            Some(FascistAction::CheckParty)
        } else if fascist_policies_placed == 3 {
            Some(FascistAction::ChooseNextPresident)
        } else if fascist_policies_placed == 4 || fascist_policies_placed == 5 {
            Some(FascistAction::Kill)
        } else {
            None
        }
    } else {
        if fascist_policies_placed == 1 || fascist_policies_placed == 2 {
            Some(FascistAction::CheckParty)
        } else if fascist_policies_placed == 3 {
            Some(FascistAction::ChooseNextPresident)
        } else if fascist_policies_placed == 4 || fascist_policies_placed == 5 {
            Some(FascistAction::Kill)
        } else {
            None
        }
    }
}

pub fn latest_action(players: u8, fascist_policies_placed: usize) -> (r: Option<FascistAction>)
    requires
        5 <= players <= 10,
    ensures
        r == spec_latest_action(players, fascist_policies_placed),
{
    match players {
        5 | 6 => match fascist_policies_placed {
            3 => Some(FascistAction::ExamineTop3),
            4 | 5 => Some(FascistAction::Kill),
            _ => None,
        },
        7 | 8 => match fascist_policies_placed {
            2 => Some(FascistAction::CheckParty),
            3 => Some(FascistAction::ChooseNextPresident),
            4 | 5 => Some(FascistAction::Kill),
            _ => None,
        },
        _ => match fascist_policies_placed {
            1 | 2 => Some(FascistAction::CheckParty),
            3 => Some(FascistAction::ChooseNextPresident),
            4 | 5 => Some(FascistAction::Kill),
            _ => None,
        },
    }
}

impl FascistAction {
    /// Every action but `Kill` can be dismissed with a button press.
    pub fn can_clear_with_button_press(&self) -> (r: bool)
        ensures
            r == (*self != FascistAction::Kill),
    {
        match self {
            FascistAction::CheckParty | FascistAction::ChooseNextPresident
            | FascistAction::ExamineTop3 => true,
            FascistAction::Kill => false,
        }
    }
}

#[derive(Debug, Clone, Copy, PartialEq, Eq, Structural, PartialOrd, Ord, Hash)]
pub enum Team {
    Liberal,
    Fascist,
}

/// Uniquely identifies one of the 17 policy cards.
#[derive(Debug, Clone, Copy, PartialEq, Eq, PartialOrd, Ord, Hash)]
pub struct PolicyCardId {
    pub team: Team,
    pub id: usize,
}

/// The policy cards detected on each board. Players can place a card on the
/// wrong board, so both sets may hold cards of either team.
#[derive(Debug)]
pub struct DetectedPolicyCards {
    pub liberal: PolicyCardSet,
    pub fascist: PolicyCardSet,
}

#[derive(Debug, Clone, Copy, PartialEq, Eq, Structural)]
pub enum SecretRole {
    /// There are up to 6 liberals.
    Liberal,
    /// There are up to 3 fascists + 1 hitler.
    Fascist,
    /// There is always exactly 1 hitler.
    Hitler,
}

#[derive(Debug, Clone, Copy, PartialEq, Eq, Structural)]
pub struct CharacterCardId {
    pub secret_role: SecretRole,
    pub id: usize,
}

#[derive(Debug, Clone, Copy, PartialEq, Eq, Structural)]
pub enum AuraLedColor {
    /// A blueish color for the liberal board and a reddish color for the fascist
    /// board, or something else if the theme is different.
    BoardSpecific,
    /// When the liberals win, the fascist board aura also turns blue.
    LiberalWin,
    /// When the fascists win, the liberal board aura also turns red.
    FascistWin,
}

#[derive(Debug, Clone, Copy, PartialEq, Eq, Structural)]
pub struct LedsDisplay {
    pub aura_led_color: AuraLedColor,
    /// The number of liberal policy LEDs that are lit up.
    pub liberal_policy_leds: usize,
    /// The number of fascist policy LEDs that are lit up.
    pub fascist_policy_leds: usize,
    /// The number of election tracker LEDs that are lit up.
    pub election_tracker_leds: usize,
}

#[derive(Debug, Clone, Copy, PartialEq, Eq)]
pub enum BleAction {
    Scan,
    MaintainConnection(BdAddr),
}

#[derive(Debug, Clone, Copy, PartialEq, Eq, Structural)]
pub enum Input {
    Up,
    Down,
    Click,
}

#[derive(Debug, Clone, Copy, PartialEq, Eq)]
pub struct GameStatePlaying {
    /// The game has 5-10 players. Once the game is started, the number of
    /// players cannot be adjusted.
    pub players: u8,
    pub connection_status: ConnectionStatus,
    pub liberal_policies_placed: usize,
    pub fascist_policies_placed: usize,
    pub hitler_state: HitlerState,
    pub election_fail_streak: usize,
    /// Whether the hint for the power of the last fascist policy is shown. A
    /// power that `can_clear_with_button_press` stays until a button press, a
    /// new policy or the removal of the card; `Kill` stays until a dead
    /// character card is scanned or the card is removed.
    pub pending_action: bool,
}

impl GameStatePlaying {
    pub open spec fn spec_winner(self) -> Option<Team> {
        match self.hitler_state {
            HitlerState::Secret => if self.liberal_policies_placed == LIBERAL_BOARD_SLOTS {
                Some(Team::Liberal)
            } else if self.fascist_policies_placed == FASCIST_BOARD_SLOTS {
                Some(Team::Fascist)
            } else {
                None
            },
            HitlerState::ElectedChancellor => Some(Team::Fascist),
            HitlerState::Dead => Some(Team::Liberal),
        }
    }

    /// The liberals win with five liberal policies or a dead hitler; the
    /// fascists with six fascist policies or hitler elected chancellor.
    pub fn winner(&self) -> (r: Option<Team>)
        ensures
            r == self.spec_winner(),
    {
        match self.hitler_state {
            HitlerState::Secret => {
                if self.liberal_policies_placed == LIBERAL_BOARD_SLOTS {
                    Some(Team::Liberal)
                } else if self.fascist_policies_placed == FASCIST_BOARD_SLOTS {
                    Some(Team::Fascist)
                } else {
                    None
                }
            },
            HitlerState::ElectedChancellor => Some(Team::Fascist),
            HitlerState::Dead => Some(Team::Liberal),
        }
    }
}

#[derive(Debug)]
pub enum GameState {
    SettingUp(GameStateSettingUp),
    Playing(GameStatePlaying),
}

/// How many cards of `team` are in `teams`.
pub open spec fn count_team(teams: Seq<Team>, team: Team) -> nat
    decreases teams.len(),
{
    if teams.len() == 0 {
        0
    } else {
        count_team(teams.drop_last(), team) + if teams.last() == team {
            1nat
        } else {
            0nat
        }
    }
}

impl DetectedPolicyCards {
    /// How many detected cards, on either board, are policies of `team`.
    pub open spec fn spec_count(self, team: Team) -> nat {
        count_team(policy_set_contents(self.liberal).map_values(|c: PolicyCardId| c.team), team)
            + count_team(policy_set_contents(self.fascist).map_values(|c: PolicyCardId| c.team), team)
    }
}

fn count_in(teams: &Vec<Team>, team: Team) -> (r: usize)
    requires
        teams@.len() <= DETECTED_CARDS_CAPACITY,
    ensures
        r == count_team(teams@, team),
        r <= DETECTED_CARDS_CAPACITY,
{
    let mut count: usize = 0;
    let mut i: usize = 0;
    while i < teams.len()
        invariant
            i <= teams@.len(),
            teams@.len() <= DETECTED_CARDS_CAPACITY,
            count == count_team(teams@.take(i as int), team),
            count <= i,
        decreases teams@.len() - i,
    {
        assert(teams@.take(i + 1).drop_last() =~= teams@.take(i as int));
        if teams[i] == team {
            count = count + 1;
        }
        i = i + 1;
    }
    assert(teams@.take(teams@.len() as int) =~= teams@);
    count
}

impl GameState {
    /// A playing game has 5 to 10 players.
    pub open spec fn wf(&self) -> bool {
        match self {
            GameState::Playing(p) => 5 <= p.players <= 10,
            GameState::SettingUp(_) => true,
        }
    }

    /// Sets up a game on the main menu; with an address, the game connects to
    /// that device, else it scans.
    pub fn new(peripheral_address: Option<BdAddr>) -> (r: Self)
        ensures
            r.wf(),
            r matches GameState::SettingUp(s) && s.screen == GameScreen::MainMenu(
                MainMenuScreen { scroll_y: 0, selected_item: 0 },
            ) && match peripheral_address {
                Some(address) => s.connection_action == ConnectionAction::Connect(
                    ConnectionStatus { peripheral_address: address, state: ConnectState::Connecting },
                ),
                None => s.connection_action matches ConnectionAction::Scan { peripherals }
                    && scan_list_contents(peripherals) == Seq::<[u8; 6]>::empty(),
            },
    {
        GameState::SettingUp(
            GameStateSettingUp {
                connection_action: match peripheral_address {
                    Some(address) => ConnectionAction::Connect(
                        ConnectionStatus {
                            peripheral_address: address,
                            state: ConnectState::Connecting,
                        },
                    ),
                    None => ConnectionAction::Scan { peripherals: ScanList::new() },
                },
                screen: GameScreen::MainMenu(MainMenuScreen { scroll_y: 0, selected_item: 0 }),
            },
        )
    }

    /// What the Bluetooth radio should do: scan while setting up without a
    /// device chosen, else keep the connection to the chosen device.
    pub fn ble_action(&self) -> (r: BleAction)
        ensures
            r == match self {
                GameState::SettingUp(s) => match s.connection_action {
                    ConnectionAction::Scan { .. } => BleAction::Scan,
                    ConnectionAction::Connect(status) => BleAction::MaintainConnection(
                        status.peripheral_address,
                    ),
                },
                GameState::Playing(p) => BleAction::MaintainConnection(
                    p.connection_status.peripheral_address,
                ),
            },
    {
        match self {
            GameState::SettingUp(state) => match &state.connection_action {
                ConnectionAction::Scan { .. } => BleAction::Scan,
                ConnectionAction::Connect(status) => BleAction::MaintainConnection(
                    status.peripheral_address,
                ),
            },
            GameState::Playing(state) => BleAction::MaintainConnection(
                state.connection_status.peripheral_address,
            ),
        }
    }

    /// Whether the game keeps a connection (rather than scanning).
    pub open spec fn spec_has_connection(&self) -> bool {
        match self {
            GameState::SettingUp(s) => s.connection_action is Connect,
            GameState::Playing(_) => true,
        }
    }

    /// Whether `other` is the game with the connection's state set to `state`.
    pub open spec fn spec_with_connect_state(&self, state: ConnectState, other: &GameState) -> bool {
        match (self, other) {
            (GameState::SettingUp(a), GameState::SettingUp(b)) => a.screen == b.screen && match (
                a.connection_action,
                b.connection_action,
            ) {
                (ConnectionAction::Connect(x), ConnectionAction::Connect(y)) => y == (
                ConnectionStatus { state, ..x }),
                _ => false,
            },
            (GameState::Playing(a), GameState::Playing(b)) => *b == (GameStatePlaying {
                connection_status: ConnectionStatus { state, ..a.connection_status },
                ..*a
            }),
            _ => false,
        }
    }

    fn set_connect_state(&mut self, new_state: ConnectState)
        requires
            old(self).spec_has_connection(),
        ensures
            old(self).spec_with_connect_state(new_state, final(self)),
    {
        match self {
            GameState::SettingUp(state) => match &mut state.connection_action {
                ConnectionAction::Connect(status) => {
                    status.state = new_state;
                },
                ConnectionAction::Scan { .. } => {},
            },
            GameState::Playing(state) => {
                state.connection_status.state = new_state;
            },
        }
    }

    /// The chosen device is connected.
    pub fn ble_connected(&mut self)
        requires
            old(self).spec_has_connection(),
        ensures
            old(self).spec_with_connect_state(ConnectState::Connected, final(self)),
    {
        self.set_connect_state(ConnectState::Connected);
    }

    /// The chosen device is disconnected: the game connects again.
    pub fn ble_disconnected(&mut self)
        requires
            old(self).spec_has_connection(),
        ensures
            old(self).spec_with_connect_state(ConnectState::Connecting, final(self)),
    {
        self.set_connect_state(ConnectState::Connecting);
    }

    /// The addresses found by the scan, while scanning.
    pub open spec fn spec_scanned(&self) -> Seq<Seq<u8>> {
        match self {
            GameState::SettingUp(s) => match s.connection_action {
                ConnectionAction::Scan { peripherals } => peripherals.spec_addresses(),
                ConnectionAction::Connect(_) => Seq::empty(),
            },
            GameState::Playing(_) => Seq::empty(),
        }
    }

    pub open spec fn spec_is_scanning(&self) -> bool {
        self matches GameState::SettingUp(s) && s.connection_action is Scan
    }

    /// The scanning screen only shows while the game scans.
    pub open spec fn spec_scanning_screen_scans(&self) -> bool {
        match self {
            GameState::SettingUp(s) => s.screen matches GameScreen::Bluetooth(
                BluetoothScreen::Scanning { .. },
            ) ==> s.connection_action is Scan,
            GameState::Playing(_) => true,
        }
    }

    /// The screen, while setting up.
    pub open spec fn spec_screen(&self) -> GameScreen {
        match self {
            GameState::SettingUp(s) => s.screen,
            GameState::Playing(_) => GameScreen::MainMenu(MainMenuScreen { scroll_y: 0, selected_item: 0 }),
        }
    }

    /// A device was found while scanning: it is listed, unless it is listed
    /// already or the list is full.
    pub fn ble_peripheral_found(&mut self, address: BdAddr)
        requires
            old(self).spec_is_scanning(),
        ensures
            final(self).spec_is_scanning(),
            final(self).spec_screen() == old(self).spec_screen(),
            final(self).spec_scanned() == if !old(self).spec_scanned().contains(address.bytes@)
                && old(self).spec_scanned().len() < SCAN_LIST_SIZE {
                old(self).spec_scanned().push(address.bytes@)
            } else {
                old(self).spec_scanned()
            },
    {
        match self {
            GameState::SettingUp(state) => match &mut state.connection_action {
                ConnectionAction::Scan { peripherals } => {
                    let _ = peripherals.insert(address);
                },
                ConnectionAction::Connect(_) => {},
            },
            GameState::Playing(_) => {},
        }
    }

    /// Whether the NFC readers should be polled for policy cards and dead
    /// character cards: only while playing.
    pub fn should_scan_cards(&self) -> (r: bool)
        ensures
            r == (*self is Playing),
    {
        match self {
            GameState::SettingUp(_) => false,
            GameState::Playing(_) => true,
        }
    }

    /// The power whose hint is shown, if any.
    pub open spec fn spec_action_hint(&self) -> Option<FascistAction> {
        match self {
            GameState::Playing(p) => if p.pending_action {
                spec_latest_action(p.players, p.fascist_policies_placed)
            } else {
                None
            },
            GameState::SettingUp(_) => None,
        }
    }

    pub fn display_action_hint(&self) -> (r: Option<FascistAction>)
        requires
            self.wf(),
        ensures
            r == self.spec_action_hint(),
    {
        match self {
            GameState::Playing(state) => {
                if state.pending_action {
                    latest_action(state.players, state.fascist_policies_placed)
                } else {
                    None
                }
            },
            GameState::SettingUp(_) => None,
        }
    }

    /// What the board's LEDs show: nothing lit while setting up; while playing,
    /// the policies placed, the election tracker and the winner's aura.
    pub fn get_leds(&self) -> (r: LedsDisplay)
        ensures
            r == match self {
                GameState::SettingUp(_) => LedsDisplay {
                    aura_led_color: AuraLedColor::BoardSpecific,
                    liberal_policy_leds: 0,
                    fascist_policy_leds: 0,
                    election_tracker_leds: 0,
                },
                GameState::Playing(p) => LedsDisplay {
                    aura_led_color: match p.spec_winner() {
                        Some(Team::Liberal) => AuraLedColor::LiberalWin,
                        Some(Team::Fascist) => AuraLedColor::FascistWin,
                        None => AuraLedColor::BoardSpecific,
                    },
                    liberal_policy_leds: p.liberal_policies_placed,
                    fascist_policy_leds: p.fascist_policies_placed,
                    election_tracker_leds: p.election_fail_streak,
                },
            },
    {
        match self {
            GameState::SettingUp(_) => LedsDisplay {
                aura_led_color: AuraLedColor::BoardSpecific,
                liberal_policy_leds: 0,
                fascist_policy_leds: 0,
                election_tracker_leds: 0,
            },
            GameState::Playing(state) => LedsDisplay {
                aura_led_color: match state.winner() {
                    Some(Team::Liberal) => AuraLedColor::LiberalWin,
                    Some(Team::Fascist) => AuraLedColor::FascistWin,
                    None => AuraLedColor::BoardSpecific,
                },
                liberal_policy_leds: state.liberal_policies_placed,
                fascist_policy_leds: state.fascist_policies_placed,
                election_tracker_leds: state.election_fail_streak,
            },
        }
    }

    /// The game after the detected policy cards became `cards`.
    pub open spec fn spec_after_cards(p: GameStatePlaying, cards: DetectedPolicyCards) -> GameStatePlaying {
        let liberal = cards.spec_count(Team::Liberal);
        let fascist = cards.spec_count(Team::Fascist);
        GameStatePlaying {
            liberal_policies_placed: liberal as usize,
            fascist_policies_placed: fascist as usize,
            election_fail_streak: if liberal > p.liberal_policies_placed || fascist
                > p.fascist_policies_placed {
                0
            } else {
                p.election_fail_streak
            },
            pending_action: if fascist > p.fascist_policies_placed {
                spec_latest_action(p.players, fascist as usize) is Some
            } else if liberal > p.liberal_policies_placed {
                false
            } else {
                p.pending_action
            },
            ..p
        }
    }

    /// Replaces the detected policy cards with `cards` (the board a card lies on
    /// does not matter). A new policy resets the election tracker; a new
    /// liberal policy ends the hint; a new fascist policy shows the hint of its
    /// power, if it has one.
    pub fn update_scanned_policy_cards(&mut self, cards: DetectedPolicyCards)
        requires
            old(self).wf(),
            *old(self) is Playing,
        ensures
            final(self).wf(),
            *old(self) matches GameState::Playing(p) && *final(self) == GameState::Playing(
                GameState::spec_after_cards(p, cards),
            ),
            *final(self) matches GameState::Playing(q) && q.liberal_policies_placed
                == cards.spec_count(Team::Liberal) && q.fascist_policies_placed == cards.spec_count(
                Team::Fascist,
            ),
    {
        let liberal_teams = cards.liberal.teams();
        let fascist_teams = cards.fascist.teams();
        let liberal_policies_placed = count_in(&liberal_teams, Team::Liberal) + count_in(
            &fascist_teams,
            Team::Liberal,
        );
        let fascist_policies_placed = count_in(&liberal_teams, Team::Fascist) + count_in(
            &fascist_teams,
            Team::Fascist,
        );
        match self {
            GameState::Playing(state) => {
                if liberal_policies_placed > state.liberal_policies_placed
                    || fascist_policies_placed > state.fascist_policies_placed {
                    state.election_fail_streak = 0;
                }
                if liberal_policies_placed > state.liberal_policies_placed {
                    state.pending_action = false;
                }
                if fascist_policies_placed > state.fascist_policies_placed {
                    state.pending_action = latest_action(
                        state.players,
                        fascist_policies_placed,
                    ).is_some();
                }
                state.liberal_policies_placed = liberal_policies_placed;
                state.fascist_policies_placed = fascist_policies_placed;
            },
            GameState::SettingUp(_) => {},
        }
    }

    /// A dead character card was scanned. While the last fascist policy's
    /// `Kill` is pending, this ends it, and hitler's death ends the game;
    /// otherwise nothing changes.
    pub fn process_dead_character(&mut self, character: CharacterCardId)
        requires
            old(self).wf(),
            *old(self) is Playing,
        ensures
            final(self).wf(),
            *old(self) matches GameState::Playing(p) && *final(self) == GameState::Playing(
                if spec_latest_action(p.players, p.fascist_policies_placed) == Some(
                    FascistAction::Kill,
                ) && p.pending_action {
                    GameStatePlaying {
                        hitler_state: if character.secret_role == SecretRole::Hitler {
                            HitlerState::Dead
                        } else {
                            p.hitler_state
                        },
                        pending_action: false,
                        ..p
                    }
                } else {
                    p
                },
            ),
    {
        match self {
            GameState::Playing(state) => {
                let kill = match latest_action(state.players, state.fascist_policies_placed) {
                    Some(FascistAction::Kill) => true,
                    _ => false,
                };
                if kill && state.pending_action {
                    match character.secret_role {
                        SecretRole::Hitler => {
                            state.hitler_state = HitlerState::Dead;
                        },
                        _ => {},
                    }
                    state.pending_action = false;
                }
            },
            GameState::SettingUp(_) => {},
        }
    }
}

/// `n + 1` (saturating), but at most `bound`.
pub open spec fn spec_step_down(n: usize, bound: usize) -> usize {
    let next = if n < usize::MAX {
        (n + 1) as usize
    } else {
        n
    };
    if next < bound {
        next
    } else {
        bound
    }
}

/// `n - 1`, but at least `0`.
pub open spec fn spec_step_up(n: usize) -> usize {
    if n > 0 {
        (n - 1) as usize
    } else {
        0
    }
}

impl GameState {
    /// The inputs that the game can take in its state: a click on the main
    /// menu or on the connecting screen selects an item that exists; the
    /// scanning screen comes with a scan, and a click there selects an item
    /// that exists; while playing, a pending hint belongs to a power.
    pub open spec fn spec_input_ok(&self, input: Input) -> bool {
        match self {
            GameState::SettingUp(s) => match s.screen {
                GameScreen::MainMenu(m) => input == Input::Click ==> m.selected_item
                    < MainMenuSelectedItem::COUNT,
                GameScreen::Bluetooth(BluetoothScreen::Scanning { selected_item, .. }) => {
                    &&& self.spec_scanning_screen_scans()
                    &&& input == Input::Click && selected_item >= ScanningSelectedItem::COUNT
                        ==> selected_item - ScanningSelectedItem::COUNT < self.spec_scanned().len()
                },
                GameScreen::Bluetooth(BluetoothScreen::ConnectingConnected { selected_item, .. }) => input
                    == Input::Click ==> selected_item < ConnectingConnectedSelectedItem::COUNT,
            },
            GameState::Playing(p) => p.pending_action ==> spec_latest_action(
                p.players,
                p.fascist_policies_placed,
            ) is Some,
        }
    }

    /// The scanning screen with the title selected.
    pub open spec fn spec_scanning_screen() -> GameScreen {
        GameScreen::Bluetooth(
            BluetoothScreen::Scanning { scroll_y: 0, selected_item: ScanningSelectedItem::TITLE },
        )
    }

    /// The main menu with `Bluetooth` selected.
    pub open spec fn spec_back_to_menu() -> GameScreen {
        GameScreen::MainMenu(
            MainMenuScreen { scroll_y: 0, selected_item: MainMenuSelectedItem::BLUETOOTH },
        )
    }

    /// Whether `next` is `self` with the screen `screen` and the same connection.
    pub open spec fn spec_same_setup_on(&self, screen: GameScreen, next: &GameState) -> bool {
        match (self, next) {
            (GameState::SettingUp(a), GameState::SettingUp(b)) => b.screen == screen
                && b.connection_action == a.connection_action,
            _ => false,
        }
    }

    /// The game after `input`, as the menus and the running game define it.
    pub open spec fn spec_input_step(&self, input: Input, next: &GameState) -> bool {
        match self {
            GameState::SettingUp(s) => match s.screen {
                GameScreen::MainMenu(m) => match input {
                    Input::Click => if m.selected_item == 0 {
                        match s.connection_action {
                            ConnectionAction::Connect(status) => *next == GameState::Playing(
                                GameStatePlaying {
                                    players: 10,
                                    connection_status: status,
                                    liberal_policies_placed: 0,
                                    fascist_policies_placed: 0,
                                    hitler_state: HitlerState::Secret,
                                    election_fail_streak: 0,
                                    pending_action: false,
                                },
                            ),
                            ConnectionAction::Scan { .. } => self.spec_same_setup_on(
                                GameState::spec_scanning_screen(),
                                next,
                            ),
                        }
                    } else {
                        self.spec_same_setup_on(GameState::spec_scanning_screen(), next)
                    },
                    Input::Down => self.spec_same_setup_on(
                        GameScreen::MainMenu(
                            MainMenuScreen {
                                selected_item: spec_step_down(
                                    m.selected_item,
                                    (MainMenuSelectedItem::COUNT - 1) as usize,
                                ),
                                ..m
                            },
                        ),
                        next,
                    ),
                    Input::Up => self.spec_same_setup_on(
                        GameScreen::MainMenu(
                            MainMenuScreen { selected_item: spec_step_up(m.selected_item), ..m },
                        ),
                        next,
                    ),
                },
                GameScreen::Bluetooth(BluetoothScreen::Scanning { scroll_y, selected_item }) => {
                    let scanned = self.spec_scanned();
                    match input {
                        Input::Click => if selected_item == 0 {
                            self.spec_same_setup_on(GameState::spec_back_to_menu(), next)
                        } else if selected_item == 1 {
                            *next == *self
                        } else {
                            match *next {
                                GameState::SettingUp(t) => t.screen == GameScreen::Bluetooth(
                                    BluetoothScreen::ConnectingConnected {
                                        scroll_y: 0,
                                        selected_item: 1,
                                    },
                                ) && match t.connection_action {
                                    ConnectionAction::Connect(status) => status.state
                                        == ConnectState::Connecting
                                        && status.peripheral_address.bytes@ == scanned[selected_item
                                        - ScanningSelectedItem::COUNT],
                                    ConnectionAction::Scan { .. } => false,
                                },
                                GameState::Playing(_) => false,
                            }
                        },
                        Input::Down => self.spec_same_setup_on(
                            GameScreen::Bluetooth(
                                BluetoothScreen::Scanning {
                                    scroll_y,
                                    selected_item: spec_step_down(
                                        selected_item,
                                        (ScanningSelectedItem::COUNT + scanned.len() - 1) as usize,
                                    ),
                                },
                            ),
                            next,
                        ),
                        Input::Up => self.spec_same_setup_on(
                            GameScreen::Bluetooth(
                                BluetoothScreen::Scanning {
                                    scroll_y,
                                    selected_item: spec_step_up(selected_item),
                                },
                            ),
                            next,
                        ),
                    }
                },
                GameScreen::Bluetooth(
                    BluetoothScreen::ConnectingConnected { scroll_y, selected_item },
                ) => match input {
                    Input::Click => match ConnectingConnectedSelectedItem::spec_from_index(
                        selected_item as nat,
                    ) {
                        ConnectingConnectedSelectedItem::Back => self.spec_same_setup_on(
                            GameState::spec_back_to_menu(),
                            next,
                        ),
                        ConnectingConnectedSelectedItem::Title => *next == *self,
                        ConnectingConnectedSelectedItem::Cancel => match *next {
                            GameState::SettingUp(t) => t.screen == GameScreen::Bluetooth(
                                BluetoothScreen::Scanning { scroll_y: 0, selected_item: 0 },
                            ) && match t.connection_action {
                                ConnectionAction::Scan { peripherals } => scan_list_contents(
                                    peripherals,
                                ) == Seq::<[u8; 6]>::empty(),
                                ConnectionAction::Connect(_) => false,
                            },
                            GameState::Playing(_) => false,
                        },
                    },
                    Input::Down => self.spec_same_setup_on(
                        GameScreen::Bluetooth(
                            BluetoothScreen::ConnectingConnected {
                                scroll_y,
                                selected_item: spec_step_down(
                                    selected_item,
                                    (ConnectingConnectedSelectedItem::COUNT - 1) as usize,
                                ),
                            },
                        ),
                        next,
                    ),
                    Input::Up => self.spec_same_setup_on(
                        GameScreen::Bluetooth(
                            BluetoothScreen::ConnectingConnected {
                                scroll_y,
                                selected_item: spec_step_up(selected_item),
                            },
                        ),
                        next,
                    ),
                },
            },
            GameState::Playing(p) => *next == GameState::Playing(
                GameStatePlaying {
                    pending_action: if p.pending_action && spec_latest_action(
                        p.players,
                        p.fascist_policies_placed,
                    ).unwrap() != FascistAction::Kill {
                        false
                    } else {
                        p.pending_action
                    },
                    ..*p
                },
            ),
        }
    }

    /// Takes in a button press. On the menus it moves the selection or opens
    /// the selected item (starting the game once a device is chosen); while
    /// playing, a click dismisses a hint that a button press can clear.
    pub fn process_input(&mut self, input: Input)
        requires
            old(self).wf(),
            old(self).spec_input_ok(input),
        ensures
            final(self).wf(),
            old(self).spec_input_step(input, final(self)),
    {
        let mut start: Option<ConnectionStatus> = None;
        match self {
            GameState::SettingUp(state) => match &mut state.screen {
                GameScreen::MainMenu(screen) => match input {
                    Input::Click => {
                        if screen.selected_item == 0 {
                            match &state.connection_action {
                                ConnectionAction::Connect(connection_status) => {
                                    start = Some(*connection_status);
                                },
                                ConnectionAction::Scan { .. } => {
                                    state.screen = GameScreen::Bluetooth(
                                        BluetoothScreen::Scanning {
                                            scroll_y: 0,
                                            selected_item: ScanningSelectedItem::TITLE,
                                        },
                                    );
                                },
                            }
                        } else {
                            state.screen = GameScreen::Bluetooth(
                                BluetoothScreen::Scanning {
                                    scroll_y: 0,
                                    selected_item: ScanningSelectedItem::TITLE,
                                },
                            );
                        }
                    },
                    Input::Down => {
                        let next = screen.selected_item.saturating_add(1);
                        screen.selected_item = if next < MainMenuSelectedItem::COUNT - 1 {
                            next
                        } else {
                            MainMenuSelectedItem::COUNT - 1
                        };
                    },
                    Input::Up => {
                        screen.selected_item = screen.selected_item.saturating_sub(1);
                    },
                },
                GameScreen::Bluetooth(BluetoothScreen::Scanning { scroll_y, selected_item }) => {
                    let mut chosen: Option<BdAddr> = None;
                    match &state.connection_action {
                        ConnectionAction::Scan { peripherals } => match input {
                            Input::Click => {
                                if *selected_item >= ScanningSelectedItem::COUNT {
                                    chosen = Some(
                                        BdAddr {
                                            bytes: peripherals.get(
                                                *selected_item - ScanningSelectedItem::COUNT,
                                            ),
                                        },
                                    );
                                }
                            },
                            Input::Down => {
                                let next = selected_item.saturating_add(1);
                                let bound = ScanningSelectedItem::COUNT + peripherals.len() - 1;
                                *selected_item = if next < bound {
                                    next
                                } else {
                                    bound
                                };
                            },
                            Input::Up => {
                                *selected_item = selected_item.saturating_sub(1);
                            },
                        },
                        ConnectionAction::Connect(_) => {},
                    }
                    if input == Input::Click {
                        if *selected_item == 0 {
                            state.screen = GameScreen::MainMenu(
                                MainMenuScreen {
                                    scroll_y: 0,
                                    selected_item: MainMenuSelectedItem::BLUETOOTH,
                                },
                            );
                        } else {
                            match chosen {
                                Some(address) => {
                                    state.connection_action = ConnectionAction::Connect(
                                        ConnectionStatus {
                                            peripheral_address: address,
                                            state: ConnectState::Connecting,
                                        },
                                    );
                                    state.screen = GameScreen::Bluetooth(
                                        BluetoothScreen::ConnectingConnected {
                                            scroll_y: 0,
                                            selected_item: 1,
                                        },
                                    );
                                },
                                None => {},
                            }
                        }
                    }
                },
                GameScreen::Bluetooth(
                    BluetoothScreen::ConnectingConnected { scroll_y, selected_item },
                ) => match input {
                    Input::Click => match ConnectingConnectedSelectedItem::from_index(
                        *selected_item,
                    ) {
                        ConnectingConnectedSelectedItem::Back => {
                            state.screen = GameScreen::MainMenu(
                                MainMenuScreen {
                                    scroll_y: 0,
                                    selected_item: MainMenuSelectedItem::BLUETOOTH,
                                },
                            );
                        },
                        ConnectingConnectedSelectedItem::Title => {},
                        ConnectingConnectedSelectedItem::Cancel => {
                            state.connection_action = ConnectionAction::Scan {
                                peripherals: ScanList::new(),
                            };
                            state.screen = GameScreen::Bluetooth(
                                BluetoothScreen::Scanning { scroll_y: 0, selected_item: 0 },
                            );
                        },
                    },
                    Input::Down => {
                        let next = selected_item.saturating_add(1);
                        *selected_item = if next < ConnectingConnectedSelectedItem::COUNT - 1 {
                            next
                        } else {
                            ConnectingConnectedSelectedItem::COUNT - 1
                        };
                    },
                    Input::Up => {
                        *selected_item = selected_item.saturating_sub(1);
                    },
                },
            },
            GameState::Playing(state) => {
                if state.pending_action {
                    match latest_action(state.players, state.fascist_policies_placed) {
                        Some(action) => {
                            if action.can_clear_with_button_press() {
                                state.pending_action = false;
                            }
                        },
                        None => {},
                    }
                }
            },
        }
        match start {
            Some(connection_status) => {
                *self = GameState::Playing(
                    GameStatePlaying {
                        players: 10,
                        connection_status,
                        liberal_policies_placed: 0,
                        fascist_policies_placed: 0,
                        hitler_state: HitlerState::Secret,
                        election_fail_streak: 0,
                        pending_action: false,
                    },
                );
            },
            None => {},
        }
    }
}

/// The upper-case hexadecimal digit of `n` (below 16).
pub open spec fn hex_digit(n: nat) -> char {
    seq!['0', '1', '2', '3', '4', '5', '6', '7', '8', '9', 'A', 'B', 'C', 'D', 'E', 'F'][n as int]
}

/// The two hexadecimal digits of a byte.
pub open spec fn hex_byte(b: u8) -> Seq<char> {
    seq![hex_digit((b / 16) as nat), hex_digit((b % 16) as nat)]
}

/// An address as text: its bytes from the most significant one, two
/// hexadecimal digits each, separated by colons (`05:04:03:02:01:00`).
pub open spec fn address_text(bytes: Seq<u8>) -> Seq<char> {
    hex_byte(bytes[5]) + seq![':'] + hex_byte(bytes[4]) + seq![':'] + hex_byte(bytes[3]) + seq![
        ':',
    ] + hex_byte(bytes[2]) + seq![':'] + hex_byte(bytes[1]) + seq![':'] + hex_byte(bytes[0])
}

/// Relies on the `Display` of `trouble_host::Address` for a random address of
/// these bytes: six upper-case hexadecimal pairs, most significant first,
/// separated by colons.
#[verifier::external_body]
fn random_address_text(bytes: [u8; 6]) -> (r: String)
    ensures
        r@ == address_text(bytes@),
{
    trouble_host::Address::random(bytes).to_string()
}

impl GameState {
    /// What the display shows while setting up: the main menu, or the list of
    /// scanned devices; `None` otherwise.
    pub fn screen(&self) -> (r: Option<Screen<String, Vec<String>>>)
        requires
            self.spec_scanning_screen_scans(),
        ensures
            match (self, r) {
                (GameState::SettingUp(s), Some(screen)) => match s.screen {
                    GameScreen::MainMenu(_) => {
                        &&& screen.title@ == "Setup"@
                        &&& !screen.can_go_back
                        &&& screen.items@.len() == 2
                        &&& screen.items@[0]@ == "Start Game"@
                        &&& screen.items@[1]@ == "Bluetooth"@
                        &&& screen.selected_item == SelectedItem::Item(0)
                    },
                    GameScreen::Bluetooth(BluetoothScreen::Scanning { .. }) => {
                        &&& screen.title@ == "Bluetooth"@
                        &&& screen.can_go_back
                        &&& screen.items@.len() == self.spec_scanned().len()
                        &&& forall|i: int|
                            0 <= i < screen.items@.len() ==> #[trigger] screen.items@[i]@
                                == address_text(self.spec_scanned()[i])
                        &&& screen.selected_item == SelectedItem::Item(0)
                    },
                    GameScreen::Bluetooth(BluetoothScreen::ConnectingConnected { .. }) => false,
                },
                (GameState::SettingUp(s), None) => s.screen is Bluetooth && !(s.screen matches GameScreen::Bluetooth(BluetoothScreen::Scanning { .. })),
                (GameState::Playing(_), None) => true,
                (GameState::Playing(_), Some(_)) => false,
            },
    {
        match self {
            GameState::SettingUp(state) => match state.screen {
                GameScreen::MainMenu(_) => {
                    let mut items: Vec<String> = Vec::new();
                    items.push("Start Game".to_owned());
                    items.push("Bluetooth".to_owned());
                    Some(
                        Screen {
                            title: "Setup".to_owned(),
                            can_go_back: false,
                            items,
                            selected_item: SelectedItem::Item(0),
                        },
                    )
                },
                GameScreen::Bluetooth(BluetoothScreen::Scanning { .. }) => {
                    let mut items: Vec<String> = Vec::new();
                    match &state.connection_action {
                        ConnectionAction::Scan { peripherals } => {
                            let n = peripherals.len();
                            let mut i: usize = 0;
                            while i < n
                                invariant
                                    i <= n,
                                    n == scan_list_contents(*peripherals).len(),
                                    items@.len() == i,
                                    forall|j: int|
                                        0 <= j < i ==> #[trigger] items@[j]@ == address_text(
                                            peripherals.spec_addresses()[j],
                                        ),
                                decreases n - i,
                            {
                                items.push(random_address_text(peripherals.get(i)));
                                i = i + 1;
                            }
                        },
                        ConnectionAction::Connect(_) => {},
                    }
                    Some(
                        Screen {
                            title: "Bluetooth".to_owned(),
                            can_go_back: true,
                            items,
                            selected_item: SelectedItem::Item(0),
                        },
                    )
                },
                _ => None,
            },
            _ => None,
        }
    }
}

} // verus!
