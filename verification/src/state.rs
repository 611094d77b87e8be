//! Scene states of the game.
use vstd::prelude::*;

verus! {

/// The coarse scenes of the game: title, loading, map generation, the world
/// map, battle, event messages, and the ending.
#[derive(Clone, Copy, PartialEq, Eq, Structural, Debug, Hash)]
pub enum GameState {
    Title,
    Loading,
    Generating,
    WorldMap,
    Battle,
    Event,
    GameClear,
}

impl Default for GameState {
    /// A game starts on the title screen.
    fn default() -> (s: Self)
        ensures
            s == GameState::Title,
    {
        GameState::Title
    }
}

/// The scenes of the game.
#[derive(Clone, Copy, PartialEq, Eq, Structural, Debug, Hash)]
pub enum AppState {
    /// Assets are loading.
    Loading,
    /// A new map is being set up.
    InGameMap,
    /// The player walks the map.
    InGameExplore,
    /// A battle is under way.
    InGameBattle,
    /// A message is shown after an encounter, a town, or a battle.
    InGameEvent,
    /// The title menu.
    Menu,
}

/// Where the player is in the turn of a battle.
#[derive(Clone, Copy, PartialEq, Eq, Structural, Debug)]
pub enum PlayerBattleState {
    /// Choosing a skill.
    Select,
    /// The player's attack is playing.
    Attack,
    /// The enemy's attack is playing.
    Defense,
}

/// The player character.
#[derive(Clone, Copy, PartialEq, Eq, Structural, Debug)]
pub struct Player {
    pub battle_state: PlayerBattleState,
}

/// Marks something as belonging to some scenes only: it is removed when
/// another scene starts.
pub struct ForState<T> {
    pub states: Vec<T>,
}

impl ForState<AppState> {
    /// Whether this belongs to the scene `state`, and so stays when it starts.
    pub fn keeps(&self, state: &AppState) -> (r: bool)
        ensures
            r == self.states@.contains(*state),
    {
        let n = self.states.len();
        let mut i: usize = 0;
        while i < n
            invariant
                n == self.states@.len(),
                0 <= i <= n,
                forall|j: int| 0 <= j < i ==> self.states@[j] != *state,
            decreases n - i,
        {
            if self.states[i] == *state {
                return true;
            }
            i = i + 1;
        }
        false
    }
}

/// The drawing layers, back to front.
#[derive(Clone, Copy, PartialEq, Eq, Structural, Debug)]
pub enum RenderLayer {
    MapBackGround,
    MapForeGround,
    Player,
    BattleBackGround,
    BattleForeGround,
    BattleEffect,
}

/// The depth at which a layer is drawn.
pub open spec fn layer_depth(layer: RenderLayer) -> int {
    match layer {
        RenderLayer::MapBackGround => 0,
        RenderLayer::MapForeGround => 1,
        RenderLayer::Player => 2,
        RenderLayer::BattleBackGround => 3,
        RenderLayer::BattleForeGround => 4,
        RenderLayer::BattleEffect => 100,
    }
}

/// The depth at which a layer is drawn.
pub fn render_layer(layer: RenderLayer) -> (r: usize)
    ensures
        r == layer_depth(layer),
{
    match layer {
        RenderLayer::MapBackGround => 0,
        RenderLayer::MapForeGround => 1,
        RenderLayer::Player => 2,
        RenderLayer::BattleBackGround => 3,
        RenderLayer::BattleForeGround => 4,
        RenderLayer::BattleEffect => 100,
    }
}

/// Layers listed later are drawn in front of layers listed earlier.
pub proof fn lemma_layers_ordered()
    ensures
        layer_depth(RenderLayer::MapBackGround) < layer_depth(RenderLayer::MapForeGround),
        layer_depth(RenderLayer::MapForeGround) < layer_depth(RenderLayer::Player),
        layer_depth(RenderLayer::Player) < layer_depth(RenderLayer::BattleBackGround),
        layer_depth(RenderLayer::BattleBackGround) < layer_depth(RenderLayer::BattleForeGround),
        layer_depth(RenderLayer::BattleForeGround) < layer_depth(RenderLayer::BattleEffect),
{
}

/// The prompt of the title menu, which blinks.
pub open spec fn menu_prompt() -> Seq<char> {
    "Press 'Space' to start"@
}

/// The next text of the blinking title prompt: the prompt when it was hidden,
/// nothing when it was shown.
pub fn next_menu_text(current: &str) -> (r: String)
    ensures
        current@.len() == 0 ==> r@ == menu_prompt(),
        current@.len() != 0 ==> r@.len() == 0,
{
    if current.is_empty() {
        String::from_str("Press 'Space' to start")
    } else {
        String::new()
    }
}

/// The next text of the loading screen: a dot more, back to `Loading` once it
/// is longer than ten bytes.
pub fn next_loading_text(current: &str) -> (r: String)
    ensures
        current.len() > 10 ==> r@ == "Loading"@,
        current.len() <= 10 ==> r@ == current@ + "."@,
{
    if current.len() > 10 {
        String::from_str("Loading")
    } else {
        let mut r = String::from_str(current);
        r.append(".");
        r
    }
}

} // verus!
