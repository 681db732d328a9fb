use vstd::prelude::*;

verus! {

/// A piece on a player's bench.
#[derive(Debug, Clone)]
pub struct ChessPiece {
    pub name: String,
    pub cost: u32,
    pub level: u32,
}

/// The per-player state kept by the game-state store.
#[derive(Debug, Clone)]
pub struct PlayerGameState {
    pub player_id: String,
    pub money: u32,
    pub experience: u32,
    pub bench: Vec<ChessPiece>,
}

/// The full state of a game as a client sees it.
#[allow(non_snake_case)]
#[derive(Debug)]
pub struct GameState {
    pub round: u32,
    pub money: u32,
    pub playerId: String,
    pub board: Vec<UnitOnBoard>,
    pub bench: Vec<UnitOnBench>,
    pub shop: Vec<ShopUnit>,
    pub synergies: Vec<Synergy>,
    pub level: u32,
    pub xp: XpInfo,
}

/// A unit placed on the board, at column and row `position`.
#[derive(Debug)]
pub struct UnitOnBoard {
    pub id: String,
    pub chess: String,
    pub level: u32,
    pub position: [u32; 2],
}

/// A unit waiting on the bench.
#[derive(Debug)]
pub struct UnitOnBench {
    pub id: String,
    pub chess: String,
    pub level: u32,
}

/// A unit offered in the shop.
#[derive(Debug)]
pub struct ShopUnit {
    pub chess: String,
    pub level: u32,
}

/// An active synergy and how many units feed it.
#[allow(non_snake_case)]
#[derive(Debug)]
pub struct Synergy {
    pub name: String,
    pub count: u32,
    pub bonusLevel: u32,
}

/// Experience towards the next level, as a client sees it.
#[derive(Debug)]
pub struct XpInfo {
    pub current: u32,
    pub required: u32,
}

} // verus!
