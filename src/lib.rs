//! Battle orchestration for an auto-chess match: a cyclic phase machine that
//! drives a time-ordered action queue, plus the player ledger, the game-state
//! store and the static catalogs the game server reads.

pub mod action_progression;
pub mod state_machine;
pub mod keyed;
pub mod skills;
pub mod units;
pub mod player;
pub mod game_state;
pub mod game_data;
pub mod game_state_control;

pub use action_progression::{ActionProgressionModule, ActionType, BattleAction, QueueView};
pub use state_machine::{ActionFault, BattleError, BattleEvent, BattleState, BattleStateMachine};
pub use player::{PlayerData, PlayerManager, XPData};
pub use game_state::{
    ChessPiece, GameState, PlayerGameState, ShopUnit, Synergy, UnitOnBench, UnitOnBoard, XpInfo,
};
pub use game_data::{all_chess_pieces, initial_experience, initial_money};
pub use game_state_control::GameStateControl;
pub use skills::{
    AoeShape, Skill, SkillEffect, SkillEffectMeta, SkillTarget, SkillType, StatusEffect,
    StatusEffectType, TriggerCondition,
};
pub use units::{Attrs, ChessTemplate, StarLevel, SynergyTag, Unit, UnitState};
