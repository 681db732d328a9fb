use vstd::prelude::*;
use crate::game_state::ChessPiece;

verus! {

/// Money a player starts a game with.
pub const INITIAL_MONEY: u32 = 100;

/// Experience a player starts a game with.
pub const INITIAL_EXPERIENCE: u32 = 0;

/// The names of the catalog's pieces, in catalog order.
pub open spec fn catalog_names() -> Seq<Seq<char>> {
    seq![
        "Mage"@,
        "Knight"@,
        "Assassin"@,
        "Mage"@,
        "Tank"@,
        "Knight"@,
        "Priest"@,
        "Hunter"@,
        "Assassin"@,
        "Archer"@,
        "Berserker"@,
        "Paladin"@,
        "Warlock"@,
        "Necromancer"@,
        "Druid"@,
        "Shaman"@,
        "Blademaster"@,
        "Sniper"@,
        "Engineer"@,
        "Beastmaster"@,
        "Phantom"@,
        "Guardian"@,
        "Elemental"@,
    ]
}

/// The costs of the catalog's pieces, in catalog order.
pub open spec fn catalog_costs() -> Seq<u32> {
    seq![3, 2, 4, 3, 3, 3, 3, 3, 3, 3, 3, 3, 3, 3, 3, 3, 3, 3, 3, 3, 3, 3, 3]
}

/// Every piece a player can be dealt; all of them are at level 1.
pub fn all_chess_pieces() -> (r: Vec<ChessPiece>)
    ensures
        r@.len() == catalog_names().len(),
        forall|i: int|
            0 <= i < r@.len() ==> (#[trigger] r@[i]).name@ == catalog_names()[i] && r@[i].cost
                == catalog_costs()[i] && r@[i].level == 1,
{
    let r = vec![
        ChessPiece { name: "Mage".to_owned(), cost: 3, level: 1 },
        ChessPiece { name: "Knight".to_owned(), cost: 2, level: 1 },
        ChessPiece { name: "Assassin".to_owned(), cost: 4, level: 1 },
        ChessPiece { name: "Mage".to_owned(), cost: 3, level: 1 },
        ChessPiece { name: "Tank".to_owned(), cost: 3, level: 1 },
        ChessPiece { name: "Knight".to_owned(), cost: 3, level: 1 },
        ChessPiece { name: "Priest".to_owned(), cost: 3, level: 1 },
        ChessPiece { name: "Hunter".to_owned(), cost: 3, level: 1 },
        ChessPiece { name: "Assassin".to_owned(), cost: 3, level: 1 },
        ChessPiece { name: "Archer".to_owned(), cost: 3, level: 1 },
        ChessPiece { name: "Berserker".to_owned(), cost: 3, level: 1 },
        ChessPiece { name: "Paladin".to_owned(), cost: 3, level: 1 },
        ChessPiece { name: "Warlock".to_owned(), cost: 3, level: 1 },
        ChessPiece { name: "Necromancer".to_owned(), cost: 3, level: 1 },
        ChessPiece { name: "Druid".to_owned(), cost: 3, level: 1 },
        ChessPiece { name: "Shaman".to_owned(), cost: 3, level: 1 },
        ChessPiece { name: "Blademaster".to_owned(), cost: 3, level: 1 },
        ChessPiece { name: "Sniper".to_owned(), cost: 3, level: 1 },
        ChessPiece { name: "Engineer".to_owned(), cost: 3, level: 1 },
        ChessPiece { name: "Beastmaster".to_owned(), cost: 3, level: 1 },
        ChessPiece { name: "Phantom".to_owned(), cost: 3, level: 1 },
        ChessPiece { name: "Guardian".to_owned(), cost: 3, level: 1 },
        ChessPiece { name: "Elemental".to_owned(), cost: 3, level: 1 },
    ];
    assert(r@.len() == catalog_names().len());
    r
}

/// Money a player starts a game with.
pub fn initial_money() -> (r: u32)
    ensures
        r == INITIAL_MONEY,
{
    INITIAL_MONEY
}

/// Experience a player starts a game with.
pub fn initial_experience() -> (r: u32)
    ensures
        r == INITIAL_EXPERIENCE,
{
    INITIAL_EXPERIENCE
}

} // verus!
