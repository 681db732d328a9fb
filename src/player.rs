use vstd::prelude::*;
use crate::keyed::{by_key, find_position, keys_unique, lemma_lookup, lemma_single, upsert, Keyed};

verus! {

/// Experience towards the next level.
#[derive(Debug, Clone)]
pub struct XPData {
    pub current: i32,
    pub required: i32,
}

/// A player's ledger entry.
#[derive(Debug, Clone)]
pub struct PlayerData {
    pub id: String,
    pub money: i32,
    pub xp: XPData,
}

/// What one purchase of experience costs.
pub const XP_PRICE: i32 = 4;

/// Experience needed for the first level-up of a new player.
pub const FIRST_REQUIRED_XP: i32 = 2;

/// Money the default player starts with.
pub const DEFAULT_PLAYER_MONEY: i32 = 100;

/// `x` held within the range of an `i32`.
pub open spec fn clamp_i32(x: int) -> int {
    if x > i32::MAX {
        i32::MAX as int
    } else if x < i32::MIN {
        i32::MIN as int
    } else {
        x
    }
}

/// The requirement after a level-up: one and a half times the old one,
/// rounded up, held within the range of an `i32`.
pub open spec fn grown_requirement(required: int) -> int {
    clamp_i32((3 * required + 1) / 2)
}

/// A player after buying experience once: the price is paid and one point of
/// experience gained; reaching the requirement levels up, which resets the
/// experience and raises the requirement.
pub open spec fn after_purchase(p: PlayerData) -> PlayerData {
    let gained = p.xp.current + 1;
    PlayerData {
        money: (p.money - XP_PRICE) as i32,
        xp: if gained >= p.xp.required {
            XPData { current: 0, required: grown_requirement(p.xp.required as int) as i32 }
        } else {
            XPData { current: gained as i32, required: p.xp.required }
        },
        ..p
    }
}

impl Keyed for PlayerData {
    open spec fn key(&self) -> Seq<char> {
        self.id@
    }

    fn key_ref(&self) -> (r: &String) {
        &self.id
    }
}

/// A field-by-field copy of a player record.
fn copy_player(p: &PlayerData) -> (r: PlayerData)
    ensures
        r == *p,
{
    PlayerData {
        id: p.id.clone(),
        money: p.money,
        xp: XPData { current: p.xp.current, required: p.xp.required },
    }
}

/// The player ledger: one record per player id.
pub struct PlayerManager {
    players: Vec<PlayerData>,
}

impl View for PlayerManager {
    type V = Map<Seq<char>, PlayerData>;

    closed spec fn view(&self) -> Map<Seq<char>, PlayerData> {
        by_key(self.players@)
    }
}

impl PlayerManager {
    pub closed spec fn wf(&self) -> bool {
        keys_unique(self.players@)
    }

    /// A ledger holding the default player alone.
    pub fn new() -> (r: Self)
        ensures
            r.wf(),
            r@.dom() == set!["p1"@],
            r@["p1"@].id@ == "p1"@,
            r@["p1"@].money == DEFAULT_PLAYER_MONEY,
            r@["p1"@].xp == (XPData { current: 0, required: FIRST_REQUIRED_XP }),
    {
        let first = PlayerData {
            id: "p1".to_owned(),
            money: DEFAULT_PLAYER_MONEY,
            xp: XPData { current: 0, required: FIRST_REQUIRED_XP },
        };
        let r = PlayerManager { players: vec![first] };
        proof {
            lemma_single(first);
            assert(r.players@ == seq![first]);
            assert(set!["p1"@] =~= Map::<Seq<char>, PlayerData>::empty().insert(first.id@, first).dom());
        }
        r
    }

    /// The record of `player_id`, if the ledger has one.
    pub fn get_player(&self, player_id: &str) -> (r: Option<PlayerData>)
        requires
            self.wf(),
        ensures
            r is Some <==> self@.contains_key(player_id@),
            r is Some ==> r.unwrap() == self@[player_id@],
    {
        let key = player_id.to_owned();
        match find_position(&self.players, &key) {
            Some(i) => {
                proof {
                    lemma_lookup(self.players@, i as int);
                }
                Some(copy_player(&self.players[i]))
            },
            None => None,
        }
    }

    /// Stores `player_data` under its id, replacing any record held there.
    pub fn update_player(&mut self, player_data: PlayerData)
        requires
            old(self).wf(),
        ensures
            final(self).wf(),
            final(self)@ == old(self)@.insert(player_data.id@, player_data),
    {
        upsert(&mut self.players, player_data);
    }

    /// Opens a record for `player_id` with no money and no experience,
    /// replacing any record held there, and returns it.
    pub fn create_player(&mut self, player_id: &str) -> (r: PlayerData)
        requires
            old(self).wf(),
        ensures
            final(self).wf(),
            r.id@ == player_id@,
            r.money == 0,
            r.xp == (XPData { current: 0, required: FIRST_REQUIRED_XP }),
            final(self)@ == old(self)@.insert(player_id@, r),
    {
        let player_data = PlayerData {
            id: player_id.to_owned(),
            money: 0,
            xp: XPData { current: 0, required: FIRST_REQUIRED_XP },
        };
        let r = copy_player(&player_data);
        self.update_player(player_data);
        r
    }

    /// Buys one point of experience for `player_id`, and returns the updated
    /// record. Fails, changing nothing, when the player is unknown or cannot pay.
    pub fn buy_xp(&mut self, player_id: &str) -> (r: Result<PlayerData, String>)
        requires
            old(self).wf(),
        ensures
            final(self).wf(),
            !old(self)@.contains_key(player_id@) ==> (r matches Err(e) && e@ == "Player not found"@)
                && final(self)@ == old(self)@,
            old(self)@.contains_key(player_id@) && old(self)@[player_id@].money < XP_PRICE ==> (r matches Err(
                e,
            ) && e@ == "not enough money"@) && final(self)@ == old(self)@,
            old(self)@.contains_key(player_id@) && old(self)@[player_id@].money >= XP_PRICE ==> r == Ok::<
                PlayerData,
                String,
            >(after_purchase(old(self)@[player_id@])) && final(self)@ == old(self)@.insert(
                player_id@,
                after_purchase(old(self)@[player_id@]),
            ),
    {
        let key = player_id.to_owned();
        let i = match find_position(&self.players, &key) {
            Some(i) => i,
            None => {
                return Err("Player not found".to_owned());
            },
        };
        proof {
            lemma_lookup(self.players@, i as int);
        }
        let player = &self.players[i];
        if player.money < XP_PRICE {
            return Err("not enough money".to_owned());
        }
        let gained = player.xp.current as i64 + 1;
        let xp = if gained >= player.xp.required as i64 {
            XPData { current: 0, required: grow_requirement(player.xp.required) }
        } else {
            XPData { current: gained as i32, required: player.xp.required }
        };
        let updated = PlayerData { id: player.id.clone(), money: player.money - XP_PRICE, xp };
        let r = copy_player(&updated);
        upsert(&mut self.players, updated);
        Ok(r)
    }
}

/// The requirement after a level-up, computed without overflow.
fn grow_requirement(required: i32) -> (r: i32)
    ensures
        r == grown_requirement(required as int),
{
    let t: i64 = 3 * (required as i64) + 1;
    let half: i64 = if t >= 0 {
        (t as u64 / 2) as i64
    } else {
        -((((-t) as u64 + 1) / 2) as i64)
    };
    assert(half == (3 * required + 1) / 2);
    if half > i32::MAX as i64 {
        i32::MAX
    } else if half < i32::MIN as i64 {
        i32::MIN
    } else {
        half as i32
    }
}

} // verus!
