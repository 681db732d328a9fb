use vstd::prelude::*;
use rand::seq::SliceRandom;
use crate::game_data::{
    all_chess_pieces, catalog_costs, catalog_names, initial_experience, initial_money,
    INITIAL_EXPERIENCE, INITIAL_MONEY,
};
use crate::game_state::{ChessPiece, PlayerGameState};
use crate::keyed::{by_key, find_position, keys_unique, lemma_lookup, upsert, Keyed};

verus! {

/// How many pieces a new player is dealt.
pub const BENCH_SIZE: usize = 5;

impl Keyed for PlayerGameState {
    open spec fn key(&self) -> Seq<char> {
        self.player_id@
    }

    fn key_ref(&self) -> (r: &String) {
        &self.player_id
    }
}

/// `s` is the starting state of `player_id` whose bench holds, in order, the
/// catalog pieces at `positions`.
pub open spec fn dealt_from(s: PlayerGameState, player_id: Seq<char>, positions: Seq<usize>) -> bool {
    &&& s.player_id@ == player_id
    &&& s.money == INITIAL_MONEY
    &&& s.experience == INITIAL_EXPERIENCE
    &&& s.bench@.len() == positions.len()
    &&& forall|i: int|
        0 <= i < positions.len() ==> (#[trigger] s.bench@[i]).name@ == catalog_names()[positions[i] as int]
            && s.bench@[i].cost == catalog_costs()[positions[i] as int] && s.bench@[i].level == 1
}

/// `a` and `b` hold the same player, money, experience and bench.
pub open spec fn same_state(a: PlayerGameState, b: PlayerGameState) -> bool {
    &&& a.player_id@ == b.player_id@
    &&& a.money == b.money
    &&& a.experience == b.experience
    &&& a.bench@ == b.bench@
}

/// `positions` picks a full bench of distinct catalog pieces.
pub open spec fn is_bench_draw(positions: Seq<usize>) -> bool {
    &&& positions.len() == BENCH_SIZE
    &&& forall|i: int| 0 <= i < positions.len() ==> #[trigger] positions[i] < catalog_names().len()
    &&& forall|i: int, j: int| 0 <= i < j < positions.len() ==> positions[i] != positions[j]
}

/// Relies on rand's `SliceRandom::choose_multiple`, applied to the positions
/// `0..len`: it returns `min(amount, len)` of them, each at most once.
#[verifier::external_body]
fn choose_positions(len: usize, amount: usize) -> (r: Vec<usize>)
    ensures
        r@.len() == if amount < len {
            amount
        } else {
            len
        },
        forall|i: int| 0 <= i < r@.len() ==> #[trigger] r@[i] < len,
        forall|i: int, j: int| 0 <= i < j < r@.len() ==> r@[i] != r@[j],
{
    let positions: Vec<usize> = (0..len).collect();
    positions.choose_multiple(&mut rand::thread_rng(), amount).copied().collect()
}

fn copy_piece(p: &ChessPiece) -> (r: ChessPiece)
    ensures
        r == *p,
{
    ChessPiece { name: p.name.clone(), cost: p.cost, level: p.level }
}

fn copy_state(s: &PlayerGameState) -> (r: PlayerGameState)
    ensures
        same_state(r, *s),
{
    let mut bench: Vec<ChessPiece> = Vec::new();
    let mut i: usize = 0;
    while i < s.bench.len()
        invariant
            i <= s.bench@.len(),
            bench@ == s.bench@.take(i as int),
        decreases s.bench@.len() - i,
    {
        bench.push(copy_piece(&s.bench[i]));
        i = i + 1;
        assert(bench@ =~= s.bench@.take(i as int));
    }
    assert(bench@ =~= s.bench@);
    PlayerGameState {
        player_id: s.player_id.clone(),
        money: s.money,
        experience: s.experience,
        bench,
    }
}

/// The starting state of `player_id`, with the catalog pieces at `positions`
/// on the bench.
pub fn new_player_state(player_id: &str, positions: &Vec<usize>) -> (r: PlayerGameState)
    requires
        forall|i: int| 0 <= i < positions@.len() ==> #[trigger] positions@[i] < catalog_names().len(),
    ensures
        dealt_from(r, player_id@, positions@),
{
    let catalog = all_chess_pieces();
    let mut bench: Vec<ChessPiece> = Vec::new();
    let mut i: usize = 0;
    while i < positions.len()
        invariant
            i <= positions@.len(),
            catalog@.len() == catalog_names().len(),
            forall|j: int|
                0 <= j < catalog@.len() ==> (#[trigger] catalog@[j]).name@ == catalog_names()[j]
                    && catalog@[j].cost == catalog_costs()[j] && catalog@[j].level == 1,
            forall|j: int| 0 <= j < positions@.len() ==> #[trigger] positions@[j] < catalog_names().len(),
            bench@.len() == i,
            forall|j: int|
                0 <= j < i ==> (#[trigger] bench@[j]).name@ == catalog_names()[positions@[j] as int]
                    && bench@[j].cost == catalog_costs()[positions@[j] as int] && bench@[j].level == 1,
        decreases positions@.len() - i,
    {
        let p = positions[i];
        assert(catalog@[p as int].name@ == catalog_names()[p as int]);
        bench.push(copy_piece(&catalog[p]));
        i = i + 1;
    }
    PlayerGameState {
        player_id: player_id.to_owned(),
        money: initial_money(),
        experience: initial_experience(),
        bench,
    }
}

/// The game-state store: one state per player id.
pub struct GameStateControl {
    state: Vec<PlayerGameState>,
}

impl View for GameStateControl {
    type V = Map<Seq<char>, PlayerGameState>;

    closed spec fn view(&self) -> Map<Seq<char>, PlayerGameState> {
        by_key(self.state@)
    }
}

impl GameStateControl {
    pub closed spec fn wf(&self) -> bool {
        keys_unique(self.state@)
    }

    /// An empty store.
    pub fn new() -> (r: Self)
        ensures
            r.wf(),
            r@ == Map::<Seq<char>, PlayerGameState>::empty(),
    {
        let r = GameStateControl { state: Vec::new() };
        assert(r@ =~= Map::<Seq<char>, PlayerGameState>::empty());
        r
    }

    /// The state of `player_id`. A player seen for the first time gets a
    /// starting state, with a bench of distinct catalog pieces drawn at random,
    /// which is stored and returned.
    pub fn get_or_create_player_state(&mut self, player_id: &str) -> (r: PlayerGameState)
        requires
            old(self).wf(),
        ensures
            final(self).wf(),
            old(self)@.contains_key(player_id@) ==> same_state(r, old(self)@[player_id@])
                && final(self)@ == old(self)@,
            !old(self)@.contains_key(player_id@) ==> (exists|positions: Seq<usize>|
                is_bench_draw(positions) && #[trigger] dealt_from(r, player_id@, positions))
                && final(self)@ == old(self)@.insert(player_id@, final(self)@[player_id@])
                && same_state(final(self)@[player_id@], r),
    {
        let key = player_id.to_owned();
        match find_position(&self.state, &key) {
            Some(i) => {
                proof {
                    lemma_lookup(self.state@, i as int);
                }
                copy_state(&self.state[i])
            },
            None => {
                let catalog_len = all_chess_pieces().len();
                let positions = choose_positions(catalog_len, BENCH_SIZE);
                let created = new_player_state(player_id, &positions);
                let r = copy_state(&created);
                upsert(&mut self.state, created);
                assert(self@ == old(self)@.insert(player_id@, created));
                assert(is_bench_draw(positions@));
                assert(dealt_from(r, player_id@, positions@));
                r
            },
        }
    }

    /// Stores `player_state` under its player id, replacing any state held there.
    pub fn update_state(&mut self, player_state: PlayerGameState)
        requires
            old(self).wf(),
        ensures
            final(self).wf(),
            final(self)@ == old(self)@.insert(player_state.player_id@, player_state),
    {
        upsert(&mut self.state, player_state);
    }
}

} // verus!
