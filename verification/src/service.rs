//! Client-facing views of matches: plain records with every amount
//! rendered in decimal and the status rendered by name.

use vstd::prelude::*;

use crate::game::Game;
use crate::game::GameStatus;
use crate::state::AirHockeyState;
use crate::state::games_of_player;
use crate::state::opt_view;
use crate::state::waiting_games;

verus! {

/// A match as reported to clients.
#[derive(Debug)]
pub struct GameInfo {
    /// Match identifier.
    pub id: u64,
    /// Creator identity.
    pub creator: String,
    /// Opponent identity, if one joined.
    pub opponent: Option<String>,
    /// Stake per participant, rendered in decimal.
    pub stake: String,
    /// Status name: one of `Waiting`, `Active`, `Completed`, `Cancelled`.
    pub status: String,
    /// Winner identity, if the match completed decisively.
    pub winner: Option<String>,
    /// Timestamp of creation.
    pub created_at: u64,
    /// Timestamp at which the opponent joined.
    pub started_at: Option<u64>,
    /// Timestamp at which the match reached a terminal state.
    pub ended_at: Option<u64>,
    /// Player 1 final score.
    pub player1_score: u8,
    /// Player 2 final score.
    pub player2_score: u8,
    /// Room code for the real-time transport.
    pub room_code: String,
}

/// A list of match views together with its length.
#[derive(Debug)]
pub struct GamesResponse {
    /// The views, ascending by identifier.
    pub games: Vec<GameInfo>,
    /// How many views the list holds.
    pub total: u64,
}

/// The character for one decimal digit.
pub open spec fn decimal_digit(d: int) -> char {
    if d == 0 {
        '0'
    } else if d == 1 {
        '1'
    } else if d == 2 {
        '2'
    } else if d == 3 {
        '3'
    } else if d == 4 {
        '4'
    } else if d == 5 {
        '5'
    } else if d == 6 {
        '6'
    } else if d == 7 {
        '7'
    } else if d == 8 {
        '8'
    } else {
        '9'
    }
}

/// The decimal rendering of a non-negative integer, most significant
/// digit first, no leading zeroes except for zero itself.
pub open spec fn decimal_str(n: int) -> Seq<char>
    decreases n,
{
    if n < 0 {
        Seq::empty()
    } else if n < 10 {
        seq![decimal_digit(n)]
    } else {
        decimal_str(n / 10).push(decimal_digit(n % 10))
    }
}

/// The one-character rendering of a single decimal digit.
fn digit_str(d: u128) -> (r: &'static str)
    requires
        d < 10,
    ensures
        r@.len() == 1,
        r@[0] == decimal_digit(d as int),
{
    proof {
        reveal_strlit("0");
        reveal_strlit("1");
        reveal_strlit("2");
        reveal_strlit("3");
        reveal_strlit("4");
        reveal_strlit("5");
        reveal_strlit("6");
        reveal_strlit("7");
        reveal_strlit("8");
        reveal_strlit("9");
    }
    if d == 0 {
        "0"
    } else if d == 1 {
        "1"
    } else if d == 2 {
        "2"
    } else if d == 3 {
        "3"
    } else if d == 4 {
        "4"
    } else if d == 5 {
        "5"
    } else if d == 6 {
        "6"
    } else if d == 7 {
        "7"
    } else if d == 8 {
        "8"
    } else {
        "9"
    }
}

/// Render a value in decimal, most significant digit first, without
/// leading zeroes or any other characters.
fn u128_to_decimal(n: u128) -> (r: String)
    ensures
        r@ == decimal_str(n as int),
    decreases n,
{
    if n < 10 {
        let r = digit_str(n).to_owned();
        proof {
            assert(r@ =~= seq![decimal_digit(n as int)]);
        }
        r
    } else {
        proof {
            assert(n / 10 < n) by (nonlinear_arith)
                requires
                    n >= 10,
            ;
        }
        let mut prefix = u128_to_decimal(n / 10);
        let last = digit_str(n % 10);
        prefix.append(last);
        proof {
            assert(prefix@ =~= decimal_str(n as int / 10).push(decimal_digit(n as int % 10)));
        }
        prefix
    }
}

/// The name of each status.
pub open spec fn spec_status_name(status: GameStatus) -> Seq<char> {
    match status {
        GameStatus::Waiting => "Waiting"@,
        GameStatus::Active => "Active"@,
        GameStatus::Completed => "Completed"@,
        GameStatus::Cancelled => "Cancelled"@,
    }
}

/// Render a status by its name.
pub fn status_name(status: GameStatus) -> (r: String)
    ensures
        r@ == spec_status_name(status),
{
    match status {
        GameStatus::Waiting => String::from_str("Waiting"),
        GameStatus::Active => String::from_str("Active"),
        GameStatus::Completed => String::from_str("Completed"),
        GameStatus::Cancelled => String::from_str("Cancelled"),
    }
}

/// The view reports exactly the record: same identifiers, identities,
/// timestamps and scores, the stake in decimal and the status by name.
pub open spec fn info_matches(info: GameInfo, g: Game) -> bool {
    &&& info.id == g.id
    &&& info.creator@ == g.creator@
    &&& opt_view(info.opponent) == opt_view(g.opponent)
    &&& info.stake@ == decimal_str(g.stake as int)
    &&& info.status@ == spec_status_name(g.status)
    &&& opt_view(info.winner) == opt_view(g.winner)
    &&& info.created_at == g.created_at
    &&& info.started_at == g.started_at
    &&& info.ended_at == g.ended_at
    &&& info.player1_score == g.player1_score
    &&& info.player2_score == g.player2_score
    &&& info.room_code@ == g.room_code@
}

impl GameInfo {
    /// Render one match record for clients.
    pub fn from_game(g: &Game) -> (r: GameInfo)
        ensures
            info_matches(r, *g),
    {
        GameInfo {
            id: g.id,
            creator: g.creator.clone(),
            opponent: match &g.opponent {
                Some(o) => Some(o.clone()),
                None => None,
            },
            stake: u128_to_decimal(g.stake),
            status: status_name(g.status),
            winner: match &g.winner {
                Some(w) => Some(w.clone()),
                None => None,
            },
            created_at: g.created_at,
            started_at: g.started_at,
            ended_at: g.ended_at,
            player1_score: g.player1_score,
            player2_score: g.player2_score,
            room_code: g.room_code.clone(),
        }
    }
}

/// Render a list of match records for clients, keeping the order.
fn render_games(games: &Vec<Game>) -> (r: Vec<GameInfo>)
    ensures
        r@.len() == games@.len(),
        forall|i: int| 0 <= i < r@.len() ==> info_matches(#[trigger] r@[i], games@[i]),
{
    let n = games.len();
    let mut out: Vec<GameInfo> = Vec::new();
    let mut i: usize = 0;
    while i < n
        invariant
            i <= n,
            n == games@.len(),
            out@.len() == i,
            forall|j: int| 0 <= j < i ==> info_matches(#[trigger] out@[j], games@[j]),
        decreases n - i,
    {
        out.push(GameInfo::from_game(&games[i]));
        i = i + 1;
    }
    out
}

impl AirHockeyState {
    /// The view of one match, if the identifier is known.
    pub fn game_info(&self, game_id: u64) -> (r: Option<GameInfo>)
        ensures
            match r {
                Some(info) => crate::state::valid_id(self.games@, game_id) && info_matches(
                    info,
                    self.games@[game_id - 1],
                ),
                None => !crate::state::valid_id(self.games@, game_id),
            },
    {
        match self.get_game(game_id) {
            Some(g) => Some(GameInfo::from_game(&g)),
            None => None,
        }
    }

    /// The open-match list as reported to clients: every waiting match,
    /// ascending by identifier, with its length.
    pub fn open_games_info(&self) -> (r: GamesResponse)
        ensures
            r.games@.len() == waiting_games(self.games@).len(),
            r.total == r.games@.len(),
            forall|i: int|
                0 <= i < r.games@.len() ==> info_matches(
                    #[trigger] r.games@[i],
                    waiting_games(self.games@)[i],
                ),
    {
        let list = self.get_open_games();
        let total = list.len() as u64;
        let games = render_games(&list);
        GamesResponse { games, total }
    }

    /// The list of a player's matches as reported to clients, ascending
    /// by identifier, with its length.
    pub fn player_games_info(&self, player: &String) -> (r: GamesResponse)
        ensures
            r.games@.len() == games_of_player(self.games@, player@).len(),
            r.total == r.games@.len(),
            forall|i: int|
                0 <= i < r.games@.len() ==> info_matches(
                    #[trigger] r.games@[i],
                    games_of_player(self.games@, player@)[i],
                ),
    {
        let list = self.get_player_games(player);
        let total = list.len() as u64;
        let games = render_games(&list);
        GamesResponse { games, total }
    }
}

} // verus!
