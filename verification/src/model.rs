//! Records of a live game as the game client and the backend describe it,
//! and the few questions that the shell asks of them.

use crate::text::same_text;
use vstd::prelude::*;

verus! {

/// The player at the keyboard, as the game client names them.
#[derive(Clone, Debug, PartialEq, Eq)]
pub struct RiotActivePlayer {
    pub riot_id: String,
}

/// One player of the match, as the game client lists them.
#[derive(Clone, Debug, PartialEq, Eq)]
pub struct RiotAllPlayers {
    pub champion_name: String,
    pub riot_id: String,
}

/// The champion of the first of `players` that goes by `riot_id`; empty
/// where none does.
pub open spec fn champion_name_of(players: Seq<RiotAllPlayers>, riot_id: Seq<char>) -> Seq<char>
    decreases players.len(),
{
    if players.len() == 0 {
        Seq::empty()
    } else if players[0].riot_id@ == riot_id {
        players[0].champion_name@
    } else {
        champion_name_of(players.skip(1), riot_id)
    }
}

/// Finds the champion that the active player plays: that of the first
/// listed player with the active player's name, or the empty text where the
/// list has no such player.
pub fn active_champion(
    active_player: &RiotActivePlayer,
    all_players: &Vec<RiotAllPlayers>,
) -> (name: String)
    ensures
        name@ == champion_name_of(all_players@, active_player.riot_id@),
{
    let mut i: usize = 0;
    assert(all_players@.skip(0) =~= all_players@);
    while i < all_players.len()
        invariant
            i <= all_players.len(),
            champion_name_of(all_players@, active_player.riot_id@) == champion_name_of(
                all_players@.skip(i as int),
                active_player.riot_id@,
            ),
        decreases all_players.len() - i,
    {
        let ghost rest = all_players@.skip(i as int);
        assert(rest[0] == all_players@[i as int]);
        if all_players[i].riot_id == active_player.riot_id {
            return all_players[i].champion_name.clone();
        }
        assert(rest.skip(1) =~= all_players@.skip(i + 1));
        i += 1;
    }
    assert(all_players@.skip(i as int).len() == 0);
    String::new()
}

/// One line of the scoreboard.
#[derive(Clone, Debug, PartialEq, Eq)]
pub struct Scoreboard {
    pub assists: usize,
    pub creep_score: usize,
    pub deaths: usize,
    pub kills: usize,
    pub riot_id: String,
    pub champion_id: String,
    pub champion_name: String,
    pub team: String,
    pub position: String,
}

/// The lines of `scoreboard` whose team is `team` (where `own` holds) or is
/// not (where it does not), in the order of the scoreboard.
pub open spec fn lines_of(scoreboard: Seq<Scoreboard>, team: Seq<char>, own: bool) -> Seq<
    Scoreboard,
>
    decreases scoreboard.len(),
{
    if scoreboard.len() == 0 {
        Seq::empty()
    } else {
        let before = lines_of(scoreboard.drop_last(), team, own);
        if (scoreboard.last().team@ == team) == own {
            before.push(scoreboard.last())
        } else {
            before
        }
    }
}

/// The records that a sequence of references points to.
pub open spec fn records(lines: Seq<&Scoreboard>) -> Seq<Scoreboard> {
    lines.map_values(|line: &Scoreboard| *line)
}

/// Splits the scoreboard into the lines of `team` and the lines of every
/// other team, each in the order of the scoreboard.
pub fn split_scoreboard<'a>(scoreboard: &'a Vec<Scoreboard>, team: &String) -> (sides: (
    Vec<&'a Scoreboard>,
    Vec<&'a Scoreboard>,
))
    ensures
        records(sides.0@) == lines_of(scoreboard@, team@, true),
        records(sides.1@) == lines_of(scoreboard@, team@, false),
{
    let mut allies: Vec<&Scoreboard> = Vec::new();
    let mut enemies: Vec<&Scoreboard> = Vec::new();
    let mut i: usize = 0;
    assert(scoreboard@.take(0) =~= Seq::<Scoreboard>::empty());
    assert(records(allies@) =~= Seq::<Scoreboard>::empty());
    assert(records(enemies@) =~= Seq::<Scoreboard>::empty());
    while i < scoreboard.len()
        invariant
            i <= scoreboard.len(),
            records(allies@) == lines_of(scoreboard@.take(i as int), team@, true),
            records(enemies@) == lines_of(scoreboard@.take(i as int), team@, false),
        decreases scoreboard.len() - i,
    {
        let line = &scoreboard[i];
        let ghost seen = scoreboard@.take(i + 1);
        assert(seen.drop_last() =~= scoreboard@.take(i as int));
        assert(seen.last() == scoreboard@[i as int]);
        let ghost allies_before = allies@;
        let ghost enemies_before = enemies@;
        if line.team == *team {
            allies.push(line);
            assert(records(allies@) =~= records(allies_before).push(*line));
        } else {
            enemies.push(line);
            assert(records(enemies@) =~= records(enemies_before).push(*line));
        }
        i += 1;
    }
    assert(scoreboard@.take(i as int) =~= scoreboard@);
    (allies, enemies)
}

/// The levels of the four abilities of a champion.
#[derive(Clone, Copy, Debug, PartialEq, Eq, Structural)]
pub struct AbilitiesX {
    pub q: usize,
    pub w: usize,
    pub e: usize,
    pub r: usize,
}

/// The level of the ability that goes by `keyname`, if one does.
pub open spec fn level_of(abilities: AbilitiesX, keyname: Seq<char>) -> Option<usize> {
    if keyname == "Q"@ {
        Some(abilities.q)
    } else if keyname == "W"@ {
        Some(abilities.w)
    } else if keyname == "E"@ {
        Some(abilities.e)
    } else if keyname == "R"@ {
        Some(abilities.r)
    } else {
        None
    }
}

/// `abilities` with the ability that goes by `keyname` at `level`; the same
/// levels where no ability goes by that name.
pub open spec fn with_level(abilities: AbilitiesX, keyname: Seq<char>, level: usize) -> AbilitiesX {
    if keyname == "Q"@ {
        AbilitiesX { q: level, ..abilities }
    } else if keyname == "W"@ {
        AbilitiesX { w: level, ..abilities }
    } else if keyname == "E"@ {
        AbilitiesX { e: level, ..abilities }
    } else if keyname == "R"@ {
        AbilitiesX { r: level, ..abilities }
    } else {
        abilities
    }
}

impl AbilitiesX {
    /// The level of the ability that goes by `keyname`, if one does.
    pub fn level(&self, keyname: &str) -> (level: Option<usize>)
        ensures
            level == level_of(*self, keyname@),
    {
        if same_text(keyname, "Q") {
            Some(self.q)
        } else if same_text(keyname, "W") {
            Some(self.w)
        } else if same_text(keyname, "E") {
            Some(self.e)
        } else if same_text(keyname, "R") {
            Some(self.r)
        } else {
            None
        }
    }

    /// Sets the level of the ability that goes by `keyname`; changes nothing
    /// where no ability goes by that name.
    pub fn set_level(&mut self, keyname: &str, level: usize)
        ensures
            *final(self) == with_level(*old(self), keyname@, level),
    {
        if same_text(keyname, "Q") {
            self.q = level;
        } else if same_text(keyname, "W") {
            self.w = level;
        } else if same_text(keyname, "E") {
            self.e = level;
        } else if same_text(keyname, "R") {
            self.r = level;
        }
    }
}

/// Setting a level and reading it back gives that level, and leaves the
/// other abilities as they were.
pub proof fn lemma_level_set_then_read(abilities: AbilitiesX, keyname: Seq<char>, level: usize)
    ensures
        level_of(abilities, keyname) is Some ==> level_of(
            with_level(abilities, keyname, level),
            keyname,
        ) == Some(level),
        level_of(abilities, keyname) is None ==> with_level(abilities, keyname, level)
            == abilities,
{
}

} // verus!
