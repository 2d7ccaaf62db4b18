use vstd::prelude::*;
use crate::creature::{Creature, Stats, FULL_HP};
use crate::error::ErrorMessage;
use crate::geometry::Vec3i;
use crate::location::Location;
use crate::world::{GameState, World, WorldView, lemma_set_player_ids};

verus! {

/// The player after a respawn at `position`: full hit points, the new
/// position, and no destination.
pub open spec fn respawned(c: Creature, position: Vec3i) -> Creature {
    Creature {
        stats: Stats { hp: FULL_HP, ..c.stats },
        location: Location { position: Some(position), destination: None, ..c.location },
        ..c
    }
}

/// The player with its destination cleared.
pub open spec fn halted(c: Creature) -> Creature {
    Creature { location: Location { destination: None, ..c.location }, ..c }
}

/// The world after the player's death, with the outcome: the game is over
/// and the player stops. Already over, or without a player, nothing changes.
pub open spec fn kill_step(w: WorldView) -> (WorldView, Result<(), ErrorMessage>) {
    if w.game_state == GameState::GameOver {
        (w, Err(ErrorMessage::StateChange))
    } else {
        match w.player {
            None => (w, Err(ErrorMessage::QuerySingle)),
            Some(p) => (
                WorldView { player: Some(halted(p)), game_state: GameState::GameOver, ..w },
                Ok(()),
            ),
        }
    }
}

/// The world after the player respawned at `position`, with the outcome.
/// While playing, or without a player, nothing changes.
pub open spec fn respawn_step(w: WorldView, position: Vec3i) -> (WorldView, Result<(), ErrorMessage>) {
    if w.game_state == GameState::Playing {
        (w, Err(ErrorMessage::StateChange))
    } else {
        match w.player {
            None => (w, Err(ErrorMessage::QuerySingle)),
            Some(p) => (
                WorldView {
                    player: Some(respawned(p, position)),
                    game_state: GameState::Playing,
                    ..w
                },
                Ok(()),
            ),
        }
    }
}

/// Respawning a dead player restores full hit points and places it at the
/// new position; its attack and type are kept. As the death already cleared
/// its destination, those two fields are all that change: from a player who
/// is playing, a death then a respawn give the same player with full hit
/// points, the new position, and no destination.
pub proof fn lemma_respawn_resets_two_fields(w: WorldView, position: Vec3i)
    requires
        w.player is Some,
    ensures
        ({
            let c = w.player.unwrap();
            let dead = kill_step(w).0;
            let back = respawn_step(dead, position).0;
            &&& w.game_state == GameState::GameOver ==> {
                let r = respawn_step(w, position).0.player.unwrap();
                &&& r.stats.hp == FULL_HP
                &&& r.location.position == Some(position)
                &&& r.stats.atk == c.stats.atk
                &&& r.creature_type == c.creature_type
                &&& c.location.destination is None ==> r == Creature {
                    stats: Stats { hp: FULL_HP, ..c.stats },
                    location: Location { position: Some(position), ..c.location },
                    ..c
                }
            }
            &&& w.game_state == GameState::Playing ==> {
                &&& back.game_state == GameState::Playing
                &&& back.player == Some(
                    Creature {
                        stats: Stats { hp: FULL_HP, ..c.stats },
                        location: Location {
                            position: Some(position),
                            destination: None,
                            ..c.location
                        },
                        ..c
                    },
                )
            }
        }),
{
}

impl World {
    /// Handles the player's death: the game is over and the player's
    /// destination is cleared. Fails, changing nothing, when the game is
    /// already over or there is no player.
    pub fn kill_player(&mut self) -> (r: Result<(), ErrorMessage>)
        requires
            old(self).wf(),
        ensures
            final(self).wf(),
            final(self)@ == kill_step(old(self)@).0,
            r == kill_step(old(self)@).1,
    {
        if self.game_state == GameState::GameOver {
            return Err(ErrorMessage::StateChange);
        }
        match self.player {
            None => Err(ErrorMessage::QuerySingle),
            Some(mut p) => {
                p.location.destination = None;
                let ghost pre_w = self@;
                self.player = Some(p);
                proof {
                    lemma_set_player_ids(pre_w, p);
                }
                self.game_state = GameState::GameOver;
                Ok(())
            },
        }
    }

    /// Brings the player back at `position` with full hit points and no
    /// destination, and resumes play. Fails, changing nothing, while the
    /// game is being played or when there is no player.
    pub fn respawn_player(&mut self, position: Vec3i) -> (r: Result<(), ErrorMessage>)
        requires
            old(self).wf(),
            position.in_bounds(),
        ensures
            final(self).wf(),
            final(self)@ == respawn_step(old(self)@, position).0,
            r == respawn_step(old(self)@, position).1,
    {
        if self.game_state == GameState::Playing {
            return Err(ErrorMessage::StateChange);
        }
        match self.player {
            None => Err(ErrorMessage::QuerySingle),
            Some(mut p) => {
                p.stats.hp = FULL_HP;
                p.location.position = Some(position);
                p.location.destination = None;
                let ghost pre_w = self@;
                self.player = Some(p);
                proof {
                    lemma_set_player_ids(pre_w, p);
                }
                self.game_state = GameState::Playing;
                Ok(())
            },
        }
    }
}

} // verus!
