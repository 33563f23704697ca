//! The game session that every variant implements.

use vstd::prelude::*;

use crate::variant::color::Color;
use crate::variant::error::GameError;
use crate::variant::json::JsonView;
use crate::variant::payload;
use crate::variant::payload::{Action, PlayerView};
use crate::variant::status::{ActionEffect, GameStatus, Outcome};

verus! {

/// One game in progress, of some variant.
///
/// The trait is object-safe: the server holds games as `Box<dyn GameSession>`.
/// A perfect-information variant shows everyone the full position; an
/// imperfect-information one redacts what each party may see.
///
/// The specification functions name what the methods report of the game's
/// state. `played` is the record of the actions that were accepted so far, with
/// the players who made them. Their default definitions say nothing of a game: a
/// verified variant gives its own.
pub trait GameSession: Send + Sync {
    /// The accepted actions so far, oldest first, with their players.
    closed spec fn played(&self) -> Seq<(Color, JsonView)> {
        arbitrary()
    }

    /// Whether `apply` may answer `action` by `player` with `answer`.
    closed spec fn responds(
        &self,
        player: Color,
        action: JsonView,
        answer: Result<ActionEffect, GameError>,
    ) -> bool {
        arbitrary()
    }

    /// What `variant_id` reports.
    closed spec fn variant_name(&self) -> Seq<char> {
        arbitrary()
    }

    /// The options the game was created with.
    closed spec fn setup(&self) -> JsonView {
        arbitrary()
    }

    /// What `to_move` reports.
    closed spec fn turn(&self) -> Color {
        arbitrary()
    }

    /// What `status` reports.
    closed spec fn standing(&self) -> GameStatus {
        arbitrary()
    }

    /// What `legal_actions` reports.
    closed spec fn choices(&self, player: Color) -> Seq<JsonView> {
        arbitrary()
    }

    /// What `view_for` reports.
    closed spec fn seen_by(&self, player: Color) -> JsonView {
        arbitrary()
    }

    /// What `spectator_view` reports.
    closed spec fn seen_by_spectators(&self) -> JsonView {
        arbitrary()
    }

    /// What `outcome` reports.
    closed spec fn result(&self) -> Option<Outcome> {
        arbitrary()
    }

    /// The identifier of the variant played.
    fn variant_id(&self) -> (r: &'static str)
        ensures
            r@ == self.variant_name(),
    ;

    /// The side whose turn it is.
    fn to_move(&self) -> (r: Color)
        ensures
            r == self.turn(),
    ;

    /// Where the game is in its life.
    fn status(&self) -> (r: GameStatus)
        ensures
            r == self.standing(),
    ;

    /// The actions `player` may submit now; none when it is not their turn or
    /// the game is over.
    fn legal_actions(&self, player: Color) -> (r: Vec<Action>)
        ensures
            payload::actions_view(r@) == self.choices(player),
            self.standing() is Finished || player != self.turn() ==> r@.len() == 0,
    ;

    /// Applies `action` for `player`, or refuses it: a game that is over takes no
    /// action, and while it goes on only the side to move acts. An accepted action
    /// joins the record, a refused one does not. The variant and its options stay
    /// the same, and a game that is over stays over as it ended.
    fn apply(&mut self, player: Color, action: &Action) -> (r: Result<ActionEffect, GameError>)
        ensures
            old(self).responds(player, action@, r),
            old(self).standing() is Finished ==> r == Err::<ActionEffect, GameError>(
                GameError::Finished,
            ),
            old(self).standing() is Ongoing && player != old(self).turn() ==> r == Err::<
                ActionEffect,
                GameError,
            >(GameError::NotYourTurn),
            r is Ok ==> r->Ok_0.status == final(self).standing(),
            old(self).standing() is Finished ==> final(self).standing() == old(self).standing(),
            final(self).variant_name() == old(self).variant_name(),
            final(self).setup() == old(self).setup(),
            final(self).played() == if r is Ok {
                old(self).played().push((player, action@))
            } else {
                old(self).played()
            },
    ;

    /// What `player` may observe.
    fn view_for(&self, player: Color) -> (r: PlayerView)
        ensures
            r@ == self.seen_by(player),
    ;

    /// What a spectator may observe.
    fn spectator_view(&self) -> (r: PlayerView)
        ensures
            r@ == self.seen_by_spectators(),
    ;

    /// How the game ended, if it has.
    fn outcome(&self) -> (r: Option<Outcome>)
        ensures
            r == self.result(),
            r is None <==> self.standing() is Ongoing,
    ;
}

} // verus!
