//! One in-game session and its simulation tick.
//!
//! The tick runs the components in a fixed order: directional input may
//! start a jump; the animation timelines advance; a jump-completion commits
//! the player's position and lands; the leaves decay under the player's
//! resting tile; the drown rule runs on the landing, the collision report
//! and the leaf state; and the tongue reacts to its completion signals and
//! the pointer, reporting kills while its window is open.  Random draws
//! colour the emitted sounds but never steer the simulation.
//!
//! Entity handles: a leaf's handle is its index in the field; the player's
//! and the tongue's handles are assigned by the embedding and carried
//! through unchanged.

use crate::collision::{get_intersections, spec_intersections};
use crate::enemy::EnemyKillEvent;
use crate::field::LeafField;
use crate::grid::{spec_chosen_direction, PlayerAction};
use crate::leaf::{Leaf, MAX_STEP_UNITS};
use crate::outcome::{detect_drown, spec_drown_outcome};
use crate::player::{
    jump_camera_segments, jump_image_segments, jump_player_segments, spec_jump_camera_segments,
    spec_jump_image_segments, spec_jump_player_segments, Player, PlayerPos,
};
use crate::random::{random_pitch_millis, PITCH_MAX_MILLIS, PITCH_MIN_MILLIS};
use crate::timeline::{
    lemma_advanced_len, spec_advanced, spec_signals, spec_value_after_advance, Segment, Timeline,
    MAX_ANIM_VALUE,
};
use crate::tongue::{
    spec_extend_segment, spec_retract_segment, Tongue, SIGNAL_EXTEND_DONE, SIGNAL_RETRACT_DONE,
};
use crate::GameState;
use vstd::prelude::*;

verus! {

/// Everything the outside world hands the simulation for one tick.
pub struct TickInput {
    /// Time since the previous tick, in time units.
    pub dt: u64,
    /// Directional input currently held.
    pub up: bool,
    pub down: bool,
    pub left: bool,
    pub right: bool,
    /// Primary pointer newly pressed this tick.
    pub clicked: bool,
    /// The tongue's reach target: the pointer's distance from the tongue
    /// base less the tip radius, if a pointer position is known.
    pub pointer_target: Option<u64>,
    /// The collision collaborator's report: `(first, second, intersecting)`
    /// per tracked pair, as of the start of the tick.
    pub pairs: Vec<(u64, u64, bool)>,
}

/// Everything one tick reports back to the outside world.
pub struct TickEvents {
    /// The direction of a jump accepted this tick.
    pub jump_started: Option<PlayerAction>,
    /// A jump animation completed and the player's position committed.
    pub landed: bool,
    /// Some leaf crossed the drop threshold upward.
    pub leaf_dropped: bool,
    /// How many leaves crossed the drop threshold upward this tick — one
    /// event per crossing leaf, though only one plop sound plays.
    pub leaf_drops: usize,
    /// Pitch for the one drop sound of this tick, in thousandths; present
    /// exactly when a leaf dropped.
    pub drop_pitch_millis: Option<u64>,
    /// A tongue extension started this tick.
    pub extend_started: bool,
    /// The tongue began retracting this tick.
    pub retract_started: bool,
    /// The enemies killed this tick, in report order.
    pub kills: Vec<EnemyKillEvent>,
    /// Pitch for the one kill sound of this tick, in thousandths; present
    /// exactly when something was killed.
    pub kill_pitch_millis: Option<u64>,
    /// The game-state transition the drown rule requests, if any.
    pub transition_request: Option<GameState>,
}

/// One in-game session: the leaves, the player, the tongue, and the four
/// animation timelines the session drives.
pub struct GameWorld {
    pub leaves: LeafField,
    pub player: Player,
    pub pos: PlayerPos,
    pub tongue: Tongue,
    pub player_anim: Timeline,
    pub camera_anim: Timeline,
    pub image_anim: Timeline,
    pub tongue_anim: Timeline,
    /// The player's entity handle in the collision report.
    pub player_entity: u64,
}

impl GameWorld {
    /// Well-formedness of the session.
    pub open spec fn wf(self) -> bool {
        &&& self.leaves.inv()
        &&& self.tongue.inv()
        &&& self.player_anim.inv()
        &&& self.camera_anim.inv()
        &&& self.image_anim.inv()
        &&& self.tongue_anim.inv()
        &&& self.tongue_anim.segments@.len() <= 1
    }

    /// A fresh session: the fixed leaf layout, the player resting on the
    /// origin, the tongue idle and hidden, all timelines at rest.
    pub fn new_session(player_entity: u64, tongue_base: u64, tongue_tip: u64) -> (r: GameWorld)
        ensures
            r.wf(),
            r.leaves.leaves@.len() == crate::field::spec_initial_layout().len(),
            forall|i: int|
                0 <= i < r.leaves.leaves@.len() ==> r.leaves.leaves@[i] == (Leaf {
                    decay: 0,
                    pos: crate::field::spec_initial_layout()[i],
                    restore_elapsed: None,
                }),
            r.player == (Player { jumping: false, next_pos: crate::grid::GridPos { x: 0, y: 0 } }),
            r.pos == PlayerPos(crate::grid::GridPos { x: 0, y: 0 }),
            r.tongue == (Tongue {
                length: crate::tongue::TONGUE_LEN_DEFAULT,
                base: tongue_base,
                tip: tongue_tip,
                extending: false,
                visible: false,
            }),
            r.player_entity == player_entity,
            !r.player_anim.spec_active(),
            !r.tongue_anim.spec_active(),
    {
        GameWorld {
            leaves: LeafField::new_session(),
            player: Player::default(),
            pos: PlayerPos::default(),
            tongue: Tongue::new(tongue_base, tongue_tip),
            player_anim: Timeline::at_rest(crate::player::REST_SCALE_MILLIS),
            camera_anim: Timeline::at_rest(crate::player::REST_SCALE_MILLIS),
            image_anim: Timeline::at_rest(0),
            tongue_anim: Timeline::at_rest(crate::tongue::TONGUE_LEN_DEFAULT),
            player_entity,
        }
    }

    /// The jump accepted this tick, if any: the player must be resting and
    /// some direction held.
    pub open spec fn spec_jump_accepted(self, input: TickInput) -> Option<PlayerAction> {
        if self.player.jumping {
            None
        } else {
            spec_chosen_direction(input.up, input.down, input.left, input.right)
        }
    }

    /// The player after the input phase: mid-jump toward the neighbouring
    /// tile if a jump was accepted.
    pub open spec fn spec_player_mid(self, input: TickInput) -> Player {
        match self.spec_jump_accepted(input) {
            Some(d) => Player { jumping: true, next_pos: self.player.next_pos.spec_neighbor(d) },
            None => self.player,
        }
    }

    /// The jump timeline in effect while this tick's time passes.
    pub open spec fn spec_effective_jump_segments(self, input: TickInput) -> Seq<Segment> {
        if self.spec_jump_accepted(input) is Some {
            spec_jump_player_segments()
        } else {
            self.player_anim.segments@
        }
    }

    /// Elapsed time inside the jump timeline when this tick's time starts
    /// passing.
    pub open spec fn spec_effective_jump_elapsed(self, input: TickInput) -> int {
        if self.spec_jump_accepted(input) is Some {
            0
        } else {
            self.player_anim.elapsed as int
        }
    }

    /// Whether the jump animation completes within this tick.
    pub open spec fn spec_landed(self, input: TickInput) -> bool {
        spec_signals(
            self.spec_effective_jump_segments(input),
            self.spec_effective_jump_elapsed(input),
            input.dt as int,
        ).len() > 0
    }

    /// The player's resting tile after this tick: moved to the jump target
    /// exactly when the jump completed.
    pub open spec fn spec_pos_after(self, input: TickInput) -> PlayerPos {
        if self.spec_landed(input) {
            PlayerPos(self.spec_player_mid(input).next_pos)
        } else {
            self.pos
        }
    }

    /// The player after this tick.
    pub open spec fn spec_player_after(self, input: TickInput) -> Player {
        if self.spec_landed(input) {
            Player { jumping: false, next_pos: self.spec_player_mid(input).next_pos }
        } else {
            self.spec_player_mid(input)
        }
    }

    /// The leaves after this tick: each stepped once under the player's
    /// resting tile as of after the landing phase.
    pub open spec fn spec_leaves_after(self, input: TickInput) -> Seq<Leaf> {
        Seq::new(
            self.leaves.leaves@.len(),
            |i: int|
                self.leaves.leaves@[i].spec_stepped(self.spec_pos_after(input).0, input.dt as int),
        )
    }

    /// Whether some leaf drops this tick.
    pub open spec fn spec_leaf_dropped(self, input: TickInput) -> bool {
        exists|i: int|
            0 <= i < self.leaves.leaves@.len() && self.leaves.leaves@[i].spec_step_drops(
                self.spec_pos_after(input).0,
                input.dt as int,
            )
    }

    /// How many leaves drop this tick.
    pub open spec fn spec_leaf_drop_count(self, input: TickInput) -> int {
        crate::field::spec_drop_count(
            self.leaves.leaves@,
            self.spec_pos_after(input).0,
            input.dt as int,
        )
    }

    /// The leaves overlapping the player's footprint per the collision
    /// report.
    pub open spec fn spec_overlapping(self, input: TickInput) -> Seq<u64> {
        spec_intersections(input.pairs@, self.player_entity)
    }

    /// The transition the drown rule requests this tick, if any.
    pub open spec fn spec_transition(self, input: TickInput) -> Option<GameState> {
        spec_drown_outcome(
            self.spec_player_after(input),
            self.spec_pos_after(input),
            self.spec_landed(input),
            self.spec_overlapping(input),
            self.spec_leaves_after(input),
        )
    }

    /// The tongue timeline's completion signals of this tick.
    pub open spec fn spec_tongue_signals(self, input: TickInput) -> Seq<u64> {
        spec_signals(self.tongue_anim.segments@, self.tongue_anim.elapsed as int, input.dt as int)
    }

    /// The tongue's length after this tick's animation time has passed.
    pub open spec fn spec_tongue_length_mid(self, input: TickInput) -> int {
        spec_value_after_advance(
            self.tongue_anim.segments@,
            self.tongue_anim.elapsed as int,
            input.dt as int,
            self.tongue_anim.rest_value as int,
        )
    }

    /// Whether the extension completed this tick, starting the retraction.
    pub open spec fn spec_retract_started(self, input: TickInput) -> bool {
        &&& self.spec_tongue_signals(input).len() > 0
        &&& self.spec_tongue_signals(input)[0] == SIGNAL_EXTEND_DONE
    }

    /// The tongue after its length update and signal handling, before the
    /// pointer is considered.
    pub open spec fn spec_tongue_after_signal(self, input: TickInput) -> Tongue {
        let t = Tongue { length: self.spec_tongue_length_mid(input) as u64, ..self.tongue };
        let ts = self.spec_tongue_signals(input);
        if ts.len() > 0 && ts[0] == SIGNAL_EXTEND_DONE {
            Tongue { extending: false, ..t }
        } else if ts.len() > 0 && ts[0] == SIGNAL_RETRACT_DONE {
            Tongue { visible: false, ..t }
        } else {
            t
        }
    }

    /// Whether a new extension starts this tick: the pointer pressed, the
    /// player resting, no length animation left in flight — an extension or
    /// a retraction still running rejects the press — and a pointer
    /// position known.
    pub open spec fn spec_extend_started(self, input: TickInput) -> bool {
        &&& !self.spec_retract_started(input)
        &&& input.clicked
        &&& !self.spec_player_after(input).jumping
        &&& !self.spec_tongue_after_signal(input).extending
        &&& spec_advanced(
            self.tongue_anim.segments@,
            self.tongue_anim.elapsed as int,
            input.dt as int,
            self.tongue_anim.rest_value as int,
        ).0.len() == 0
        &&& input.pointer_target is Some
    }

    /// The tongue after this tick: changed beyond its length only by a
    /// completion signal or by an accepted press.
    pub open spec fn spec_tongue_after(self, input: TickInput) -> Tongue {
        let t1 = self.spec_tongue_after_signal(input);
        if self.spec_extend_started(input) {
            Tongue { extending: true, visible: true, ..t1 }
        } else {
            t1
        }
    }

    /// The tongue timeline's segments after this tick.
    pub open spec fn spec_tongue_anim_segments_after(self, input: TickInput) -> Seq<Segment> {
        if self.spec_retract_started(input) {
            seq![spec_retract_segment(self.spec_tongue_length_mid(input) as u64)]
        } else if self.spec_extend_started(input) {
            seq![spec_extend_segment(input.pointer_target->0)]
        } else {
            spec_advanced(
                self.tongue_anim.segments@,
                self.tongue_anim.elapsed as int,
                input.dt as int,
                self.tongue_anim.rest_value as int,
            ).0
        }
    }

    /// The enemies killed this tick: everything overlapping the tongue tip
    /// while the kill window — extending and visible — stands open.
    pub open spec fn spec_kills(self, input: TickInput) -> Seq<u64> {
        let t = self.spec_tongue_after(input);
        if t.extending && t.visible {
            spec_intersections(input.pairs@, t.tip)
        } else {
            Seq::empty()
        }
    }

    /// One simulation tick.
    ///
    /// Every leaf's decay stays within its range; the player's resting tile
    /// moves exactly when a jump completes, and to the tile recorded when
    /// the jump was accepted; the drown rule fires exactly as
    /// [`spec_drown_outcome`] says; the tongue's window opens and closes
    /// exactly as its state machine says; and the sound pitches stay within
    /// `[0.9, 1.1]` whatever the draws returned.
    #[verifier::rlimit(100)]
    pub fn tick(&mut self, input: &TickInput) -> (events: TickEvents)
        requires
            old(self).wf(),
            input.dt <= MAX_STEP_UNITS,
            old(self).player.room_to_jump(),
            input.pointer_target matches Some(t) ==> t <= MAX_ANIM_VALUE,
            forall|i: int|
                0 <= i < old(self).spec_overlapping(*input).len() ==> old(self).spec_overlapping(
                    *input,
                )[i] < old(self).leaves.leaves@.len(),
        ensures
            final(self).wf(),
            final(self).player_entity == old(self).player_entity,
            events.jump_started == old(self).spec_jump_accepted(*input),
            events.landed == old(self).spec_landed(*input),
            final(self).player == old(self).spec_player_after(*input),
            final(self).pos == old(self).spec_pos_after(*input),
            final(self).leaves.leaves@ == old(self).spec_leaves_after(*input),
            events.leaf_dropped == old(self).spec_leaf_dropped(*input),
            events.leaf_drops as int == old(self).spec_leaf_drop_count(*input),
            events.leaf_dropped == (events.leaf_drops > 0),
            events.drop_pitch_millis is Some <==> events.leaf_dropped,
            events.drop_pitch_millis matches Some(p) ==> PITCH_MIN_MILLIS <= p <= PITCH_MAX_MILLIS,
            events.transition_request == old(self).spec_transition(*input),
            events.retract_started == old(self).spec_retract_started(*input),
            events.extend_started == old(self).spec_extend_started(*input),
            final(self).tongue == old(self).spec_tongue_after(*input),
            final(self).tongue_anim.segments@ == old(self).spec_tongue_anim_segments_after(*input),
            events.kills@.len() == old(self).spec_kills(*input).len(),
            forall|i: int|
                0 <= i < events.kills@.len() ==> events.kills@[i].0 == old(self).spec_kills(
                    *input,
                )[i],
            events.kill_pitch_millis is Some <==> events.kills@.len() > 0,
            events.kill_pitch_millis matches Some(p) ==> PITCH_MIN_MILLIS <= p <= PITCH_MAX_MILLIS,
            final(self).player_anim.segments@ == spec_advanced(
                old(self).spec_effective_jump_segments(*input),
                old(self).spec_effective_jump_elapsed(*input),
                input.dt as int,
                old(self).player_anim.rest_value as int,
            ).0,
            final(self).player_anim.elapsed as int == spec_advanced(
                old(self).spec_effective_jump_segments(*input),
                old(self).spec_effective_jump_elapsed(*input),
                input.dt as int,
                old(self).player_anim.rest_value as int,
            ).1,
            final(self).tongue_anim.elapsed as int == if old(self).spec_retract_started(*input)
                || old(self).spec_extend_started(*input) {
                0int
            } else {
                spec_advanced(
                    old(self).tongue_anim.segments@,
                    old(self).tongue_anim.elapsed as int,
                    input.dt as int,
                    old(self).tongue_anim.rest_value as int,
                ).1
            },
            final(self).camera_anim.segments@ == spec_advanced(
                if old(self).spec_jump_accepted(*input) is Some {
                    spec_jump_camera_segments()
                } else {
                    old(self).camera_anim.segments@
                },
                if old(self).spec_jump_accepted(*input) is Some {
                    0int
                } else {
                    old(self).camera_anim.elapsed as int
                },
                input.dt as int,
                old(self).camera_anim.rest_value as int,
            ).0,
            final(self).image_anim.segments@ == spec_advanced(
                if old(self).spec_jump_accepted(*input) is Some {
                    spec_jump_image_segments()
                } else {
                    old(self).image_anim.segments@
                },
                if old(self).spec_jump_accepted(*input) is Some {
                    0int
                } else {
                    old(self).image_anim.elapsed as int
                },
                input.dt as int,
                old(self).image_anim.rest_value as int,
            ).0,
    {
        let ghost w0 = *self;

        // input: a held direction may accept a jump and start its animations
        let jump_started = self.player.try_start_jump(input.up, input.down, input.left, input.right);
        if jump_started.is_some() {
            self.player_anim.start(jump_player_segments());
            self.camera_anim.start(jump_camera_segments());
            self.image_anim.start(jump_image_segments());
        }

        // the animation timelines advance
        let psignals = self.player_anim.advance(input.dt);
        let _camera_signals = self.camera_anim.advance(input.dt);
        let _image_signals = self.image_anim.advance(input.dt);
        let tsignals = self.tongue_anim.advance(input.dt);
        self.tongue.length = self.tongue_anim.current_value();

        // a completion signal commits the jump and lands
        let landed = psignals.len() > 0;
        if landed {
            self.player.land(&mut self.pos);
        }

        // the leaves decay under the player's resting tile
        let leaf_drops = self.leaves.step_all(self.pos.0, input.dt);
        let drop_pitch_millis = if leaf_drops > 0 {
            Some(random_pitch_millis())
        } else {
            None
        };

        // the drown rule
        let overlapping = get_intersections(&input.pairs, self.player_entity);
        let transition_request = detect_drown(
            &self.player,
            &self.pos,
            landed,
            &overlapping,
            &self.leaves,
        );

        // the tongue reacts to its completion signal and the pointer
        proof {
            lemma_advanced_len(
                w0.tongue_anim.segments@,
                w0.tongue_anim.elapsed as int,
                input.dt as int,
                w0.tongue_anim.rest_value as int,
            );
        }
        let mut retract_started = false;
        if tsignals.len() > 0 {
            let s = tsignals[0];
            retract_started = self.tongue.on_signal(&mut self.tongue_anim, s);
        }
        let extend_started = if !retract_started {
            self.tongue.try_extend(
                &mut self.tongue_anim,
                input.clicked,
                self.player.jumping,
                input.pointer_target,
            )
        } else {
            false
        };

        // kills while the window is open
        let kill_handles = self.tongue.kill_check(&input.pairs);
        let mut kills: Vec<EnemyKillEvent> = Vec::new();
        let nk = kill_handles.len();
        let mut i: usize = 0;
        while i < nk
            invariant
                i <= nk,
                nk == kill_handles@.len(),
                kills@.len() == i,
                forall|j: int| 0 <= j < i ==> kills@[j].0 == kill_handles@[j],
            decreases nk - i,
        {
            kills.push(EnemyKillEvent(kill_handles[i]));
            i = i + 1;
        }
        let kill_pitch_millis = if kills.len() > 0 {
            Some(random_pitch_millis())
        } else {
            None
        };

        proof {
            assert(self.leaves.leaves@ =~= w0.spec_leaves_after(*input));
        }

        TickEvents {
            jump_started,
            landed,
            leaf_dropped: leaf_drops > 0,
            leaf_drops,
            drop_pitch_millis,
            extend_started,
            retract_started,
            kills,
            kill_pitch_millis,
            transition_request,
        }
    }
}

/// The jumping flag and the resting tile over one tick: the resting tile
/// moves only on a landing, and then exactly to the tile recorded when the
/// jump was accepted; the flag is raised for the whole stretch between an
/// accepted request and the completion signal, and lowered at all other
/// times while the player rests.
pub proof fn lemma_jump_lifecycle(w: GameWorld, input: TickInput)
    ensures
        w.spec_pos_after(input) != w.pos ==> w.spec_landed(input),
        w.spec_landed(input) ==> w.spec_pos_after(input) == PlayerPos(
            w.spec_player_mid(input).next_pos,
        ),
        w.spec_landed(input) ==> !w.spec_player_after(input).jumping,
        w.spec_jump_accepted(input) is Some && !w.spec_landed(input) ==> w.spec_player_after(
            input,
        ).jumping,
        w.player.jumping && !w.spec_landed(input) ==> w.spec_player_after(input).jumping
            && w.spec_pos_after(input) == w.pos,
{
}

/// A new tongue extension never starts while one is in flight: with
/// `extending` raised at the start of the tick, the tick either begins the
/// retraction (on the extension's own completion) or leaves the tongue
/// alone, but accepts no pointer press.
pub proof fn lemma_no_extension_while_extending(w: GameWorld, input: TickInput)
    requires
        w.tongue.extending,
    ensures
        !w.spec_extend_started(input),
{
}

} // verus!
