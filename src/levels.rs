//! The two rooms of the game and the transitions between them.
//!
//! Entering a level spawns its background and its snow, all tagged with the
//! level, sets the level's boundaries and puts the player on the shared spawn
//! point. Leaving it despawns everything tagged with it.

use vstd::prelude::*;
use crate::geom::{Vec2, Rect, SUBPIXELS};
use crate::physics::Position;
use crate::snowflakes::{
    SnowflakeEntity, init_snowflakes, snowflake_count_spec, fresh_flake, in_snow_area,
    fell, lemma_fall_stays_in_area, drifted,
};

verus! {

/// The active room.
#[derive(Clone, Copy, Debug, PartialEq, Eq, Hash, Structural)]
pub enum LevelState {
    Outside,
    Indoors,
}

/// The area the player may move in, for the active level.
#[derive(Clone, Copy, Debug, PartialEq, Eq, Structural)]
pub struct LevelPlayerBoundary(pub Rect);

/// The area the camera may show, for the active level.
#[derive(Clone, Copy, Debug, PartialEq, Eq, Structural)]
pub struct LevelCameraBoundary(pub Rect);

/// Where the player appears when the next level is entered.
#[derive(Clone, Copy, Debug, PartialEq, Eq, Structural)]
pub struct SpawnPoint(pub Vec2);

/// Tag of the outside level's entities.
#[derive(Clone, Copy, Debug, PartialEq, Eq, Structural)]
pub struct OutsideLevel;

/// Tag of the indoors level's entities.
#[derive(Clone, Copy, Debug, PartialEq, Eq, Structural)]
pub struct IndoorsLevel;

impl OutsideLevel {
    pub fn state(&self) -> (r: LevelState)
        ensures
            r == LevelState::Outside,
    {
        LevelState::Outside
    }
}

impl IndoorsLevel {
    pub fn state(&self) -> (r: LevelState)
        ensures
            r == LevelState::Indoors,
    {
        LevelState::Indoors
    }
}

/// What a level entity is.
#[derive(Clone, Copy, Debug, PartialEq, Eq, Structural)]
pub enum SceneKind {
    Background,
    Snow(SnowflakeEntity),
}

/// An entity spawned by a level, tagged with that level.
#[derive(Clone, Copy, Debug, PartialEq, Eq, Structural)]
pub struct LevelEntity {
    pub level: LevelState,
    pub kind: SceneKind,
}

/// `x` coordinate from which the house door can be used, outside: 200 px.
pub const OUTSIDE_DOOR_X: i64 = 720000;

/// `x` coordinate up to which the house door can be used, indoors: -85 px.
pub const INDOORS_DOOR_X: i64 = -306000;

pub open spec fn px(v: int) -> int {
    v * SUBPIXELS
}

pub open spec fn px_rect(left: int, right: int, top: int, bottom: int) -> Rect {
    Rect {
        left: px(left) as i64,
        right: px(right) as i64,
        top: px(top) as i64,
        bottom: px(bottom) as i64,
    }
}

pub open spec fn px_point(x: int, y: int) -> Vec2 {
    Vec2 { x: px(x) as i64, y: px(y) as i64 }
}

/// The player's area in each level.
pub open spec fn player_rect(l: LevelState) -> Rect {
    match l {
        LevelState::Outside => px_rect(-270, 270, 105, -97),
        LevelState::Indoors => px_rect(-105, 105, 105, -97),
    }
}

/// The camera's area in each level.
pub open spec fn camera_rect(l: LevelState) -> Rect {
    match l {
        LevelState::Outside => px_rect(-270, 270, 105, -105),
        LevelState::Indoors => px_rect(-105, 105, 105, -105),
    }
}

/// The spawn point at start-up.
pub open spec fn initial_spawn() -> Vec2 {
    px_point(-190, 0)
}

/// The spawn point written when leaving a level for the other one.
pub open spec fn spawn_after_leaving(l: LevelState) -> Vec2 {
    match l {
        LevelState::Outside => px_point(-80, -85),
        LevelState::Indoors => px_point(195, -85),
    }
}

/// The other level.
pub open spec fn other(l: LevelState) -> LevelState {
    match l {
        LevelState::Outside => LevelState::Indoors,
        LevelState::Indoors => LevelState::Outside,
    }
}

/// Whether the player stands at the door of level `l`.
pub open spec fn at_door(l: LevelState, x: int) -> bool {
    match l {
        LevelState::Outside => x >= OUTSIDE_DOOR_X,
        LevelState::Indoors => x <= INDOORS_DOOR_X,
    }
}

/// Whether level `l` has snow.
pub open spec fn has_snow(l: LevelState) -> bool {
    l == LevelState::Outside
}

/// What stays of `s` once every entity of level `l` is despawned.
pub open spec fn despawned(s: Seq<LevelEntity>, l: LevelState) -> Seq<LevelEntity> {
    s.filter(|e: LevelEntity| e.level != l)
}

/// Every entity of `s` belongs to level `l`.
pub open spec fn all_of_level(s: Seq<LevelEntity>, l: LevelState) -> bool {
    forall|i: int| 0 <= i < s.len() ==> (#[trigger] s[i]).level == l
}

/// No entity of `s` belongs to level `l`.
pub open spec fn none_of_level(s: Seq<LevelEntity>, l: LevelState) -> bool {
    forall|i: int| 0 <= i < s.len() ==> (#[trigger] s[i]).level != l
}

/// A snow entity of level `l` stays within the margined camera area.
pub open spec fn entity_ok(l: LevelState, e: LevelEntity) -> bool {
    match e.kind {
        SceneKind::Background => true,
        SceneKind::Snow(f) => in_snow_area(camera_rect(l), f.snowflake.0)
            && f.sprite_index < crate::snowflakes::SNOWFLAKE_FRAMES,
    }
}

/// The entities that entering level `l` adds, given the flakes it drew: the
/// background first, then one entity per flake, all tagged with `l`.
pub open spec fn spawned_entities(l: LevelState, flakes: Seq<SnowflakeEntity>) -> Seq<LevelEntity> {
    seq![LevelEntity { level: l, kind: SceneKind::Background }] + flakes.map_values(
        |f: SnowflakeEntity| LevelEntity { level: l, kind: SceneKind::Snow(f) },
    )
}

/// A valid draw of snow for level `l`: the right number of fresh flakes for
/// a snowy level, none otherwise.
pub open spec fn valid_snow(l: LevelState, flakes: Seq<SnowflakeEntity>) -> bool {
    &&& has_snow(l) ==> flakes.len() == snowflake_count_spec(camera_rect(l))
    &&& !has_snow(l) ==> flakes.len() == 0
    &&& forall|i: int| 0 <= i < flakes.len() ==> fresh_flake(camera_rect(l), #[trigger] flakes[i])
}

impl LevelState {
    /// The player's area in this level.
    pub fn player_boundary(self) -> (r: LevelPlayerBoundary)
        ensures
            r.0 == player_rect(self),
    {
        match self {
            LevelState::Outside => LevelPlayerBoundary(Rect::from_pixels(-270, 270, 105, -97)),
            LevelState::Indoors => LevelPlayerBoundary(Rect::from_pixels(-105, 105, 105, -97)),
        }
    }

    /// The camera's area in this level.
    pub fn camera_boundary(self) -> (r: LevelCameraBoundary)
        ensures
            r.0 == camera_rect(self),
    {
        match self {
            LevelState::Outside => LevelCameraBoundary(Rect::from_pixels(-270, 270, 105, -105)),
            LevelState::Indoors => LevelCameraBoundary(Rect::from_pixels(-105, 105, 105, -105)),
        }
    }
}

impl SpawnPoint {
    /// The spawn point at start-up, left of the house: (-190, 0) px.
    pub fn initial() -> (r: SpawnPoint)
        ensures
            r.0 == initial_spawn(),
    {
        SpawnPoint(Vec2::from_pixels(-190, 0))
    }
}

/// The level-scoped part of the game: which room is active, its boundaries,
/// the spawn point hand-off and the entities that the room spawned.
pub struct LevelWorld {
    pub state: LevelState,
    pub player_boundary: LevelPlayerBoundary,
    pub camera_boundary: LevelCameraBoundary,
    pub spawn_point: SpawnPoint,
    pub entities: Vec<LevelEntity>,
}

impl LevelWorld {
    /// The boundaries are those of the active level, and every entity
    /// belongs to it: nothing of a level that was left remains.
    pub open spec fn wf(&self) -> bool {
        &&& self.player_boundary.0 == player_rect(self.state)
        &&& self.camera_boundary.0 == camera_rect(self.state)
        &&& all_of_level(self.entities@, self.state)
        &&& forall|i: int|
            0 <= i < self.entities@.len() ==> entity_ok(self.state, #[trigger] self.entities@[i])
    }

    /// Starts the game outside: the spawn point is the initial one, and the
    /// outside level is entered, which puts the player there.
    pub fn start(player: &mut Position) -> (w: LevelWorld)
        ensures
            w.wf(),
            w.state == LevelState::Outside,
            w.spawn_point.0 == initial_spawn(),
            final(player).0 == initial_spawn(),
            exists|flakes: Seq<SnowflakeEntity>|
                valid_snow(LevelState::Outside, flakes) && w.entities@ == spawned_entities(
                    LevelState::Outside,
                    flakes,
                ),
    {
        let state = LevelState::Outside;
        let mut w = LevelWorld {
            state,
            player_boundary: state.player_boundary(),
            camera_boundary: state.camera_boundary(),
            spawn_point: SpawnPoint::initial(),
            entities: Vec::new(),
        };
        let ghost before = w.entities@;
        w.enter_level(player);
        assert(w.entities@ == before + w.entities@.subrange(0, w.entities@.len() as int));
        assert(w.entities@.subrange(0, w.entities@.len() as int) =~= w.entities@);
        w
    }

    /// Enters the level held in `state`: spawns its background and, outside,
    /// its snow; sets its boundaries; moves the player to the spawn point.
    pub fn enter_level(&mut self, player: &mut Position)
        requires
            none_of_level(old(self).entities@, old(self).state),
        ensures
            final(self).state == old(self).state,
            final(self).spawn_point == old(self).spawn_point,
            final(self).player_boundary.0 == player_rect(old(self).state),
            final(self).camera_boundary.0 == camera_rect(old(self).state),
            final(player).0 == old(self).spawn_point.0,
            exists|flakes: Seq<SnowflakeEntity>|
                valid_snow(old(self).state, flakes) && final(self).entities@ == old(
                    self,
                ).entities@ + spawned_entities(old(self).state, flakes),
    {
        let l = self.state;
        let camera = l.camera_boundary();
        let flakes: Vec<SnowflakeEntity> = match l {
            LevelState::Outside => init_snowflakes(&camera),
            LevelState::Indoors => Vec::new(),
        };
        let ghost start = self.entities@;
        self.entities.push(LevelEntity { level: l, kind: SceneKind::Background });
        let mut i: usize = 0;
        while i < flakes.len()
            invariant
                i <= flakes@.len(),
                self.state == l,
                self.spawn_point == old(self).spawn_point,
                self.entities@ == start + spawned_entities(l, flakes@.subrange(0, i as int)),
            decreases flakes@.len() - i,
        {
            let f = flakes[i];
            self.entities.push(LevelEntity { level: l, kind: SceneKind::Snow(f) });
            proof {
                assert(flakes@.subrange(0, i + 1) =~= flakes@.subrange(0, i as int).push(f));
                assert(spawned_entities(l, flakes@.subrange(0, i + 1)) =~= spawned_entities(
                    l,
                    flakes@.subrange(0, i as int),
                ).push(LevelEntity { level: l, kind: SceneKind::Snow(f) }));
            }
            i = i + 1;
        }
        assert(flakes@.subrange(0, flakes@.len() as int) =~= flakes@);
        assert(valid_snow(l, flakes@));
        assert(self.entities@ == old(self).entities@ + spawned_entities(l, flakes@));
        self.player_boundary = l.player_boundary();
        self.camera_boundary = camera;
        player.0 = self.spawn_point.0;
    }

    /// Leaves the level held in `state`: despawns every entity tagged with
    /// it, and keeps the others in order.
    pub fn exit_level(&mut self)
        ensures
            final(self).state == old(self).state,
            final(self).spawn_point == old(self).spawn_point,
            final(self).player_boundary == old(self).player_boundary,
            final(self).camera_boundary == old(self).camera_boundary,
            final(self).entities@ == despawned(old(self).entities@, old(self).state),
            none_of_level(final(self).entities@, old(self).state),
    {
        let l = self.state;
        let mut kept: Vec<LevelEntity> = Vec::new();
        let mut i: usize = 0;
        while i < self.entities.len()
            invariant
                i <= self.entities@.len(),
                self.state == l,
                kept@ == despawned(self.entities@.subrange(0, i as int), l),
            decreases self.entities@.len() - i,
        {
            let e = self.entities[i];
            proof {
                reveal(Seq::filter);
                assert(self.entities@.subrange(0, i + 1).drop_last() =~= self.entities@.subrange(
                    0,
                    i as int,
                ));
            }
            if e.level != l {
                kept.push(e);
            }
            i = i + 1;
        }
        assert(self.entities@.subrange(0, self.entities@.len() as int) =~= self.entities@);
        proof {
            lemma_despawned_none(self.entities@, l);
        }
        self.entities = kept;
    }

    /// The door check of the active level. When the player stands at the
    /// door and the interact key was just released, writes the spawn point
    /// for the other level and asks for the transition.
    pub fn update_level(&mut self, player_x: i64, interact_released: bool) -> (leave: bool)
        ensures
            leave == (at_door(old(self).state, player_x as int) && interact_released),
            leave ==> final(self).spawn_point.0 == spawn_after_leaving(old(self).state),
            !leave ==> final(self).spawn_point == old(self).spawn_point,
            final(self).state == old(self).state,
            final(self).player_boundary == old(self).player_boundary,
            final(self).camera_boundary == old(self).camera_boundary,
            final(self).entities == old(self).entities,
    {
        let at_door = match self.state {
            LevelState::Outside => player_x >= OUTSIDE_DOOR_X,
            LevelState::Indoors => player_x <= INDOORS_DOOR_X,
        };
        if at_door && interact_released {
            self.spawn_point = match self.state {
                LevelState::Outside => SpawnPoint(Vec2::from_pixels(-80, -85)),
                LevelState::Indoors => SpawnPoint(Vec2::from_pixels(195, -85)),
            };
            true
        } else {
            false
        }
    }

    /// One tick of the level machine: the active level checks its door; on
    /// a transition it is left, and then the other level is entered, in the
    /// same tick, so the boundaries are never stale when read.
    pub fn tick(&mut self, player: &mut Position, interact_released: bool)
        requires
            old(self).wf(),
        ensures
            final(self).wf(),
            ({
                let moved = at_door(old(self).state, old(player).0.x as int) && interact_released;
                &&& moved ==> final(self).state == other(old(self).state)
                &&& moved ==> final(self).spawn_point.0 == spawn_after_leaving(old(self).state)
                &&& moved ==> final(player).0 == final(self).spawn_point.0
                &&& moved ==> exists|flakes: Seq<SnowflakeEntity>|
                    valid_snow(final(self).state, flakes) && final(self).entities@
                        == spawned_entities(final(self).state, flakes)
                &&& !moved ==> final(self).state == old(self).state
                &&& !moved ==> final(self).spawn_point == old(self).spawn_point
                &&& !moved ==> final(self).entities == old(self).entities
                &&& !moved ==> *final(player) == *old(player)
            }),
    {
        let leave = self.update_level(player.0.x, interact_released);
        if leave {
            self.exit_level();
            self.state = match self.state {
                LevelState::Outside => LevelState::Indoors,
                LevelState::Indoors => LevelState::Outside,
            };
            proof {
                lemma_despawned_none(old(self).entities@, old(self).state);
                lemma_despawned_all(old(self).entities@, old(self).state);
                assert(self.entities@ =~= Seq::<LevelEntity>::empty());
            }
            self.enter_level(player);
            proof {
                let l = self.state;
                let flakes = choose|flakes: Seq<SnowflakeEntity>|
                    valid_snow(l, flakes) && self.entities@ == Seq::<LevelEntity>::empty()
                        + spawned_entities(l, flakes);
                assert(Seq::<LevelEntity>::empty() + spawned_entities(l, flakes)
                    =~= spawned_entities(l, flakes));
                lemma_spawned_ok(l, flakes);
            }
        }
    }

    /// Lets every flake of the active level fall for one tick; the
    /// background and the drawn positions are left alone.
    pub fn fall_snow(&mut self)
        requires
            old(self).wf(),
        ensures
            final(self).wf(),
            final(self).state == old(self).state,
            final(self).spawn_point == old(self).spawn_point,
            final(self).player_boundary == old(self).player_boundary,
            final(self).camera_boundary == old(self).camera_boundary,
            final(self).entities@.len() == old(self).entities@.len(),
            forall|i: int|
                0 <= i < old(self).entities@.len() ==> snow_fell(
                    camera_rect(old(self).state),
                    #[trigger] old(self).entities@[i],
                    final(self).entities@[i],
                ),
    {
        let camera = self.camera_boundary;
        let n = self.entities.len();
        let mut i: usize = 0;
        while i < n
            invariant
                n == self.entities@.len(),
                i <= n,
                self.wf(),
                camera.0 == camera_rect(self.state),
                self.state == old(self).state,
                self.spawn_point == old(self).spawn_point,
                self.player_boundary == old(self).player_boundary,
                self.camera_boundary == old(self).camera_boundary,
                self.entities@.len() == old(self).entities@.len(),
                forall|j: int|
                    0 <= j < i ==> snow_fell(
                        camera.0,
                        #[trigger] old(self).entities@[j],
                        self.entities@[j],
                    ),
                forall|j: int| i <= j < n ==> self.entities@[j] == old(self).entities@[j],
            decreases n - i,
        {
            let e = self.entities[i];
            assert(entity_ok(self.state, e));
            match e.kind {
                SceneKind::Background => {},
                SceneKind::Snow(f) => {
                    let mut g = f;
                    g.snowflake.fall(&camera);
                    proof {
                        lemma_fall_stays_in_area(camera.0, f.snowflake.0, g.snowflake.0);
                    }
                    self.entities.set(i, LevelEntity { level: e.level, kind: SceneKind::Snow(g) });
                },
            }
            i = i + 1;
        }
    }

    /// Shifts where each flake is drawn by the noise samples given for its
    /// index (samples at a background's index are ignored); the flakes'
    /// logical positions are left alone.
    pub fn drift_snow(&mut self, noise: &Vec<(i64, i64)>)
        requires
            old(self).wf(),
            noise@.len() == old(self).entities@.len(),
            forall|i: int|
                0 <= i < noise@.len() ==> noise_in_range(#[trigger] noise@[i]),
        ensures
            final(self).wf(),
            final(self).state == old(self).state,
            final(self).spawn_point == old(self).spawn_point,
            final(self).player_boundary == old(self).player_boundary,
            final(self).camera_boundary == old(self).camera_boundary,
            final(self).entities@.len() == old(self).entities@.len(),
            forall|i: int|
                0 <= i < old(self).entities@.len() ==> snow_drifted(
                    #[trigger] old(self).entities@[i],
                    final(self).entities@[i],
                    noise@[i],
                ),
    {
        let n = self.entities.len();
        let mut i: usize = 0;
        while i < n
            invariant
                n == self.entities@.len(),
                n == noise@.len(),
                i <= n,
                self.wf(),
                forall|j: int| 0 <= j < noise@.len() ==> noise_in_range(#[trigger] noise@[j]),
                self.state == old(self).state,
                self.spawn_point == old(self).spawn_point,
                self.player_boundary == old(self).player_boundary,
                self.camera_boundary == old(self).camera_boundary,
                self.entities@.len() == old(self).entities@.len(),
                forall|j: int|
                    0 <= j < i ==> snow_drifted(
                        #[trigger] old(self).entities@[j],
                        self.entities@[j],
                        noise@[j],
                    ),
                forall|j: int| i <= j < n ==> self.entities@[j] == old(self).entities@[j],
            decreases n - i,
        {
            let e = self.entities[i];
            let (nx, ny) = noise[i];
            assert(entity_ok(self.state, e));
            assert(noise_in_range(noise@[i as int]));
            match e.kind {
                SceneKind::Background => {},
                SceneKind::Snow(f) => {
                    let mut g = f;
                    g.drift(nx, ny);
                    self.entities.set(i, LevelEntity { level: e.level, kind: SceneKind::Snow(g) });
                },
            }
            i = i + 1;
        }
    }
}

/// Largest noise sample accepted, in sub-pixels per unit of noise: a
/// million units of noise.
pub const NOISE_LIMIT: i64 = 3_600_000_000;

pub open spec fn noise_in_range(n: (i64, i64)) -> bool {
    -NOISE_LIMIT <= n.0 <= NOISE_LIMIT && -NOISE_LIMIT <= n.1 <= NOISE_LIMIT
}

/// `after` is `before` after a tick of falling: a background stays, a
/// flake falls and keeps its frame and drawn position.
pub open spec fn snow_fell(c: Rect, before: LevelEntity, after: LevelEntity) -> bool {
    &&& after.level == before.level
    &&& match (before.kind, after.kind) {
        (SceneKind::Background, SceneKind::Background) => true,
        (SceneKind::Snow(f), SceneKind::Snow(g)) => {
            &&& fell(c, f.snowflake.0, g.snowflake.0)
            &&& g.position == f.position
            &&& g.sprite_index == f.sprite_index
        },
        _ => false,
    }
}

/// `after` is `before` drawn with the noise sample `n`: a background stays,
/// a flake is drawn at its logical position shifted by the scaled noise.
pub open spec fn snow_drifted(before: LevelEntity, after: LevelEntity, n: (i64, i64)) -> bool {
    &&& after.level == before.level
    &&& match (before.kind, after.kind) {
        (SceneKind::Background, SceneKind::Background) => true,
        (SceneKind::Snow(f), SceneKind::Snow(g)) => {
            &&& g.snowflake == f.snowflake
            &&& g.sprite_index == f.sprite_index
            &&& g.position.0 == drifted(f.snowflake, n.0 as int, n.1 as int)
        },
        _ => false,
    }
}

/// Despawning a level leaves none of its entities.
pub proof fn lemma_despawned_none(s: Seq<LevelEntity>, l: LevelState)
    ensures
        none_of_level(despawned(s, l), l),
{
    broadcast use Seq::lemma_filter_pred;
}

/// Despawning the level that owns every entity leaves nothing.
pub proof fn lemma_despawned_all(s: Seq<LevelEntity>, l: LevelState)
    requires
        all_of_level(s, l),
    ensures
        despawned(s, l) == Seq::<LevelEntity>::empty(),
    decreases s.len(),
{
    reveal(Seq::filter);
    if s.len() > 0 {
        lemma_despawned_all(s.drop_last(), l);
    }
    assert(despawned(s, l) =~= Seq::<LevelEntity>::empty());
}

/// Despawning a level that owns none of the entities changes nothing.
pub proof fn lemma_despawned_other(s: Seq<LevelEntity>, l: LevelState)
    requires
        none_of_level(s, l),
    ensures
        despawned(s, l) == s,
    decreases s.len(),
{
    reveal(Seq::filter);
    if s.len() > 0 {
        lemma_despawned_other(s.drop_last(), l);
        assert(s.drop_last().push(s.last()) =~= s);
    } else {
        assert(despawned(s, l) =~= s);
    }
}

/// The entities a level spawns belong to it and keep their snow in the
/// margined camera area.
pub proof fn lemma_spawned_ok(l: LevelState, flakes: Seq<SnowflakeEntity>)
    requires
        valid_snow(l, flakes),
    ensures
        all_of_level(spawned_entities(l, flakes), l),
        forall|i: int|
            0 <= i < spawned_entities(l, flakes).len() ==> entity_ok(
                l,
                #[trigger] spawned_entities(l, flakes)[i],
            ),
{
    let s = spawned_entities(l, flakes);
    assert forall|i: int| 0 <= i < s.len() implies (#[trigger] s[i]).level == l && entity_ok(
        l,
        s[i],
    ) by {
        if i > 0 {
            assert(s[i] == LevelEntity { level: l, kind: SceneKind::Snow(flakes[i - 1]) });
            assert(fresh_flake(camera_rect(l), flakes[i - 1]));
        }
    }
}

/// Entering a level and then leaving it despawns everything it spawned:
/// the entities return to exactly what they were before, with no entity of
/// that level left behind.
pub proof fn lemma_enter_exit_round_trip(
    before: Seq<LevelEntity>,
    l: LevelState,
    flakes: Seq<SnowflakeEntity>,
)
    requires
        none_of_level(before, l),
    ensures
        despawned(before + spawned_entities(l, flakes), l) == before,
        none_of_level(despawned(before + spawned_entities(l, flakes), l), l),
{
    let t = spawned_entities(l, flakes);
    assert(all_of_level(t, l)) by {
        assert forall|i: int| 0 <= i < t.len() implies (#[trigger] t[i]).level == l by {
            if i > 0 {
                assert(t[i] == LevelEntity { level: l, kind: SceneKind::Snow(flakes[i - 1]) });
            }
        }
    }
    Seq::filter_distributes_over_add(before, t, |e: LevelEntity| e.level != l);
    lemma_despawned_other(before, l);
    lemma_despawned_all(t, l);
    assert(before + Seq::<LevelEntity>::empty() =~= before);
}

} // verus!
