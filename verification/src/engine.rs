//! The collection manager ("engine"): an ordered list of sprites, the
//! per-frame update pass with collision rollback, and spawn/retire handling.
//!
//! The host supplies the game-specific judgment calls through [`GameHost`]:
//! a notification that a sprite is dying and the decision whether a collision
//! rolls the updated sprite back. The engine's own bookkeeping is exact: for
//! an extension-free collection the whole update pass is pinned down by
//! [`spec_update_pass`], and the ordered-insertion rule by
//! [`spec_insert_index`].

use vstd::prelude::*;

use crate::geom::CLOCK_LIMIT;
use crate::geom::Rect;
use crate::geom::rect_contains_point;
use crate::geom::rect_height;
use crate::geom::rect_width;
use crate::geom::rects_overlap;
use crate::sprite::spec_die_exited;
use crate::graphics::Graphics;
use crate::sprite::Sprite;
use crate::sprite::SpriteAction;
use crate::sprite::SpriteExt;
use crate::sprite::SpriteModel;
use crate::sprite::spec_collision_region;
use crate::sprite::spec_sprite_drawable;
use crate::sprite::spec_sprite_update;
use crate::sprite::spec_valid_position;

verus! {

/// The game-specific callbacks the engine consults during an update pass.
/// The hosting game implements them; the engine promises nothing about what
/// they answer.
pub trait GameHost {
    /// A sprite returned `Kill` this pass; it still sits at the given index.
    fn sprite_dying(&mut self, sprite_dying_id: usize);

    /// A collision was found. The first index is the sprite that was hit
    /// against; the second is the sprite whose update is being resolved,
    /// which is rolled back to its pre-update position when this answers
    /// true.
    fn sprite_collision(&mut self, sprite_hitter_id: usize, sprite_hittee_id: usize) -> bool;

    /// Lifecycle hook run by the hosting loop before the first frame.
    fn initialize(&mut self) -> bool {
        true
    }

    /// Lifecycle hook run by the hosting loop after the last frame.
    fn end(&self) {
    }
}

/// The sprite collection as its sequence of mathematical images.
pub open spec fn models<E: SpriteExt>(s: Seq<Sprite<E>>) -> Seq<SpriteModel> {
    s.map_values(|sp: Sprite<E>| sp@)
}

/// No sprite in the collection carries an extension.
pub open spec fn no_ext(s: Seq<SpriteModel>) -> bool {
    forall|i: int| 0 <= i < s.len() ==> !(#[trigger] s[i]).has_ext
}

/// Where the ordered-insertion rule places z-order `z`: directly before the
/// first sprite whose z-order is strictly greater, or at the end. Among equal
/// z-orders the newcomer therefore lands after all of them.
pub open spec fn spec_insert_index(s: Seq<SpriteModel>, z: int) -> int
    decreases s.len(),
{
    if s.len() == 0 {
        0
    } else if z < s[0].z_order {
        0
    } else {
        1 + spec_insert_index(s.subrange(1, s.len() as int), z)
    }
}

/// The insertion index is the unique cut: everything before it has z-order at
/// most `z`, and the sprite at it (when there is one) has a strictly greater
/// z-order.
pub proof fn lemma_insert_index_bounds(s: Seq<SpriteModel>, z: int)
    ensures
        0 <= spec_insert_index(s, z) <= s.len(),
        forall|j: int| 0 <= j < spec_insert_index(s, z) ==> (#[trigger] s[j]).z_order <= z,
        spec_insert_index(s, z) < s.len() ==> z < s[spec_insert_index(s, z)].z_order,
    decreases s.len(),
{
    if s.len() > 0 && !(z < s[0].z_order) {
        let rest = s.subrange(1, s.len() as int);
        lemma_insert_index_bounds(rest, z);
        assert forall|j: int| 0 <= j < spec_insert_index(s, z) implies (#[trigger] s[j]).z_order
            <= z by {
            if j > 0 {
                assert(s[j] == rest[j - 1]);
            }
        }
    }
}

/// Any cut with those two properties is the insertion index.
pub proof fn lemma_insert_index_unique(s: Seq<SpriteModel>, z: int, k: int)
    requires
        0 <= k <= s.len(),
        forall|j: int| 0 <= j < k ==> (#[trigger] s[j]).z_order <= z,
        k < s.len() ==> z < s[k].z_order,
    ensures
        spec_insert_index(s, z) == k,
    decreases s.len(),
{
    if s.len() == 0 {
    } else if z < s[0].z_order {
        assert(k == 0);
    } else {
        let rest = s.subrange(1, s.len() as int);
        assert(k >= 1);
        assert forall|j: int| 0 <= j < k - 1 implies (#[trigger] rest[j]).z_order <= z by {
            assert(rest[j] == s[j + 1]);
        }
        lemma_insert_index_unique(rest, z, k - 1);
    }
}

/// The collection manager: an ordered list of sprites drawn back to front.
/// The host owns the collection through this struct and may reach the
/// sprites directly; ordering and update laws are stated about the
/// operations that maintain them.
pub struct GameEngine<E: SpriteExt> {
    pub sprites: Vec<Sprite<E>>,
}

impl<E: SpriteExt> GameEngine<E> {
    /// An engine with no sprites.
    pub fn new() -> (r: GameEngine<E>)
        ensures
            r.sprites@ == Seq::<Sprite<E>>::empty(),
    {
        GameEngine { sprites: Vec::new() }
    }

    /// The collection, back to front.
    pub fn sprites(&self) -> (r: &Vec<Sprite<E>>)
        ensures
            *r == self.sprites,
    {
        &self.sprites
    }

    /// Mutable access to the collection, for the host's own bookkeeping.
    pub fn sprites_mut(&mut self) -> (r: &mut Vec<Sprite<E>>)
        ensures
            *r == old(self).sprites,
            final(self).sprites == *final(r),
    {
        &mut self.sprites
    }

    /// Insert keyed by ascending z-order: directly before the first sprite
    /// with a strictly greater z-order, else at the end.
    pub fn add_sprite(&mut self, sprite: Sprite<E>)
        ensures
            final(self).sprites@ == old(self).sprites@.insert(
                spec_insert_index(models(old(self).sprites@), sprite@.z_order),
                sprite,
            ),
    {
        proof {
            lemma_insert_index_bounds(models(self.sprites@), sprite@.z_order);
        }
        let ghost m0 = models(self.sprites@);
        let ghost z = sprite@.z_order;
        let sprites_num = self.sprites.len();
        let z_new = sprite.z_order();
        let mut i: usize = 0;
        while i < sprites_num
            invariant
                i <= sprites_num,
                sprites_num == self.sprites@.len(),
                self.sprites@ == old(self).sprites@,
                m0 == models(self.sprites@),
                z == z_new as int,
                z == sprite@.z_order,
                forall|j: int| 0 <= j < i ==> (#[trigger] m0[j]).z_order <= z,
            decreases sprites_num - i,
        {
            let z_here = self.sprites[i].z_order();
            assert(z_here as int == m0[i as int].z_order);
            if z_new < z_here {
                proof {
                    lemma_insert_index_unique(m0, z, i as int);
                }
                self.sprites.insert(i, sprite);
                return ;
            }
            i += 1;
        }
        proof {
            lemma_insert_index_unique(m0, z, m0.len() as int);
        }
        let ghost before = self.sprites@;
        self.sprites.push(sprite);
        proof {
            assert(self.sprites@ =~= before.insert(before.len() as int, sprite));
        }
    }

    /// Empty the collection unconditionally.
    pub fn clean_up_sprites(&mut self)
        ensures
            final(self).sprites@ == Seq::<Sprite<E>>::empty(),
    {
        self.sprites.clear();
    }

    /// Draw every sprite in collection order, back to front. Drawing is
    /// best-effort: every sprite is attempted and the first failure is
    /// surfaced; the simulation state is untouched either way.
    pub fn draw_sprites<G: Graphics>(&self, g: &mut G) -> (r: Result<(), String>)
        requires
            forall|i: int|
                0 <= i < self.sprites@.len() ==> (!(#[trigger] models(self.sprites@)[i]).hidden
                    ==> spec_sprite_drawable(models(self.sprites@)[i])),
        ensures
            (forall|i: int|
                0 <= i < self.sprites@.len() ==> (#[trigger] models(self.sprites@)[i]).hidden)
                ==> r is Ok,
    {
        let sprites_num = self.sprites.len();
        let mut first_err: Option<String> = None;
        let mut i: usize = 0;
        while i < sprites_num
            invariant
                i <= sprites_num,
                sprites_num == self.sprites@.len(),
                forall|j: int|
                    0 <= j < self.sprites@.len() ==> (!(#[trigger] models(
                        self.sprites@,
                    )[j]).hidden ==> spec_sprite_drawable(models(self.sprites@)[j])),
                (forall|j: int|
                    0 <= j < i ==> (#[trigger] models(self.sprites@)[j]).hidden) ==> first_err
                    is None,
            decreases sprites_num - i,
        {
            proof {
                assert(models(self.sprites@)[i as int] == self.sprites@[i as int]@);
            }
            let outcome = self.sprites[i].draw(g);
            if first_err.is_none() {
                if let Err(message) = outcome {
                    first_err = Some(message);
                }
            }
            proof {
                if forall|j: int| 0 <= j <= i ==> (#[trigger] models(self.sprites@)[j]).hidden {
                    assert(models(self.sprites@)[i as int].hidden);
                    assert(forall|j: int|
                        0 <= j < i ==> (#[trigger] models(self.sprites@)[j]).hidden);
                }
            }
            i += 1;
        }
        match first_err {
            None => Ok(()),
            Some(message) => Err(message),
        }
    }

    /// The first non-hidden sprite, in collection order, whose position
    /// rectangle contains the point; none when no sprite does.
    pub fn is_point_in_sprite(&self, x: i64, y: i64) -> (r: Option<&Sprite<E>>)
        ensures
            match spec_point_hit(models(self.sprites@), x as int, y as int) {
                Some(k) => r matches Some(sp) && sp@ == models(self.sprites@)[k],
                None => r is None,
            },
    {
        let sprites_num = self.sprites.len();
        let mut i: usize = 0;
        while i < sprites_num
            invariant
                i <= sprites_num,
                sprites_num == self.sprites@.len(),
                spec_point_hit(models(self.sprites@), x as int, y as int) == spec_point_hit_from(
                    models(self.sprites@),
                    x as int,
                    y as int,
                    i as int,
                ),
            decreases sprites_num - i,
        {
            let sp = &self.sprites[i];
            if !sp.hidden() && sp.is_point_inside(x, y) {
                return Some(sp);
            }
            i += 1;
        }
        None
    }

    /// The first sprite with the given identifier, for the host to adjust.
    pub fn get_sprite(&mut self, id: u64) -> (r: Option<&mut Sprite<E>>)
        ensures
            match spec_find_id(models(old(self).sprites@), id, 0) {
                Some(k) => r matches Some(sp) && *sp == old(self).sprites@[k]
                    && final(self).sprites@ == old(self).sprites@.update(k, *final(sp)),
                None => r is None && final(self).sprites@ == old(self).sprites@,
            },
    {
        let sprites_num = self.sprites.len();
        let mut i: usize = 0;
        while i < sprites_num
            invariant
                i <= sprites_num,
                sprites_num == self.sprites@.len(),
                self.sprites@ == old(self).sprites@,
                spec_find_id(models(self.sprites@), id, 0) == spec_find_id(
                    models(self.sprites@),
                    id,
                    i as int,
                ),
            decreases sprites_num - i,
        {
            if self.sprites[i].id() == id {
                let sp = &mut self.sprites[i];
                return Some(sp);
            }
            i += 1;
        }
        None
    }

    /// Mark the first sprite with the given identifier as dying; the actual
    /// removal happens at the end of the next update pass. Killing an
    /// already-dying sprite changes nothing, so a second call is a no-op.
    pub fn kill_sprite(&mut self, sprite_id: u64)
        ensures
            models(final(self).sprites@) == spec_kill_by_id(models(old(self).sprites@), sprite_id),
    {
        let ghost m0 = models(self.sprites@);
        let sprites_num = self.sprites.len();
        let mut i: usize = 0;
        while i < sprites_num
            invariant
                i <= sprites_num,
                sprites_num == self.sprites@.len(),
                self.sprites@ == old(self).sprites@,
                m0 == models(self.sprites@),
                spec_find_id(m0, sprite_id, 0) == spec_find_id(m0, sprite_id, i as int),
            decreases sprites_num - i,
        {
            if self.sprites[i].id() == sprite_id {
                let sp = &mut self.sprites[i];
                sp.kill();
                proof {
                    assert(models(final(self).sprites@) =~= spec_kill_by_id(m0, sprite_id));
                }
                return ;
            }
            i += 1;
        }
        proof {
            assert(models(final(self).sprites@) =~= spec_kill_by_id(m0, sprite_id));
        }
    }

    /// Run one sprite's per-tick update in place.
    fn update_sprite_at(&mut self, i: usize, now_ms: u64) -> (action: SpriteAction)
        requires
            i < old(self).sprites@.len(),
            now_ms <= CLOCK_LIMIT,
        ensures
            final(self).sprites@.len() == old(self).sprites@.len(),
            models(final(self).sprites@) == models(old(self).sprites@).update(
                i as int,
                spec_sprite_update(models(old(self).sprites@)[i as int], now_ms as int).0,
            ),
            !models(old(self).sprites@)[i as int].has_ext ==> action == spec_sprite_update(
                models(old(self).sprites@)[i as int],
                now_ms as int,
            ).1,
    {
        let ghost pre = self.sprites@;
        let sp = &mut self.sprites[i];
        let action = sp.update(now_ms);
        proof {
            assert(models(self.sprites@) =~= models(pre).update(
                i as int,
                spec_sprite_update(pre[i as int]@, now_ms as int).0,
            ));
        }
        action
    }

    /// Restore one sprite's pre-update position rectangle.
    fn rollback_sprite_at(&mut self, i: usize, pos: Rect)
        requires
            i < old(self).sprites@.len(),
            spec_valid_position(pos@),
        ensures
            final(self).sprites@.len() == old(self).sprites@.len(),
            models(final(self).sprites@) == models(old(self).sprites@).update(
                i as int,
                SpriteModel { position: pos@, ..models(old(self).sprites@)[i as int] },
            ),
    {
        let ghost pre = self.sprites@;
        let sp = &mut self.sprites[i];
        sp.set_position_rect(pos);
        proof {
            assert(models(self.sprites@) =~= models(pre).update(
                i as int,
                SpriteModel { position: pos@, ..pre[i as int]@ },
            ));
        }
    }

    /// Test the sprite at `test_sprite_id` against every other sprite's
    /// position, in collection order. On the first overlap the host is asked
    /// whether the sprite should roll back, and its answer is returned; with
    /// no overlap the answer is false and the host is not consulted.
    pub fn check_sprite_collision<H: GameHost>(
        &self,
        test_sprite_id: usize,
        host: &mut H,
    ) -> (r: bool)
        requires
            test_sprite_id < self.sprites@.len(),
        ensures
            spec_first_hit(models(self.sprites@), test_sprite_id as int) is None ==> r == false,
    {
        let sprites_num = self.sprites.len();
        let mut j: usize = 0;
        while j < sprites_num
            invariant
                j <= sprites_num,
                sprites_num == self.sprites@.len(),
                test_sprite_id < sprites_num,
                spec_first_hit(models(self.sprites@), test_sprite_id as int)
                    == spec_first_hit_from(
                    models(self.sprites@),
                    test_sprite_id as int,
                    j as int,
                ),
            decreases sprites_num - j,
        {
            if j != test_sprite_id {
                let hit = self.sprites[test_sprite_id].test_collison(self.sprites[j].position());
                if hit {
                    return host.sprite_collision(j, test_sprite_id);
                }
            }
            j += 1;
        }
        false
    }

    /// One frame update: every sprite present at the start of the pass is
    /// visited at its index in the live collection. Each one updates; a spawn
    /// request inserts the new sprite by z-order (eligible from the next
    /// frame); a `Kill` notifies the host and records the identifier; any
    /// other outcome is collision-tested, and on the host's say-so the sprite
    /// is rolled back to its pre-update position. After the pass every
    /// recorded identifier is removed, matched by identifier rather than by
    /// index.
    ///
    /// For an extension-free collection the whole pass equals
    /// [`spec_update_pass`] under the rollback decisions the host actually
    /// made; with extensions attached, the outcome additionally depends on
    /// the host's hooks.
    pub fn update_sprites<H: GameHost>(&mut self, host: &mut H, now_ms: u64)
        requires
            now_ms <= CLOCK_LIMIT,
        ensures
            no_ext(models(old(self).sprites@)) ==> exists|ds: Seq<bool>|
                ds.len() == old(self).sprites@.len() && models(final(self).sprites@)
                    == #[trigger] spec_update_pass(
                    models(old(self).sprites@),
                    now_ms as int,
                    ds,
                ),
    {
        let ghost s0 = models(self.sprites@);
        let ghost mut ds: Seq<bool> = Seq::empty();
        let sprites_num = self.sprites.len();
        let mut sprites_to_kill: Vec<u64> = Vec::new();
        let mut i: usize = 0;
        while i < sprites_num
            invariant
                i <= sprites_num,
                now_ms <= CLOCK_LIMIT,
                sprites_num == s0.len(),
                s0 == models(old(self).sprites@),
                self.sprites@.len() >= sprites_num,
                ds.len() == i,
                no_ext(s0) ==> {
                    &&& self.sprites@.len() == sprites_num
                    &&& models(self.sprites@) == spec_pass_prefix(
                        s0,
                        i as int,
                        now_ms as int,
                        ds,
                    ).0
                    &&& sprites_to_kill@ == spec_pass_prefix(s0, i as int, now_ms as int, ds).1
                },
            decreases sprites_num - i,
        {
            proof {
                if no_ext(s0) {
                    lemma_prefix_props(s0, i as int, now_ms as int, ds);
                }
            }
            let ghost cur0 = models(self.sprites@);
            let ghost kills0 = sprites_to_kill@;
            let old_sprite_pos: Rect = *self.sprites[i].position();
            let action = self.update_sprite_at(i, now_ms);
            proof {
                if no_ext(s0) {
                    lemma_sprite_update_fields(cur0[i as int], now_ms as int);
                }
            }
            let spawned: Option<Sprite<E>> = if action == SpriteAction::AddSprite {
                self.sprites[i].add_sprite()
            } else {
                None
            };
            if let Some(new_sprite) = spawned {
                let ghost before_add = self.sprites@;
                self.add_sprite(new_sprite);
                proof {
                    lemma_insert_index_bounds(models(before_add), new_sprite@.z_order);
                    assert(self.sprites@.len() == before_add.len() + 1);
                }
            }
            if action == SpriteAction::Kill {
                host.sprite_dying(i);
                let sid = self.sprites[i].id();
                sprites_to_kill.push(sid);
                proof {
                    if no_ext(s0) {
                        lemma_prefix_ds_extend(s0, i as int, now_ms as int, ds, false);
                    }
                    ds = ds.push(false);
                }
            } else {
                let roll = self.check_sprite_collision(i, host);
                if roll {
                    self.rollback_sprite_at(i, old_sprite_pos);
                }
                proof {
                    if no_ext(s0) {
                        lemma_prefix_ds_extend(s0, i as int, now_ms as int, ds, roll);
                    }
                    ds = ds.push(roll);
                }
            }
            i += 1;
        }
        let ghost kills_g = sprites_to_kill@;
        let mut retained: Vec<Sprite<E>> = Vec::new();
        let mut leftovers: Vec<Sprite<E>> = Vec::new();
        std::mem::swap(&mut leftovers, &mut self.sprites);
        let ghost snap = leftovers@;
        let total = leftovers.len();
        let mut k: usize = 0;
        while k < total
            invariant
                k <= total,
                total == snap.len(),
                kills_g == sprites_to_kill@,
                leftovers@ == snap.subrange(k as int, snap.len() as int),
                models(retained@) == spec_remove_ids(
                    models(snap.subrange(0, k as int)),
                    kills_g,
                ),
            decreases total - k,
        {
            let sp = leftovers.remove(0);
            proof {
                assert(sp == snap[k as int]);
                assert(leftovers@ =~= snap.subrange(k as int + 1, snap.len() as int));
            }
            let keep = !contains_id(&sprites_to_kill, sp.id());
            let ghost prev_retained = retained@;
            if keep {
                retained.push(sp);
            }
            proof {
                assert(models(snap.subrange(0, k as int + 1)) =~= models(
                    snap.subrange(0, k as int),
                ).push(snap[k as int]@));
                lemma_remove_ids_push(models(snap.subrange(0, k as int)), snap[k as int]@, kills_g);
                if keep {
                    assert(models(retained@) =~= models(prev_retained).push(snap[k as int]@));
                    assert(models(retained@) =~= spec_remove_ids(
                        models(snap.subrange(0, k as int)),
                        kills_g,
                    ) + seq![snap[k as int]@]);
                } else {
                    assert(models(retained@) =~= spec_remove_ids(
                        models(snap.subrange(0, k as int)),
                        kills_g,
                    ) + Seq::<SpriteModel>::empty());
                }
            }
            k += 1;
        }
        self.sprites = retained;
        proof {
            assert(snap.subrange(0, snap.len() as int) =~= snap);
            if no_ext(s0) {
                assert(models(self.sprites@) == spec_update_pass(s0, now_ms as int, ds));
                assert(exists|d: Seq<bool>|
                    d.len() == old(self).sprites@.len() && models(self.sprites@)
                        == #[trigger] spec_update_pass(s0, now_ms as int, d)) by {
                    assert(ds.len() == old(self).sprites@.len() && models(self.sprites@)
                        == spec_update_pass(s0, now_ms as int, ds));
                }
            }
        }
    }
}

/// Whether the identifier occurs in the list.
fn contains_id(ids: &Vec<u64>, id: u64) -> (r: bool)
    ensures
        r == ids@.contains(id),
{
    let ids_num = ids.len();
    let mut j: usize = 0;
    while j < ids_num
        invariant
            j <= ids_num,
            ids_num == ids@.len(),
            forall|l: int| 0 <= l < j ==> ids@[l] != id,
        decreases ids_num - j,
    {
        if ids[j] == id {
            assert(ids@[j as int] == id);
            return true;
        }
        j += 1;
    }
    assert(forall|l: int| 0 <= l < ids@.len() ==> ids@[l] != id);
    false
}

/// The first index at or after `j` (skipping `i` itself) whose position
/// rectangle overlaps the shrunk collision region of the sprite at `i`.
pub open spec fn spec_first_hit_from(s: Seq<SpriteModel>, i: int, j: int) -> Option<int>
    decreases s.len() - j,
{
    if j < 0 || j >= s.len() {
        None
    } else if j != i && rects_overlap(spec_collision_region(s[i].position), s[j].position) {
        Some(j)
    } else {
        spec_first_hit_from(s, i, j + 1)
    }
}

/// The first sprite, in collection order, that the sprite at `i` collides
/// with; the sprite itself is excluded by index.
pub open spec fn spec_first_hit(s: Seq<SpriteModel>, i: int) -> Option<int> {
    spec_first_hit_from(s, i, 0)
}

/// One iteration of the update pass at index `j`: the sprite updates in
/// place; a `Kill` records its identifier for removal and skips collision
/// handling; otherwise, when a collision is found and the host decision `d`
/// says so, the sprite's pre-update position is restored — and only the
/// position: a velocity change made during boundary handling stays.
pub open spec fn spec_pass_step(
    s: Seq<SpriteModel>,
    kills: Seq<u64>,
    j: int,
    now: int,
    d: bool,
) -> (Seq<SpriteModel>, Seq<u64>) {
    let u = spec_sprite_update(s[j], now);
    let s1 = s.update(j, u.0);
    if u.1 is Kill {
        (s1, kills.push(u.0.id))
    } else {
        if spec_first_hit(s1, j) is Some && d {
            (s1.update(j, SpriteModel { position: s[j].position, ..u.0 }), kills)
        } else {
            (s1, kills)
        }
    }
}

/// The first `i` iterations of an extension-free update pass over the
/// collection `s0`, with `ds` the host's rollback decisions.
pub open spec fn spec_pass_prefix(s0: Seq<SpriteModel>, i: int, now: int, ds: Seq<bool>) -> (
    Seq<SpriteModel>,
    Seq<u64>,
)
    decreases i,
{
    if i <= 0 {
        (s0, Seq::empty())
    } else {
        let prev = spec_pass_prefix(s0, i - 1, now, ds);
        spec_pass_step(prev.0, prev.1, i - 1, now, if i - 1 < ds.len() {
            ds[i - 1]
        } else {
            false
        })
    }
}

/// Remove every sprite whose identifier was recorded for removal, keeping
/// the order of the survivors.
pub open spec fn spec_remove_ids(s: Seq<SpriteModel>, kills: Seq<u64>) -> Seq<SpriteModel>
    decreases s.len(),
{
    if s.len() == 0 {
        Seq::empty()
    } else {
        let rest = spec_remove_ids(s.subrange(1, s.len() as int), kills);
        if kills.contains(s[0].id) {
            rest
        } else {
            seq![s[0]] + rest
        }
    }
}

/// A whole extension-free update pass: every sprite steps once, in order,
/// against the live collection, and the sprites recorded as dying are removed
/// afterwards, matched by identifier.
pub open spec fn spec_update_pass(s0: Seq<SpriteModel>, now: int, ds: Seq<bool>) -> Seq<
    SpriteModel,
> {
    let p = spec_pass_prefix(s0, s0.len() as int, now, ds);
    spec_remove_ids(p.0, p.1)
}

/// The per-sprite update never invents or drops identity: identifier, name,
/// z-order, bounds, policy, hidden flag and extension presence all survive
/// the tick, and the action is never a spawn request.
pub proof fn lemma_sprite_update_fields(m: SpriteModel, now: int)
    ensures
        spec_sprite_update(m, now).0.id == m.id,
        spec_sprite_update(m, now).0.has_ext == m.has_ext,
        spec_sprite_update(m, now).0.z_order == m.z_order,
        spec_sprite_update(m, now).0.name == m.name,
        spec_sprite_update(m, now).0.hidden == m.hidden,
        spec_sprite_update(m, now).0.bounds == m.bounds,
        spec_sprite_update(m, now).0.bounds_action == m.bounds_action,
        !(spec_sprite_update(m, now).1 is AddSprite),
{
}

/// Decisions beyond the processed prefix do not matter: extending the
/// decision sequence leaves the prefix unchanged.
proof fn lemma_prefix_ds_extend(s0: Seq<SpriteModel>, i: int, now: int, ds: Seq<bool>, b: bool)
    requires
        i <= ds.len(),
    ensures
        spec_pass_prefix(s0, i, now, ds.push(b)) == spec_pass_prefix(s0, i, now, ds),
    decreases i,
{
    if i > 0 {
        lemma_prefix_ds_extend(s0, i - 1, now, ds, b);
    }
}

/// Over an extension-free collection the pass prefix keeps the length, keeps
/// every sprite extension-free, and leaves the sprites at or beyond the
/// processed prefix untouched.
pub proof fn lemma_prefix_props(s0: Seq<SpriteModel>, i: int, now: int, ds: Seq<bool>)
    requires
        0 <= i <= s0.len(),
        no_ext(s0),
    ensures
        spec_pass_prefix(s0, i, now, ds).0.len() == s0.len(),
        no_ext(spec_pass_prefix(s0, i, now, ds).0),
        forall|j: int|
            i <= j < s0.len() ==> spec_pass_prefix(s0, i, now, ds).0[j] == s0[j],
    decreases i,
{
    if i > 0 {
        lemma_prefix_props(s0, i - 1, now, ds);
        let prev = spec_pass_prefix(s0, i - 1, now, ds);
        lemma_sprite_update_fields(prev.0[i - 1], now);
    }
}

/// Appending one sprite to the removal input appends its survivor (or
/// nothing, when its identifier is recorded) to the removal output.
proof fn lemma_remove_ids_push(s: Seq<SpriteModel>, m: SpriteModel, kills: Seq<u64>)
    ensures
        spec_remove_ids(s.push(m), kills) == spec_remove_ids(s, kills) + (if kills.contains(m.id) {
            Seq::<SpriteModel>::empty()
        } else {
            seq![m]
        }),
    decreases s.len(),
{
    let tail = if kills.contains(m.id) {
        Seq::<SpriteModel>::empty()
    } else {
        seq![m]
    };
    if s.len() == 0 {
        assert(s.push(m)[0] == m);
        assert(s.push(m).subrange(1, 1) =~= Seq::<SpriteModel>::empty());
        assert(spec_remove_ids(Seq::<SpriteModel>::empty(), kills) == Seq::<SpriteModel>::empty());
        assert(spec_remove_ids(s, kills) == Seq::<SpriteModel>::empty());
        assert(spec_remove_ids(s.push(m), kills) =~= spec_remove_ids(s, kills) + tail);
    } else {
        assert(s.push(m).subrange(1, s.len() as int + 1) =~= s.subrange(1, s.len() as int).push(m));
        lemma_remove_ids_push(s.subrange(1, s.len() as int), m, kills);
        assert(s.push(m)[0] == s[0]);
        if kills.contains(s[0].id) {
        } else {
            assert(seq![s[0]] + (spec_remove_ids(s.subrange(1, s.len() as int), kills) + tail)
                =~= (seq![s[0]] + spec_remove_ids(s.subrange(1, s.len() as int), kills)) + tail);
        }
    }
}

/// Every sprite whose identifier is recorded for removal is absent from the
/// removal output.
pub proof fn lemma_remove_ids_absent(s: Seq<SpriteModel>, kills: Seq<u64>, id: u64)
    requires
        kills.contains(id),
    ensures
        forall|j: int|
            0 <= j < spec_remove_ids(s, kills).len() ==> (#[trigger] spec_remove_ids(s, kills)[j]).id
                != id,
    decreases s.len(),
{
    if s.len() > 0 {
        lemma_remove_ids_absent(s.subrange(1, s.len() as int), kills, id);
    }
}

/// An identifier once recorded for removal stays recorded for the rest of
/// the pass.
proof fn lemma_prefix_kills_monotone(
    s0: Seq<SpriteModel>,
    i: int,
    i2: int,
    now: int,
    ds: Seq<bool>,
    id: u64,
)
    requires
        0 <= i <= i2,
        spec_pass_prefix(s0, i, now, ds).1.contains(id),
    ensures
        spec_pass_prefix(s0, i2, now, ds).1.contains(id),
    decreases i2 - i,
{
    if i < i2 {
        let prev = spec_pass_prefix(s0, i2 - 1, now, ds);
        lemma_prefix_kills_monotone(s0, i, i2 - 1, now, ds, id);
        let witness = choose|w: int| 0 <= w < prev.1.len() && prev.1[w] == id;
        let next = spec_pass_prefix(s0, i2, now, ds);
        assert(next.1 == prev.1 || next.1 == prev.1.push(
            spec_sprite_update(prev.0[i2 - 1], now).0.id,
        ));
        assert(next.1[witness] == id);
    }
}

/// Law: a sprite that asks to be killed is gone after the pass. In an
/// extension-free collection, a sprite under the `Die` policy whose candidate
/// position lies fully outside its playfield — or one already marked dying —
/// returns `Kill`, and no sprite with its identifier survives the pass,
/// whatever the host decided elsewhere.
pub proof fn lemma_die_exit_removed(s0: Seq<SpriteModel>, k: int, now: int, ds: Seq<bool>)
    requires
        no_ext(s0),
        0 <= k < s0.len(),
        s0[k].dying || (s0[k].bounds_action is Die && spec_die_exited(
            s0[k].position.left + s0[k].velocity.x,
            s0[k].position.top + s0[k].velocity.y,
            rect_width(s0[k].position),
            rect_height(s0[k].position),
            s0[k].bounds,
        )),
    ensures
        forall|j: int|
            0 <= j < spec_update_pass(s0, now, ds).len() ==> (#[trigger] spec_update_pass(
                s0,
                now,
                ds,
            )[j]).id != s0[k].id,
{
    lemma_prefix_props(s0, k, now, ds);
    let prev = spec_pass_prefix(s0, k, now, ds);
    let u = spec_sprite_update(s0[k], now);
    lemma_sprite_update_fields(s0[k], now);
    assert(u.1 is Kill);
    let next = spec_pass_prefix(s0, k + 1, now, ds);
    assert(next.1 == prev.1.push(u.0.id));
    assert(next.1[next.1.len() - 1] == s0[k].id);
    assert(next.1.contains(s0[k].id));
    lemma_prefix_kills_monotone(s0, k + 1, s0.len() as int, now, ds, s0[k].id);
    lemma_remove_ids_absent(
        spec_pass_prefix(s0, s0.len() as int, now, ds).0,
        spec_pass_prefix(s0, s0.len() as int, now, ds).1,
        s0[k].id,
    );
}

/// Law: a rollback restores only the position. In an extension-free
/// collection, when the sprite at `k` did not ask to be killed, a collision
/// was found against it, and the host ruled for a rollback, the sprite ends
/// the iteration at its pre-update position but keeps the velocity its update
/// computed — a reflection made by a bounce, for instance, is not undone.
pub proof fn lemma_rollback_keeps_velocity(s0: Seq<SpriteModel>, k: int, now: int, ds: Seq<bool>)
    requires
        no_ext(s0),
        0 <= k < s0.len(),
        k < ds.len(),
        ds[k],
        !(spec_sprite_update(s0[k], now).1 is Kill),
        spec_first_hit(
            spec_pass_prefix(s0, k, now, ds).0.update(k, spec_sprite_update(s0[k], now).0),
            k,
        ) is Some,
    ensures
        spec_pass_prefix(s0, k + 1, now, ds).0[k].position == s0[k].position,
        spec_pass_prefix(s0, k + 1, now, ds).0[k].velocity == spec_sprite_update(
            s0[k],
            now,
        ).0.velocity,
{
    lemma_prefix_props(s0, k, now, ds);
}

/// The first index at or after `j` whose sprite is visible and contains the
/// point.
pub open spec fn spec_point_hit_from(s: Seq<SpriteModel>, x: int, y: int, j: int) -> Option<int>
    decreases s.len() - j,
{
    if j < 0 || j >= s.len() {
        None
    } else if !s[j].hidden && rect_contains_point(s[j].position, x, y) {
        Some(j)
    } else {
        spec_point_hit_from(s, x, y, j + 1)
    }
}

/// The first visible sprite containing the point, in collection order.
pub open spec fn spec_point_hit(s: Seq<SpriteModel>, x: int, y: int) -> Option<int> {
    spec_point_hit_from(s, x, y, 0)
}

/// The first index at or after `j` carrying the given identifier.
pub open spec fn spec_find_id(s: Seq<SpriteModel>, id: u64, j: int) -> Option<int>
    decreases s.len() - j,
{
    if j < 0 || j >= s.len() {
        None
    } else if s[j].id == id {
        Some(j)
    } else {
        spec_find_id(s, id, j + 1)
    }
}

/// Kill-by-identifier at the model level: the first sprite with the
/// identifier gets its dying flag set; nothing else changes.
pub open spec fn spec_kill_by_id(s: Seq<SpriteModel>, id: u64) -> Seq<SpriteModel> {
    match spec_find_id(s, id, 0) {
        Some(k) => s.update(k, SpriteModel { dying: true, ..s[k] }),
        None => s,
    }
}

/// Law: kill-by-identifier is idempotent. Marking the same sprite dying a
/// second time before the next update pass leaves the collection exactly as
/// one call left it, so the sprite is removed exactly once.
pub proof fn lemma_kill_by_id_idempotent(s: Seq<SpriteModel>, id: u64)
    ensures
        spec_kill_by_id(spec_kill_by_id(s, id), id) == spec_kill_by_id(s, id),
{
    let once = spec_kill_by_id(s, id);
    match spec_find_id(s, id, 0) {
        Some(k) => {
            lemma_find_id_in_range(s, id, 0);
            lemma_find_id_update_irrelevant(s, id, 0, k, SpriteModel { dying: true, ..s[k] });
            assert(spec_kill_by_id(once, id) =~= once);
        },
        None => {
        },
    }
}

/// The index found by `spec_find_id` lies in range and carries the
/// identifier, and no earlier index at or after `j` does.
pub proof fn lemma_find_id_in_range(s: Seq<SpriteModel>, id: u64, j: int)
    requires
        0 <= j,
    ensures
        match spec_find_id(s, id, j) {
            Some(k) => j <= k < s.len() && s[k].id == id && forall|l: int|
                j <= l < k ==> (#[trigger] s[l]).id != id,
            None => forall|l: int| j <= l < s.len() ==> (#[trigger] s[l]).id != id,
        },
    decreases s.len() - j,
{
    if j < s.len() && s[j].id != id {
        lemma_find_id_in_range(s, id, j + 1);
    }
}

/// Updating an entry without changing its identifier leaves the search
/// result unchanged.
proof fn lemma_find_id_update_irrelevant(s: Seq<SpriteModel>, id: u64, j: int, k: int, m: SpriteModel)
    requires
        0 <= j,
        0 <= k < s.len(),
        m.id == s[k].id,
    ensures
        spec_find_id(s.update(k, m), id, j) == spec_find_id(s, id, j),
    decreases s.len() - j,
{
    if 0 <= j < s.len() {
        assert(s.update(k, m)[j].id == s[j].id);
        if s[j].id != id {
            lemma_find_id_update_irrelevant(s, id, j + 1, k, m);
        }
    }
}

/// Law: ordered insertion keeps the collection sorted by z-order, and places
/// a newcomer after every sprite whose z-order equals its own.
pub open spec fn spec_sorted_by_z(s: Seq<SpriteModel>) -> bool {
    forall|i: int, j: int| 0 <= i <= j < s.len() ==> (#[trigger] s[i]).z_order <= (#[trigger] s[j]).z_order
}

pub proof fn lemma_add_sprite_ordering(s: Seq<SpriteModel>, m: SpriteModel)
    requires
        spec_sorted_by_z(s),
    ensures
        spec_sorted_by_z(s.insert(spec_insert_index(s, m.z_order), m)),
        forall|j: int|
            0 <= j < spec_insert_index(s, m.z_order) ==> (#[trigger] s[j]).z_order <= m.z_order,
        forall|j: int|
            spec_insert_index(s, m.z_order) <= j < s.len() ==> m.z_order < (#[trigger] s[j]).z_order,
{
    let k = spec_insert_index(s, m.z_order);
    lemma_insert_index_bounds(s, m.z_order);
    assert forall|j: int| k <= j < s.len() implies m.z_order < (#[trigger] s[j]).z_order by {
        assert(s[k].z_order <= s[j].z_order);
    }
    let t = s.insert(k, m);
    assert forall|i: int, j: int| 0 <= i <= j < t.len() implies (#[trigger] t[i]).z_order <= (
    #[trigger] t[j]).z_order by {
        if i < k {
            assert(t[i] == s[i]);
        } else if i == k {
            assert(t[i] == m);
        } else {
            assert(t[i] == s[i - 1]);
        }
        if j < k {
            assert(t[j] == s[j]);
        } else if j == k {
            assert(t[j] == m);
        } else {
            assert(t[j] == s[j - 1]);
        }
    }
}

} // verus!
