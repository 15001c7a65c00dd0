use vstd::prelude::*;
use crate::scene::Entity;
use crate::scene::is_camera_rig;
use crate::scene::is_debug_polyline;
use crate::scene::is_ground;
use crate::scene::is_light;
use crate::scene::is_player_avatar;
use crate::scene::setup_appended;

verus! {

/// How many entities of a sequence satisfy a predicate.
pub open spec fn count_matching(s: Seq<Entity>, p: spec_fn(Entity) -> bool) -> nat
    decreases s.len(),
{
    if s.len() == 0 {
        0
    } else {
        count_matching(s.drop_last(), p) + if p(s.last()) {
            1nat
        } else {
            0nat
        }
    }
}

/// The predicate picking out the ground entity, as a value.
pub open spec fn ground_pred() -> spec_fn(Entity) -> bool {
    |e: Entity| is_ground(e)
}

/// The predicate picking out the player avatar, as a value.
pub open spec fn player_avatar_pred() -> spec_fn(Entity) -> bool {
    |e: Entity| is_player_avatar(e)
}

/// The predicate picking out the light entity, as a value.
pub open spec fn light_pred() -> spec_fn(Entity) -> bool {
    |e: Entity| is_light(e)
}

/// The predicate picking out the camera entity, as a value.
pub open spec fn camera_rig_pred() -> spec_fn(Entity) -> bool {
    |e: Entity| is_camera_rig(e)
}

/// The predicate picking out the debug polyline, as a value.
pub open spec fn debug_polyline_pred() -> spec_fn(Entity) -> bool {
    |e: Entity| is_debug_polyline(e)
}

/// How many entities of a sequence are the ground entity.
pub open spec fn count_ground(s: Seq<Entity>) -> nat {
    count_matching(s, ground_pred())
}

/// How many entities of a sequence are the player avatar.
pub open spec fn count_player_avatar(s: Seq<Entity>) -> nat {
    count_matching(s, player_avatar_pred())
}

/// How many entities of a sequence are the light entity.
pub open spec fn count_light(s: Seq<Entity>) -> nat {
    count_matching(s, light_pred())
}

/// How many entities of a sequence are the camera entity.
pub open spec fn count_camera_rig(s: Seq<Entity>) -> nat {
    count_matching(s, camera_rig_pred())
}

/// How many entities of a sequence are the debug polyline.
pub open spec fn count_debug_polyline(s: Seq<Entity>) -> nat {
    count_matching(s, debug_polyline_pred())
}

/// Counting distributes over concatenation.
pub proof fn lemma_count_matching_add(a: Seq<Entity>, b: Seq<Entity>, p: spec_fn(Entity) -> bool)
    ensures
        count_matching(a + b, p) == count_matching(a, p) + count_matching(b, p),
    decreases b.len(),
{
    if b.len() == 0 {
        assert(a + b =~= a);
    } else {
        assert((a + b).drop_last() =~= a + b.drop_last());
        assert((a + b).last() == b.last());
        lemma_count_matching_add(a, b.drop_last(), p);
    }
}

/// Counting over a five-entity sequence, written out.
proof fn lemma_count_matching_five(s: Seq<Entity>, p: spec_fn(Entity) -> bool)
    requires
        s.len() == 5,
    ensures
        count_matching(s, p) == (if p(s[0]) {
            1nat
        } else {
            0nat
        }) + (if p(s[1]) {
            1nat
        } else {
            0nat
        }) + (if p(s[2]) {
            1nat
        } else {
            0nat
        }) + (if p(s[3]) {
            1nat
        } else {
            0nat
        }) + (if p(s[4]) {
            1nat
        } else {
            0nat
        }),
{
    let s4 = s.drop_last();
    let s3 = s4.drop_last();
    let s2 = s3.drop_last();
    let s1 = s2.drop_last();
    let s0 = s1.drop_last();
    assert(s0.len() == 0);
    assert(s1.last() == s[0]);
    assert(s2.last() == s[1]);
    assert(s3.last() == s[2]);
    assert(s4.last() == s[3]);
    assert(s.last() == s[4]);
    assert(count_matching(s0, p) == 0);
    assert(count_matching(s1, p) == count_matching(s0, p) + if p(s[0]) {
        1nat
    } else {
        0nat
    });
    assert(count_matching(s2, p) == count_matching(s1, p) + if p(s[1]) {
        1nat
    } else {
        0nat
    });
    assert(count_matching(s3, p) == count_matching(s2, p) + if p(s[2]) {
        1nat
    } else {
        0nat
    });
    assert(count_matching(s4, p) == count_matching(s3, p) + if p(s[3]) {
        1nat
    } else {
        0nat
    });
    assert(count_matching(s, p) == count_matching(s4, p) + if p(s[4]) {
        1nat
    } else {
        0nat
    });
}

/// The five bootstrap entities appended by one run, as a sequence.
pub open spec fn setup_block(pre: Seq<Entity>, post: Seq<Entity>) -> Seq<Entity> {
    post.subrange(pre.len() as int, post.len() as int)
}

/// One bootstrap run adds exactly one entity of each of the five kinds: one
/// debug polyline, one ground, one player avatar, one light and one camera,
/// whatever the world held before. In particular the five kinds stay as
/// distinguishable in the new world as they were.
pub proof fn lemma_setup_adds_one_of_each(pre: Seq<Entity>, post: Seq<Entity>)
    requires
        setup_appended(pre, post),
    ensures
        count_debug_polyline(post) == count_debug_polyline(pre) + 1,
        count_ground(post) == count_ground(pre) + 1,
        count_player_avatar(post) == count_player_avatar(pre) + 1,
        count_light(post) == count_light(pre) + 1,
        count_camera_rig(post) == count_camera_rig(pre) + 1,
{
    let block = setup_block(pre, post);
    assert(post =~= pre + block);
    lemma_count_matching_add(pre, block, debug_polyline_pred());
    lemma_count_matching_add(pre, block, ground_pred());
    lemma_count_matching_add(pre, block, player_avatar_pred());
    lemma_count_matching_add(pre, block, light_pred());
    lemma_count_matching_add(pre, block, camera_rig_pred());
    lemma_count_matching_five(block, debug_polyline_pred());
    lemma_count_matching_five(block, ground_pred());
    lemma_count_matching_five(block, player_avatar_pred());
    lemma_count_matching_five(block, light_pred());
    lemma_count_matching_five(block, camera_rig_pred());
}

/// After one bootstrap run on an empty world, exactly one entity of each of
/// the five kinds exists, and nothing else.
pub proof fn lemma_fresh_setup_exactly_one_of_each(post: Seq<Entity>)
    requires
        setup_appended(Seq::<Entity>::empty(), post),
    ensures
        post.len() == 5,
        count_debug_polyline(post) == 1,
        count_ground(post) == 1,
        count_player_avatar(post) == 1,
        count_light(post) == 1,
        count_camera_rig(post) == 1,
{
    lemma_setup_adds_one_of_each(Seq::<Entity>::empty(), post);
}

/// The bootstrap is not idempotent: a second run spawns a second, independent
/// set of the five entities, so each kind is then present twice, after ten new
/// entities in all.
pub proof fn lemma_setup_twice_doubles(w0: Seq<Entity>, w1: Seq<Entity>, w2: Seq<Entity>)
    requires
        setup_appended(w0, w1),
        setup_appended(w1, w2),
    ensures
        w2.len() == w0.len() + 10,
        count_debug_polyline(w2) == count_debug_polyline(w0) + 2,
        count_ground(w2) == count_ground(w0) + 2,
        count_player_avatar(w2) == count_player_avatar(w0) + 2,
        count_light(w2) == count_light(w0) + 2,
        count_camera_rig(w2) == count_camera_rig(w0) + 2,
{
    lemma_setup_adds_one_of_each(w0, w1);
    lemma_setup_adds_one_of_each(w1, w2);
}

} // verus!
