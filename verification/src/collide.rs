//! Collision classifier: reads the physics collaborator's per-frame contact
//! pairs and applies the outcome rules; and the gravity-well consumption
//! rule, which works from positions alone.

use crate::geom::{scale_toward, unit_scaled_x, unit_scaled_y, Vec2};
use crate::world::{Entity, GameState, GameWorld, Kind, Mode, PLAYER_ID};
use vstd::prelude::*;

verus! {

/// One contact the physics collaborator reports: the two touching
/// identifiers, in either order.
#[derive(Clone, Copy, PartialEq, Eq, Structural, Debug)]
pub struct Contact {
    pub a: u64,
    pub b: u64,
}

/// Most contacts one classification pass accepts.
pub const MAX_CONTACTS: usize = 10_000;

/// Outward force a touching hostile exerts on the player in gravity-well
/// mode, in milli-units (25 world units).
pub const FORCE_SCALE: i64 = 25_000;

/// Half-width of the consumption box, in milli-units (25 world units) per
/// axis.
pub const CONSUME_RANGE: i64 = 25_000;

/// Some live entity has this identifier.
pub open spec fn has_id(es: Seq<Entity>, id: u64) -> bool {
    exists|i: int| 0 <= i < es.len() && es[i].id == id
}

/// Some live entity has this identifier and this kind.
pub open spec fn has_kind(es: Seq<Entity>, id: u64, k: Kind) -> bool {
    exists|i: int| 0 <= i < es.len() && es[i].id == id && es[i].kind == k
}

/// The index of the live entity with this identifier (meaningful when
/// `has_id` holds and identifiers are unique).
pub open spec fn idx_of(es: Seq<Entity>, id: u64) -> int {
    choose|i: int| 0 <= i < es.len() && es[i].id == id
}

/// The live entity with this identifier.
pub open spec fn ent_of(es: Seq<Entity>, id: u64) -> Entity {
    es[idx_of(es, id)]
}

/// The contact touches a bullet and a hostile object, in either order.
pub open spec fn bullet_object_pair(es: Seq<Entity>, c: Contact) -> bool {
    (has_kind(es, c.a, Kind::Bullet) && has_kind(es, c.b, Kind::Object)) || (has_kind(
        es,
        c.a,
        Kind::Object,
    ) && has_kind(es, c.b, Kind::Bullet))
}

/// The contact touches the player and a hostile object, in either order.
pub open spec fn player_object_contact(es: Seq<Entity>, c: Contact) -> bool {
    (c.a == PLAYER_ID && has_kind(es, c.b, Kind::Object)) || (c.b == PLAYER_ID && has_kind(
        es,
        c.a,
        Kind::Object,
    ))
}

/// Some contact pairs a bullet with a hostile object and involves this
/// identifier; both members of such a pair are despawned.
pub open spec fn hit_in_pair(es: Seq<Entity>, cs: Seq<Contact>, id: u64) -> bool {
    exists|j: int|
        0 <= j < cs.len() && bullet_object_pair(es, cs[j]) && (cs[j].a == id || cs[j].b == id)
}

/// The entities of `es` that are not condemned by `dead`, in order.
pub open spec fn removed(es: Seq<Entity>, dead: spec_fn(Entity) -> bool) -> Seq<Entity>
    decreases es.len(),
{
    if es.len() == 0 {
        Seq::<Entity>::empty()
    } else {
        let rest = removed(es.drop_last(), dead);
        if dead(es.last()) {
            rest
        } else {
            rest.push(es.last())
        }
    }
}

/// The entities of `es` that survive the bullet rule, in order; kinds are
/// looked up in the full pre-pass set `all`.
pub open spec fn survivors_of(all: Seq<Entity>, es: Seq<Entity>, cs: Seq<Contact>) -> Seq<Entity> {
    removed(es, |e: Entity| hit_in_pair(all, cs, e.id))
}

/// The entity set after one pursuit-mode classification pass.
pub open spec fn survivors(es: Seq<Entity>, cs: Seq<Contact>) -> Seq<Entity> {
    survivors_of(es, es, cs)
}

/// Whether some contact pairs the player with a hostile object.
pub open spec fn any_player_object_contact(es: Seq<Entity>, cs: Seq<Contact>) -> bool {
    exists|j: int| 0 <= j < cs.len() && player_object_contact(es, cs[j])
}

/// Every entity left by `removed` is one of the originals.
pub proof fn lemma_removed_members(es: Seq<Entity>, dead: spec_fn(Entity) -> bool)
    ensures
        forall|p: int| 0 <= p < removed(es, dead).len() ==> es.contains(
            #[trigger] removed(es, dead)[p],
        ),
    decreases es.len(),
{
    if es.len() > 0 {
        lemma_removed_members(es.drop_last(), dead);
        let rest = removed(es.drop_last(), dead);
        let out = removed(es, dead);
        assert forall|p: int| 0 <= p < out.len() implies es.contains(out[p]) by {
            if p < rest.len() {
                assert(es.drop_last().contains(rest[p]));
                let q0 = choose|q: int| 0 <= q < es.drop_last().len() && es.drop_last()[q]
                    == rest[p];
                assert(es[q0] == out[p]);
            } else {
                assert(out[p] == es.last());
                assert(es[es.len() - 1] == out[p]);
            }
        }
    }
}

/// `removed` never keeps a condemned entity.
pub proof fn lemma_removed_pred(es: Seq<Entity>, dead: spec_fn(Entity) -> bool)
    ensures
        forall|p: int| 0 <= p < removed(es, dead).len() ==> !dead(#[trigger] removed(es, dead)[p]),
    decreases es.len(),
{
    if es.len() > 0 {
        lemma_removed_pred(es.drop_last(), dead);
        let rest = removed(es.drop_last(), dead);
        let out = removed(es, dead);
        assert forall|p: int| 0 <= p < out.len() implies !dead(out[p]) by {
            if !dead(es.last()) && p == rest.len() {
                assert(out[p] == es.last());
            } else {
                assert(out[p] == rest[p]);
            }
        }
    }
}

/// `removed` keeps every entity that is not condemned.
pub proof fn lemma_removed_keeps(es: Seq<Entity>, dead: spec_fn(Entity) -> bool, q: int)
    requires
        0 <= q < es.len(),
        !dead(es[q]),
    ensures
        exists|p: int| 0 <= p < removed(es, dead).len() && removed(es, dead)[p] == es[q],
    decreases es.len(),
{
    let rest = removed(es.drop_last(), dead);
    if q == es.len() - 1 {
        assert(removed(es, dead)[rest.len() as int] == es[q]);
    } else {
        lemma_removed_keeps(es.drop_last(), dead, q);
        let p0 = choose|p: int| 0 <= p < rest.len() && rest[p] == es.drop_last()[q];
        assert(removed(es, dead)[p0] == es[q]);
    }
}

/// `removed` keeps identifiers mutually distinct.
pub proof fn lemma_removed_unique(es: Seq<Entity>, dead: spec_fn(Entity) -> bool)
    requires
        forall|p: int, q: int| 0 <= p < q < es.len() ==> es[p].id != es[q].id,
    ensures
        forall|p: int, q: int|
            0 <= p < q < removed(es, dead).len() ==> removed(es, dead)[p].id != removed(
                es,
                dead,
            )[q].id,
    decreases es.len(),
{
    if es.len() > 0 {
        assert(forall|p: int, q: int|
            0 <= p < q < es.drop_last().len() ==> es.drop_last()[p].id != es.drop_last()[q].id);
        lemma_removed_unique(es.drop_last(), dead);
        lemma_removed_members(es.drop_last(), dead);
        let rest = removed(es.drop_last(), dead);
        let out = removed(es, dead);
        assert forall|p: int, q: int| 0 <= p < q < out.len() implies out[p].id != out[q].id by {
            if q < rest.len() {
            } else {
                assert(!dead(es.last()) && out[q] == es.last());
                assert(es.drop_last().contains(rest[p]));
                let q0 = choose|qq: int| 0 <= qq < es.drop_last().len() && es.drop_last()[qq]
                    == rest[p];
                assert(es[q0].id != es[es.len() - 1].id);
            }
        }
    }
}

/// When nothing is condemned, `removed` is the identity.
pub proof fn lemma_removed_none(es: Seq<Entity>, dead: spec_fn(Entity) -> bool)
    requires
        forall|q: int| 0 <= q < es.len() ==> !dead(#[trigger] es[q]),
    ensures
        removed(es, dead) == es,
    decreases es.len(),
{
    if es.len() == 0 {
        assert(removed(es, dead) =~= es);
    } else {
        lemma_removed_none(es.drop_last(), dead);
        assert(removed(es, dead) =~= es) by {
            assert(!dead(es.last()));
            assert(removed(es, dead) == es.drop_last().push(es.last()));
        }
    }
}

/// Law: after one pursuit classification pass, both members of a contact
/// that pairs a bullet with a hostile object are gone from the world.
pub proof fn lemma_bullet_pair_despawned(es: Seq<Entity>, cs: Seq<Contact>, j: int)
    requires
        0 <= j < cs.len(),
        bullet_object_pair(es, cs[j]),
    ensures
        !has_id(survivors(es, cs), cs[j].a),
        !has_id(survivors(es, cs), cs[j].b),
{
    let dead = |e: Entity| hit_in_pair(es, cs, e.id);
    assert(hit_in_pair(es, cs, cs[j].a));
    assert(hit_in_pair(es, cs, cs[j].b));
    lemma_removed_pred(es, dead);
    let surv = survivors(es, cs);
    if has_id(surv, cs[j].a) {
        let p = choose|i: int| 0 <= i < surv.len() && surv[i].id == cs[j].a;
        assert(!dead(surv[p]));
    }
    if has_id(surv, cs[j].b) {
        let p = choose|i: int| 0 <= i < surv.len() && surv[i].id == cs[j].b;
        assert(!dead(surv[p]));
    }
}

/// Law: an entity not involved in any bullet-object pair survives the
/// pass.
pub proof fn lemma_uninvolved_survive(es: Seq<Entity>, cs: Seq<Contact>, q: int)
    requires
        0 <= q < es.len(),
        !hit_in_pair(es, cs, es[q].id),
    ensures
        has_id(survivors(es, cs), es[q].id),
{
    let dead = |e: Entity| hit_in_pair(es, cs, e.id);
    lemma_removed_keeps(es, dead, q);
    let p = choose|p: int| 0 <= p < removed(es, dead).len() && removed(es, dead)[p] == es[q];
    assert(survivors(es, cs)[p].id == es[q].id);
}

/// Law: a pursuit classification pass over an empty contact set changes
/// nothing at all.
pub proof fn lemma_classifier_empty_noop(es: Seq<Entity>)
    ensures
        survivors(es, Seq::<Contact>::empty()) == es,
{
    let cs = Seq::<Contact>::empty();
    let dead = |e: Entity| hit_in_pair(es, cs, e.id);
    assert(forall|q: int| 0 <= q < es.len() ==> !dead(#[trigger] es[q]));
    lemma_removed_none(es, dead);
}

/// The x component of the outward force one contact contributes in
/// gravity-well mode: for a player-object contact, the unit direction from
/// the player to the object scaled to `FORCE_SCALE`; no direction (object
/// exactly on the player) or any other contact contributes nothing.
pub open spec fn contact_force_x(ppos: Vec2, es: Seq<Entity>, c: Contact) -> int {
    if player_object_contact(es, c) {
        let oid = if c.a == PLAYER_ID {
            c.b
        } else {
            c.a
        };
        let e = ent_of(es, oid);
        let dx = e.pos.x - ppos.x;
        let dy = e.pos.y - ppos.y;
        if dx == 0 && dy == 0 {
            0
        } else {
            unit_scaled_x(dx, dy, FORCE_SCALE as int)
        }
    } else {
        0
    }
}

/// The y component of the outward force one contact contributes.
pub open spec fn contact_force_y(ppos: Vec2, es: Seq<Entity>, c: Contact) -> int {
    if player_object_contact(es, c) {
        let oid = if c.a == PLAYER_ID {
            c.b
        } else {
            c.a
        };
        let e = ent_of(es, oid);
        let dx = e.pos.x - ppos.x;
        let dy = e.pos.y - ppos.y;
        if dx == 0 && dy == 0 {
            0
        } else {
            unit_scaled_y(dx, dy, FORCE_SCALE as int)
        }
    } else {
        0
    }
}

/// Sum over the contacts of the x components of the outward forces: the
/// force is re-applied for every contact that persists, once per contact
/// per pass.
pub open spec fn attraction_x(ppos: Vec2, es: Seq<Entity>, cs: Seq<Contact>) -> int
    decreases cs.len(),
{
    if cs.len() == 0 {
        0
    } else {
        attraction_x(ppos, es, cs.drop_last()) + contact_force_x(ppos, es, cs.last())
    }
}

/// Sum over the contacts of the y components of the outward forces.
pub open spec fn attraction_y(ppos: Vec2, es: Seq<Entity>, cs: Seq<Contact>) -> int
    decreases cs.len(),
{
    if cs.len() == 0 {
        0
    } else {
        attraction_y(ppos, es, cs.drop_last()) + contact_force_y(ppos, es, cs.last())
    }
}

/// No single contact contributes more than `FORCE_SCALE` per axis.
pub proof fn lemma_contact_force_bounded(ppos: Vec2, es: Seq<Entity>, c: Contact)
    ensures
        -FORCE_SCALE <= contact_force_x(ppos, es, c) <= FORCE_SCALE,
        -FORCE_SCALE <= contact_force_y(ppos, es, c) <= FORCE_SCALE,
{
    if player_object_contact(es, c) {
        let oid = if c.a == PLAYER_ID {
            c.b
        } else {
            c.a
        };
        let e = ent_of(es, oid);
        let dx = e.pos.x - ppos.x;
        let dy = e.pos.y - ppos.y;
        if !(dx == 0 && dy == 0) {
            crate::geom::lemma_unit_scaled_bound(dx, dy, FORCE_SCALE as int);
        }
    }
}

/// The summed outward force grows by at most `FORCE_SCALE` per contact on
/// each axis.
pub proof fn lemma_attraction_bounded(ppos: Vec2, es: Seq<Entity>, cs: Seq<Contact>)
    ensures
        -FORCE_SCALE * cs.len() <= attraction_x(ppos, es, cs) <= FORCE_SCALE * cs.len(),
        -FORCE_SCALE * cs.len() <= attraction_y(ppos, es, cs) <= FORCE_SCALE * cs.len(),
    decreases cs.len(),
{
    if cs.len() > 0 {
        lemma_attraction_bounded(ppos, es, cs.drop_last());
        lemma_contact_force_bounded(ppos, es, cs.last());
    }
}

/// Find the kind of the live entity with this identifier, if any.
fn find_kind(entities: &Vec<Entity>, id: u64) -> (r: Option<Kind>)
    requires
        forall|i: int, j: int|
            0 <= i < j < entities@.len() ==> entities@[i].id != entities@[j].id,
    ensures
        forall|k: Kind| r == Some(k) <==> has_kind(entities@, id, k),
        r is None <==> !has_id(entities@, id),
{
    let n: usize = entities.len();
    let mut i: usize = 0;
    while i < n
        invariant
            n == entities@.len(),
            i <= n,
            forall|p: int, q: int|
                0 <= p < q < entities@.len() ==> entities@[p].id != entities@[q].id,
            forall|j: int| 0 <= j < i as int ==> entities@[j].id != id,
        decreases n - i,
    {
        if entities[i].id == id {
            let k: Kind = entities[i].kind;
            proof {
                assert(has_kind(entities@, id, k));
                assert forall|k2: Kind| has_kind(entities@, id, k2) implies k2 == k by {
                    let w = choose|w: int|
                        0 <= w < entities@.len() && entities@[w].id == id && entities@[w].kind
                            == k2;
                    assert(w == i as int);
                }
            }
            return Some(k);
        }
        i = i + 1;
    }
    None
}

/// Find the live entity with this identifier, if any.
fn find_entity(entities: &Vec<Entity>, id: u64) -> (r: Option<Entity>)
    requires
        forall|i: int, j: int|
            0 <= i < j < entities@.len() ==> entities@[i].id != entities@[j].id,
    ensures
        r is Some <==> has_id(entities@, id),
        r is Some ==> r->Some_0 == ent_of(entities@, id),
{
    let n: usize = entities.len();
    let mut i: usize = 0;
    while i < n
        invariant
            n == entities@.len(),
            i <= n,
            forall|p: int, q: int|
                0 <= p < q < entities@.len() ==> entities@[p].id != entities@[q].id,
            forall|j: int| 0 <= j < i as int ==> entities@[j].id != id,
        decreases n - i,
    {
        if entities[i].id == id {
            proof {
                assert(has_id(entities@, id));
                let w = idx_of(entities@, id);
                assert(0 <= w < entities@.len() && entities@[w].id == id);
                assert(w == i as int);
            }
            return Some(entities[i]);
        }
        i = i + 1;
    }
    None
}

/// Whether this contact pairs a bullet with a hostile object.
fn is_bullet_object_pair(entities: &Vec<Entity>, c: Contact) -> (r: bool)
    requires
        forall|i: int, j: int|
            0 <= i < j < entities@.len() ==> entities@[i].id != entities@[j].id,
    ensures
        r == bullet_object_pair(entities@, c),
{
    let ka: Option<Kind> = find_kind(entities, c.a);
    let kb: Option<Kind> = find_kind(entities, c.b);
    let ab: bool = matches!(ka, Some(Kind::Bullet)) && matches!(kb, Some(Kind::Object));
    let ba: bool = matches!(ka, Some(Kind::Object)) && matches!(kb, Some(Kind::Bullet));
    ab || ba
}

/// Whether the bullet rule despawns this identifier under these contacts.
fn is_hit_in_pair(entities: &Vec<Entity>, contacts: &Vec<Contact>, id: u64) -> (r: bool)
    requires
        forall|i: int, j: int|
            0 <= i < j < entities@.len() ==> entities@[i].id != entities@[j].id,
    ensures
        r == hit_in_pair(entities@, contacts@, id),
{
    let n: usize = contacts.len();
    let mut j: usize = 0;
    while j < n
        invariant
            n == contacts@.len(),
            j <= n,
            forall|i: int, p: int|
                0 <= i < p < entities@.len() ==> entities@[i].id != entities@[p].id,
            forall|k: int|
                0 <= k < j as int ==> !(bullet_object_pair(entities@, contacts@[k]) && (
            contacts@[k].a == id || contacts@[k].b == id)),
        decreases n - j,
    {
        let c: Contact = contacts[j];
        if (c.a == id || c.b == id) && is_bullet_object_pair(entities, c) {
            return true;
        }
        j = j + 1;
    }
    false
}

/// One classification pass over the frame's contact pairs.
///
/// In pursuit mode: a hostile touching the player ends the game (the state
/// moves to `GameOver`); a bullet touching a hostile, in either order,
/// despawns both, batched so the pass never mutates the set it is reading,
/// and a member of two qualifying pairs is simply despawned once.
///
/// In gravity-well mode: each hostile touching the player contributes an
/// outward force of fixed magnitude along the direction from the player to
/// that hostile, summed into the player's force accumulator for this frame
/// (and zero when nothing touches); nothing is despawned here.
/// Whether any contact pairs the player with a hostile object.
fn any_po_contact(entities: &Vec<Entity>, contacts: &Vec<Contact>) -> (r: bool)
    requires
        forall|i: int, j: int|
            0 <= i < j < entities@.len() ==> entities@[i].id != entities@[j].id,
    ensures
        r == any_player_object_contact(entities@, contacts@),
{
    let n: usize = contacts.len();
    let mut j: usize = 0;
    while j < n
        invariant
            n == contacts@.len(),
            j <= n,
            forall|p: int, q: int|
                0 <= p < q < entities@.len() ==> entities@[p].id != entities@[q].id,
            forall|k: int| 0 <= k < j as int ==> !player_object_contact(entities@, contacts@[k]),
        decreases n - j,
    {
        let c: Contact = contacts[j];
        let po: bool = if c.a == PLAYER_ID {
            matches!(find_kind(entities, c.b), Some(Kind::Object))
        } else if c.b == PLAYER_ID {
            matches!(find_kind(entities, c.a), Some(Kind::Object))
        } else {
            false
        };
        proof {
            assert(po == player_object_contact(entities@, c));
        }
        if po {
            return true;
        }
        j = j + 1;
    }
    false
}

/// The entities that survive the bullet rule, in order.
fn classify_survivors(entities: &Vec<Entity>, contacts: &Vec<Contact>) -> (keep: Vec<Entity>)
    requires
        forall|i: int, j: int|
            0 <= i < j < entities@.len() ==> entities@[i].id != entities@[j].id,
    ensures
        keep@ == survivors(entities@, contacts@),
{
    let m: usize = entities.len();
    let mut keep: Vec<Entity> = Vec::new();
    let mut i: usize = 0;
    while i < m
        invariant
            m == entities@.len(),
            i <= m,
            forall|p: int, q: int|
                0 <= p < q < entities@.len() ==> entities@[p].id != entities@[q].id,
            keep@ == survivors_of(entities@, entities@.take(i as int), contacts@),
        decreases m - i,
    {
        let e: Entity = entities[i];
        let hit: bool = is_hit_in_pair(entities, contacts, e.id);
        proof {
            assert(entities@.take(i as int + 1).drop_last() =~= entities@.take(i as int));
            assert(entities@.take(i as int + 1).last() == e);
        }
        if !hit {
            keep.push(e);
        }
        i = i + 1;
    }
    proof {
        assert(entities@.take(m as int) =~= entities@);
    }
    keep
}

/// Sum of the outward forces the touching hostiles exert on the player.
#[verifier::rlimit(50)]
fn gravity_forces(ppos: Vec2, entities: &Vec<Entity>, contacts: &Vec<Contact>) -> (f: Vec2)
    requires
        forall|i: int, j: int|
            0 <= i < j < entities@.len() ==> entities@[i].id != entities@[j].id,
        forall|i: int| 0 <= i < entities@.len() ==> (#[trigger] entities@[i]).pos.in_arena(),
        ppos.in_arena(),
        contacts@.len() <= MAX_CONTACTS,
    ensures
        f.x == attraction_x(ppos, entities@, contacts@),
        f.y == attraction_y(ppos, entities@, contacts@),
        f.in_arena(),
{
    let n: usize = contacts.len();
    let mut fx: i64 = 0;
    let mut fy: i64 = 0;
    let mut j: usize = 0;
    while j < n
        invariant
            n == contacts@.len(),
            n <= MAX_CONTACTS,
            j <= n,
            forall|p: int, q: int|
                0 <= p < q < entities@.len() ==> entities@[p].id != entities@[q].id,
            forall|i: int| 0 <= i < entities@.len() ==> (#[trigger] entities@[i]).pos.in_arena(),
            ppos.in_arena(),
            fx == attraction_x(ppos, entities@, contacts@.take(j as int)),
            fy == attraction_y(ppos, entities@, contacts@.take(j as int)),
        decreases n - j,
    {
        let c: Contact = contacts[j];
        proof {
            assert(contacts@.take(j as int + 1).drop_last() =~= contacts@.take(j as int));
            assert(contacts@.take(j as int + 1).last() == c);
        }
        let oid: u64 = if c.a == PLAYER_ID {
            c.b
        } else {
            c.a
        };
        let relevant: bool = c.a == PLAYER_ID || c.b == PLAYER_ID;
        if relevant {
            let found: Option<Entity> = find_entity(entities, oid);
            if let Some(e) = found {
                if matches!(e.kind, Kind::Object) {
                    proof {
                        let w = idx_of(entities@, oid);
                        assert(0 <= w < entities@.len() && entities@[w].id == oid);
                        assert(entities@[w] == e);
                        assert(has_kind(entities@, oid, Kind::Object));
                        assert(player_object_contact(entities@, c));
                    }
                    let dx: i64 = e.pos.x - ppos.x;
                    let dy: i64 = e.pos.y - ppos.y;
                    if !(dx == 0 && dy == 0) {
                        let f: Vec2 = scale_toward(Vec2 { x: dx, y: dy }, FORCE_SCALE);
                        proof {
                            lemma_attraction_bounded(ppos, entities@, contacts@.take(j as int));
                            assert(contacts@.take(j as int).len() == j as int);
                            assert(-FORCE_SCALE * (j as int) <= fx <= FORCE_SCALE * (j as int));
                            assert(-250_000_000 <= fx <= 250_000_000);
                            assert(-250_000_000 <= fy <= 250_000_000);
                            assert(-FORCE_SCALE <= f.x <= FORCE_SCALE);
                            assert(-FORCE_SCALE <= f.y <= FORCE_SCALE);
                            assert(contact_force_x(ppos, entities@, c) == f.x);
                            assert(contact_force_y(ppos, entities@, c) == f.y);
                        }
                        fx = fx + f.x;
                        fy = fy + f.y;
                    }
                } else {
                    proof {
                        lemma_no_object_kind(entities@, oid, e);
                        assert(!player_object_contact(entities@, c));
                    }
                }
            } else {
                proof {
                    assert(!has_id(entities@, oid));
                    assert(!player_object_contact(entities@, c));
                }
            }
        } else {
            proof {
                assert(!player_object_contact(entities@, c));
            }
        }
        j = j + 1;
    }
    proof {
        assert(contacts@.take(n as int) =~= contacts@);
        lemma_attraction_bounded(ppos, entities@, contacts@);
    }
    Vec2 { x: fx, y: fy }
}

pub fn detect_collisions(world: &mut GameWorld, contacts: &Vec<Contact>)
    requires
        old(world).wf(),
        contacts@.len() <= MAX_CONTACTS,
    ensures
        final(world).wf(),
        final(world).turret == old(world).turret,
        final(world).mode == old(world).mode,
        final(world).object_timer == old(world).object_timer,
        final(world).pickup_timer == old(world).pickup_timer,
        final(world).next_id == old(world).next_id,
        old(world).mode == Mode::Pursuit ==> {
            &&& final(world).entities@ == survivors(old(world).entities@, contacts@)
            &&& final(world).player == old(world).player
            &&& (final(world).state == GameState::GameOver <==> old(world).state
                == GameState::GameOver || any_player_object_contact(
                old(world).entities@,
                contacts@,
            ))
        },
        old(world).mode == Mode::GravityWell ==> {
            &&& final(world).entities == old(world).entities
            &&& final(world).state == old(world).state
            &&& final(world).player.pos == old(world).player.pos
            &&& final(world).player.vel == old(world).player.vel
            &&& final(world).player.rot == old(world).player.rot
            &&& final(world).player.force.x == attraction_x(
                old(world).player.pos,
                old(world).entities@,
                contacts@,
            )
            &&& final(world).player.force.y == attraction_y(
                old(world).player.pos,
                old(world).entities@,
                contacts@,
            )
        },
{
    if matches!(world.mode, Mode::Pursuit) {
        let game_over: bool = any_po_contact(&world.entities, contacts);
        if game_over {
            world.state = GameState::GameOver;
        }
        let keep: Vec<Entity> = classify_survivors(&world.entities, contacts);
        proof {
            lemma_removed_members(
                world.entities@,
                |e: Entity| hit_in_pair(world.entities@, contacts@, e.id),
            );
            lemma_removed_unique(
                world.entities@,
                |e: Entity| hit_in_pair(world.entities@, contacts@, e.id),
            );
        }
        world.entities = keep;
    } else {
        let f: Vec2 = gravity_forces(world.player.pos, &world.entities, contacts);
        world.player.force = f;
    }
}

/// With unique identifiers, an entity found under an identifier settles the
/// kind every lookup of that identifier sees.
proof fn lemma_no_object_kind(es: Seq<Entity>, id: u64, e: Entity)
    requires
        forall|i: int, j: int| 0 <= i < j < es.len() ==> es[i].id != es[j].id,
        e == ent_of(es, id),
        has_id(es, id),
        e.kind != Kind::Object,
    ensures
        !has_kind(es, id, Kind::Object),
{
    let w = idx_of(es, id);
    assert(0 <= w < es.len() && es[w].id == id);
    if has_kind(es, id, Kind::Object) {
        let v = choose|v: int| 0 <= v < es.len() && es[v].id == id && es[v].kind == Kind::Object;
        assert(v == w);
    }
}

/// An entity the gravity-well consumption rule removes: a hostile object
/// whose position is within the consumption box of the player's on both
/// axes (a box check, not a distance check).
pub open spec fn consumed_by(ppos: Vec2, e: Entity) -> bool {
    e.kind == Kind::Object && -CONSUME_RANGE <= e.pos.x - ppos.x <= CONSUME_RANGE && -CONSUME_RANGE
        <= e.pos.y - ppos.y <= CONSUME_RANGE
}

/// The entities left after the consumption rule, in order.
pub open spec fn unconsumed(ppos: Vec2, es: Seq<Entity>) -> Seq<Entity> {
    removed(es, |e: Entity| consumed_by(ppos, e))
}

/// Whether the rule consumes anything.
pub open spec fn any_consumed(ppos: Vec2, es: Seq<Entity>) -> bool {
    exists|i: int| 0 <= i < es.len() && consumed_by(ppos, es[i])
}

/// Gravity-well consumption rule, run every frame independently of the
/// contact pairs: every hostile object within the consumption box of the
/// player on both axes is despawned, and if any was, the player is reset
/// to the origin.
pub fn consume_objects(world: &mut GameWorld)
    requires
        old(world).wf(),
    ensures
        final(world).wf(),
        final(world).entities@ == unconsumed(old(world).player.pos, old(world).entities@),
        any_consumed(old(world).player.pos, old(world).entities@) ==> final(world).player.pos
            == Vec2::origin_spec(),
        !any_consumed(old(world).player.pos, old(world).entities@) ==> final(world).player.pos
            == old(world).player.pos,
        final(world).player.vel == old(world).player.vel,
        final(world).player.rot == old(world).player.rot,
        final(world).player.force == old(world).player.force,
        final(world).turret == old(world).turret,
        final(world).mode == old(world).mode,
        final(world).state == old(world).state,
        final(world).object_timer == old(world).object_timer,
        final(world).pickup_timer == old(world).pickup_timer,
        final(world).next_id == old(world).next_id,
{
    let ppos: Vec2 = world.player.pos;
    let m: usize = world.entities.len();
    let mut keep: Vec<Entity> = Vec::new();
    let mut took: bool = false;
    let mut i: usize = 0;
    while i < m
        invariant
            m == world.entities@.len(),
            i <= m,
            *world == *old(world),
            old(world).wf(),
            ppos == world.player.pos,
            keep@ == unconsumed(ppos, world.entities@.take(i as int)),
            took == exists|k: int| 0 <= k < i as int && consumed_by(ppos, world.entities@[k]),
        decreases m - i,
    {
        let e: Entity = world.entities[i];
        proof {
            assert(world.entities@.take(i as int + 1).drop_last() =~= world.entities@.take(
                i as int,
            ));
            assert(world.entities@.take(i as int + 1).last() == e);
        }
        let close_x: bool = -CONSUME_RANGE <= e.pos.x - ppos.x && e.pos.x - ppos.x <= CONSUME_RANGE;
        let close_y: bool = -CONSUME_RANGE <= e.pos.y - ppos.y && e.pos.y - ppos.y <= CONSUME_RANGE;
        if matches!(e.kind, Kind::Object) && close_x && close_y {
            took = true;
            proof {
                assert(consumed_by(ppos, world.entities@[i as int]));
            }
        } else {
            keep.push(e);
        }
        i = i + 1;
    }
    proof {
        assert(world.entities@.take(m as int) =~= world.entities@);
        lemma_removed_members(world.entities@, |e: Entity| consumed_by(ppos, e));
        lemma_removed_unique(world.entities@, |e: Entity| consumed_by(ppos, e));
    }
    world.entities = keep;
    if took {
        world.player.pos = Vec2::origin();
    }
}

} // verus!
