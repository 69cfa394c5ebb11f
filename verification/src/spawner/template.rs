//! Templates of the monsters and items that populate a level, and how an
//! entity is made from one.

use std::collections::HashSet;
use vstd::prelude::*;
use crate::components::{
    cp437, to_cp437, ColorPair, Damage, EntitySpawn, FieldOfView, Health, Name, Provided,
    ProvidesHealing, Render, Rgb,
};
use crate::geometry::Point;
use crate::random::random_slice_entry;
use bracket_lib::prelude::RandomNumberGenerator;

verus! {

broadcast use vstd::std_specs::hash::group_hash_axioms;

#[derive(Clone, Copy, Debug, PartialEq, Eq, Structural)]
pub enum EntityType {
    Enemy,
    Item,
}

/// A kind of monster or item: on which levels it appears and how often,
/// how it is drawn, and what it is made of.
#[derive(Debug)]
pub struct Template {
    pub entity_type: EntityType,
    pub levels: HashSet<usize>,
    pub frequency: i32,
    pub name: String,
    pub glyph: char,
    pub tint: Option<(u8, u8, u8)>,
    pub provides: Option<Vec<(String, i32)>>,
    pub hp: Option<i32>,
    pub fov: Option<i32>,
    pub base_damage: Option<i32>,
}

#[derive(Debug)]
pub struct Templates {
    pub entities: Vec<Template>,
}

/// The foreground color of a template: its tint, or white.
pub open spec fn tint_color(tint: Option<(u8, u8, u8)>) -> Rgb {
    match tint {
        Some(t) => Rgb { r: t.0, g: t.1, b: t.2 },
        None => Rgb::spec_white(),
    }
}

/// The effect that a `(name, amount)` pair of a template provides.
pub open spec fn provided_of(p: (String, i32)) -> Provided {
    if p.0@ == "Healing"@ {
        Provided::Healing(ProvidesHealing { amount: p.1 })
    } else if p.0@ == "MagicMap"@ {
        Provided::DungeonMap
    } else {
        Provided::Unknown(p.0)
    }
}

/// The effects that a template's `provides` list gives, in its order.
pub open spec fn provided_list(provides: Option<Vec<(String, i32)>>) -> Seq<Provided> {
    match provides {
        Some(v) => v@.map_values(|p: (String, i32)| provided_of(p)),
        None => Seq::empty(),
    }
}

/// `s` is the entity that template `t` makes at `pt`: drawn with its glyph in
/// its tint (white without one) on black, named after it; an item, or an enemy
/// that chases the player, sees as far as its `fov` (6 without one) and has its
/// `hp` (1 without one) as current and maximal health; with the effects it
/// provides, and with its base damage, as a weapon when it is an item.
pub open spec fn made_from(pt: Point, t: Template, s: EntitySpawn) -> bool {
    &&& s.pos == pt
    &&& s.render == (Render {
        color: ColorPair { fg: tint_color(t.tint), bg: Rgb::spec_black() },
        glyph: cp437(t.glyph),
    })
    &&& s.name.0@ == t.name@
    &&& s.player is None
    &&& !s.amulet
    &&& s.item == (t.entity_type == EntityType::Item)
    &&& s.enemy == (t.entity_type == EntityType::Enemy)
    &&& s.chasing_player == (t.entity_type == EntityType::Enemy)
    &&& s.field_of_view == if t.entity_type == EntityType::Enemy {
        Some(FieldOfView { radius: t.fov.unwrap_or(6), is_dirty: true })
    } else {
        None
    }
    &&& s.health == if t.entity_type == EntityType::Enemy {
        Some(Health { current: t.hp.unwrap_or(1), max: t.hp.unwrap_or(1) })
    } else {
        None
    }
    &&& s.provides@ == provided_list(t.provides)
    &&& s.damage == match t.base_damage {
        Some(d) => Some(Damage(d)),
        None => None,
    }
    &&& s.weapon == (t.base_damage is Some && t.entity_type == EntityType::Item)
}

/// An entity made from an enemy template has the template's hit points as its
/// current and maximal health (1 when the template gives none), and sees as
/// far as the template's view radius (6 when it gives none); an entity made
/// from an item template has neither health nor a field of view.
pub proof fn lemma_made_from_health(pt: Point, t: Template, s: EntitySpawn)
    requires
        made_from(pt, t, s),
    ensures
        t.entity_type == EntityType::Enemy && t.hp is Some ==> s.health == Some(
            Health { current: t.hp->0, max: t.hp->0 },
        ),
        t.entity_type == EntityType::Enemy && t.hp is None ==> s.health == Some(Health { current: 1, max: 1 }),
        t.entity_type == EntityType::Enemy && t.fov is Some ==> s.field_of_view == Some(
            FieldOfView { radius: t.fov->0, is_dirty: true },
        ),
        t.entity_type == EntityType::Enemy && t.fov is None ==> s.field_of_view == Some(
            FieldOfView { radius: 6, is_dirty: true },
        ),
        t.entity_type == EntityType::Item ==> s.health is None && s.field_of_view is None,
{
}

/// `s` is the entity that some template of `level`'s pool makes at `pt`.
pub open spec fn from_level_template(ts: Seq<Template>, level: usize, pt: Point, s: EntitySpawn) -> bool {
    exists|i: int|
        0 <= i < ts.len() && level_pool(ts, level, ts.len() as int).contains(i as usize)
            && #[trigger] made_from(pt, ts[i], s)
}

/// `spawns` are the entities of `level` at `points`: none when the level's
/// pool is empty, otherwise one per point, in order, each made by a template
/// of the pool at its point.
pub open spec fn level_entities(ts: Seq<Template>, level: usize, points: Seq<Point>, spawns: Seq<EntitySpawn>) -> bool {
    &&& level_pool(ts, level, ts.len() as int).len() == 0 ==> spawns.len() == 0
    &&& level_pool(ts, level, ts.len() as int).len() > 0 ==> spawns.len() == points.len()
    &&& forall|k: int| 0 <= k < spawns.len() ==> #[trigger] from_level_template(ts, level, points[k], spawns[k])
}

/// The number of copies that a template of frequency `f` puts into the pool.
pub open spec fn copies(f: i32) -> nat {
    if f > 0 { f as nat } else { 0 }
}

/// The pool of template indices from which the entities of `level` are drawn:
/// each of the first `n` templates that appears on `level` contributes its
/// index as many times as its frequency, in template order.
pub open spec fn level_pool(ts: Seq<Template>, level: usize, n: int) -> Seq<usize>
    decreases n,
{
    if n <= 0 {
        Seq::empty()
    } else if ts[n - 1].levels@.contains(level) {
        level_pool(ts, level, n - 1) + Seq::new(copies(ts[n - 1].frequency), |_j: int| (n - 1) as usize)
    } else {
        level_pool(ts, level, n - 1)
    }
}

/// Every index in the pool of the first `n` templates belongs to a template
/// below `n` that appears on `level` with a positive frequency.
pub proof fn lemma_level_pool(ts: Seq<Template>, level: usize, n: int)
    requires
        0 <= n <= ts.len() <= usize::MAX,
    ensures
        forall|k: int| 0 <= k < level_pool(ts, level, n).len() ==> {
            let i = #[trigger] level_pool(ts, level, n)[k] as int;
            &&& 0 <= i < n
            &&& ts[i].levels@.contains(level)
            &&& ts[i].frequency > 0
        },
    decreases n,
{
    if n > 0 {
        lemma_level_pool(ts, level, n - 1);
        let prev = level_pool(ts, level, n - 1);
        let cur = level_pool(ts, level, n);
        assert forall|k: int| 0 <= k < cur.len() implies {
            let i = #[trigger] cur[k] as int;
            &&& 0 <= i < n
            &&& ts[i].levels@.contains(level)
            &&& ts[i].frequency > 0
        } by {
            if k < prev.len() {
                assert(cur[k] == prev[k]);
            } else {
                assert(cur[k] == (n - 1) as usize);
            }
        }
    }
}

impl Templates {
    /// The entity that `template` makes at `pt`.
    pub fn spawn_entity(&self, pt: &Point, template: &Template) -> (s: EntitySpawn)
        ensures
            made_from(*pt, *template, s),
            template.entity_type == EntityType::Enemy ==> s.health == Some(match template.hp {
                Some(h) => Health { current: h, max: h },
                None => Health { current: 1, max: 1 },
            }),
            template.entity_type == EntityType::Enemy ==> s.field_of_view == Some(match template.fov {
                Some(r) => FieldOfView { radius: r, is_dirty: true },
                None => FieldOfView { radius: 6, is_dirty: true },
            }),
            template.entity_type == EntityType::Item ==> s.health is None && s.field_of_view is None,
    {
        let fg = match template.tint {
            Some((r, g, b)) => Rgb { r, g, b },
            None => Rgb::white(),
        };
        let is_enemy = match template.entity_type {
            EntityType::Enemy => true,
            EntityType::Item => false,
        };
        let mut provides: Vec<Provided> = Vec::new();
        if let Some(effects) = &template.provides {
            let healing = "Healing".to_string();
            let magic_map = "MagicMap".to_string();
            let n = effects.len();
            let mut i: usize = 0;
            while i < n
                invariant
                    n == effects@.len(),
                    i <= n,
                    healing@ == "Healing"@,
                    magic_map@ == "MagicMap"@,
                    provides@ == effects@.take(i as int).map_values(|p: (String, i32)| provided_of(p)),
                decreases n - i,
            {
                let (name, amount) = &effects[i];
                let effect = if *name == healing {
                    Provided::Healing(ProvidesHealing { amount: *amount })
                } else if *name == magic_map {
                    Provided::DungeonMap
                } else {
                    Provided::Unknown(name.clone())
                };
                provides.push(effect);
                proof {
                    assert(effects@.take(i + 1) =~= effects@.take(i as int).push(effects@[i as int]));
                }
                i = i + 1;
            }
            proof {
                assert(effects@.take(n as int) =~= effects@);
            }
        }
        let damage = match template.base_damage {
            Some(d) => Some(Damage(d)),
            None => None,
        };
        EntitySpawn {
            pos: *pt,
            render: Render { color: ColorPair::new(fg, Rgb::black()), glyph: to_cp437(template.glyph) },
            name: Name(template.name.clone()),
            player: None,
            enemy: is_enemy,
            item: !is_enemy,
            amulet: false,
            chasing_player: is_enemy,
            weapon: !is_enemy && template.base_damage.is_some(),
            field_of_view: if is_enemy {
                Some(FieldOfView::new(template.fov.unwrap_or(6)))
            } else {
                None
            },
            health: if is_enemy {
                Some(Health { current: template.hp.unwrap_or(1), max: template.hp.unwrap_or(1) })
            } else {
                None
            },
            damage,
            provides,
        }
    }

    /// The pool of template indices for `level`: each template that appears on
    /// the level, as many times as its frequency.
    pub fn available_entities(&self, level: usize) -> (pool: Vec<usize>)
        ensures
            pool@ == level_pool(self.entities@, level, self.entities@.len() as int),
    {
        let mut pool: Vec<usize> = Vec::new();
        let n = self.entities.len();
        let mut i: usize = 0;
        while i < n
            invariant
                n == self.entities@.len(),
                i <= n,
                pool@ == level_pool(self.entities@, level, i as int),
            decreases n - i,
        {
            let t = &self.entities[i];
            if t.levels.contains(&level) {
                let ghost before = pool@;
                let mut c: i32 = 0;
                while c < t.frequency
                    invariant
                        0 <= c,
                        c <= t.frequency || c == 0,
                        pool@ == before + Seq::new(c as nat, |_j: int| i),
                    decreases t.frequency - c,
                {
                    pool.push(i);
                    proof {
                        assert(before + Seq::new((c + 1) as nat, |_j: int| i) =~= (before + Seq::new(c as nat, |_j: int| i)).push(i));
                    }
                    c = c + 1;
                }
                assert(Seq::new(c as nat, |_j: int| i) =~= Seq::new(copies(t.frequency), |_j: int| ((i + 1) - 1) as usize));
            }
            i = i + 1;
        }
        pool
    }

    /// The entities of `level` at `spawn_points`: at each point, in order, the
    /// entity of a template drawn from the level's pool; nothing when the pool
    /// is empty.
    pub fn spawn_entities(
        &self,
        rng: &mut RandomNumberGenerator,
        level: usize,
        spawn_points: &[Point],
    ) -> (spawns: Vec<EntitySpawn>)
        requires
            level_pool(self.entities@, level, self.entities@.len() as int).len() < i32::MAX,
        ensures
            level_entities(self.entities@, level, spawn_points@, spawns@),
    {
        let available_entities = self.available_entities(level);
        let template_count = self.entities.len();
        proof {
            lemma_level_pool(self.entities@, level, template_count as int);
        }
        let mut spawns: Vec<EntitySpawn> = Vec::new();
        let n = spawn_points.len();
        let mut k: usize = 0;
        while k < n
            invariant
                n == spawn_points@.len(),
                k <= n,
                available_entities@ == level_pool(self.entities@, level, self.entities@.len() as int),
                available_entities@.len() < i32::MAX,
                forall|q: int| 0 <= q < available_entities@.len() ==>
                    0 <= #[trigger] available_entities@[q] < self.entities@.len(),
                available_entities@.len() == 0 ==> spawns@.len() == 0,
                available_entities@.len() > 0 ==> spawns@.len() == k,
                forall|q: int| 0 <= q < spawns@.len() ==>
                    #[trigger] from_level_template(self.entities@, level, spawn_points@[q], spawns@[q]),
            decreases n - k,
        {
            if let Some(entity) = random_slice_entry(rng, available_entities.as_slice()) {
                let i = *entity;
                proof {
                    let q = choose|q: int| 0 <= q < available_entities@.len() && available_entities@[q] == i;
                }
                let s = self.spawn_entity(&spawn_points[k], &self.entities[i]);
                spawns.push(s);
                proof {
                    assert(made_from(spawn_points@[k as int], self.entities@[i as int], spawns@[k as int]));
                    assert(from_level_template(self.entities@, level, spawn_points@[k as int], spawns@[k as int]));
                }
            }
            k = k + 1;
        }
        spawns
    }
}

} // verus!
