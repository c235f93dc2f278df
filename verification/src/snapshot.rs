//! The scene snapshot builder.
//!
//! Each frame the builder turns the host's entity records into the flat
//! buffers the GPU kernels consume: visible lights with randomized
//! jitter applied, visible occluders with their rotations inverted,
//! every skylight mask, and the accumulated skylight color.  The
//! buffers are rebuilt from scratch every frame; no historical data is
//! retained.
//!
//! Each buffer's mathematical content is a sequence of spec-level
//! records; the executable entries are exactly those records narrowed
//! to `i64`.

use vstd::prelude::*;

use crate::scalar::{lemma_div_bound, lemma_mul_le, Fx2, MICRO, SCALAR_LIMIT};
use crate::scene::{
    Falloff,
    LightEntity,
    MaskEntity,
    OccluderEntity,
    Rgb,
    SkylightLight,
    MAX_ENTITIES,
};

verus! {

/// The three uniform draws consumed by one light: intensity jitter and
/// the two position jitters, each in `[-MICRO, MICRO]`.
#[derive(Clone, Copy, PartialEq, Eq, Structural, Debug)]
pub struct JitterDraw {
    pub di: i64,
    pub dx: i64,
    pub dy: i64,
}

impl JitterDraw {
    /// All draws within one unit of either sign.
    pub open spec fn wf(self) -> bool {
        -MICRO <= self.di <= MICRO && -MICRO <= self.dx <= MICRO && -MICRO <= self.dy <= MICRO
    }
}

/// A uniform draw scaled by a jitter amplitude: the product in
/// micro-units, rounded toward zero.
pub open spec fn jitter_term(draw: int, amp: int) -> int {
    if draw >= 0 {
        draw * amp / (MICRO as int)
    } else {
        -((-draw) * amp / (MICRO as int))
    }
}

/// A zero amplitude yields a zero jitter term, whatever was drawn.
pub proof fn lemma_jitter_term_zero_amp(draw: int)
    ensures
        jitter_term(draw, 0) == 0,
{
    vstd::arithmetic::div_mod::lemma_div_of0(MICRO as int);
}

/// Scales a unit draw by a jitter amplitude.
pub fn apply_jitter(draw: i64, amp: i64) -> (r: i64)
    requires
        -MICRO <= draw <= MICRO,
        0 <= amp <= SCALAR_LIMIT,
    ensures
        r == jitter_term(draw as int, amp as int),
        -amp <= r <= amp,
{
    if draw >= 0 {
        proof {
            lemma_mul_le(draw as int, amp as int, MICRO as int, SCALAR_LIMIT as int);
            lemma_mul_le(draw as int, amp as int, MICRO as int, amp as int);
            lemma_div_bound(draw as int * amp as int, MICRO as int, amp as int);
        }
        let num: u64 = draw as u64 * amp as u64;
        let q: u64 = num / (MICRO as u64);
        q as i64
    } else {
        let neg: i64 = -draw;
        proof {
            lemma_mul_le(neg as int, amp as int, MICRO as int, SCALAR_LIMIT as int);
            lemma_mul_le(neg as int, amp as int, MICRO as int, amp as int);
            lemma_div_bound(neg as int * amp as int, MICRO as int, amp as int);
        }
        let num: u64 = neg as u64 * amp as u64;
        let q: u64 = num / (MICRO as u64);
        -(q as i64)
    }
}

/// The mathematical content of one light buffer entry.
pub ghost struct LightEntryV {
    pub px: int,
    pub py: int,
    pub cr: int,
    pub cg: int,
    pub cb: int,
    pub intensity: int,
    pub fc: int,
    pub fl: int,
    pub fq: int,
}

/// One light buffer entry: jittered position and intensity, color and
/// falloff passed through.
#[derive(Clone, Copy, PartialEq, Eq, Structural, Debug)]
pub struct LightEntry {
    pub position: Fx2,
    pub color: Rgb,
    pub intensity: i64,
    pub falloff: Falloff,
}

impl View for LightEntry {
    type V = LightEntryV;

    open spec fn view(&self) -> LightEntryV {
        LightEntryV {
            px: self.position.x as int,
            py: self.position.y as int,
            cr: self.color.r as int,
            cg: self.color.g as int,
            cb: self.color.b as int,
            intensity: self.intensity as int,
            fc: self.falloff.constant as int,
            fl: self.falloff.linear as int,
            fq: self.falloff.quadratic as int,
        }
    }
}

/// The entry a visible light contributes, given its three draws: the
/// position and intensity carry their jitter terms, everything else is
/// copied.
pub open spec fn light_entry_of(e: LightEntity, d: JitterDraw) -> LightEntryV {
    LightEntryV {
        px: e.position.x + jitter_term(d.dx as int, e.light.jitter_translation as int),
        py: e.position.y + jitter_term(d.dy as int, e.light.jitter_translation as int),
        cr: e.light.color.r as int,
        cg: e.light.color.g as int,
        cb: e.light.color.b as int,
        intensity: e.light.intensity + jitter_term(d.di as int, e.light.jitter_intensity as int),
        fc: e.light.falloff.constant as int,
        fl: e.light.falloff.linear as int,
        fq: e.light.falloff.quadratic as int,
    }
}

/// The light buffer content: the visible entities in order, each turned
/// into its jittered entry by its own draw triple.
pub open spec fn snapshot_lights_spec(es: Seq<LightEntity>, ds: Seq<JitterDraw>) -> Seq<
    LightEntryV,
>
    decreases es.len(),
{
    if es.len() == 0 {
        Seq::empty()
    } else {
        snapshot_lights_spec(es.drop_last(), ds.drop_last()) + (
        if es.last().visible() {
            seq![light_entry_of(es.last(), ds.last())]
        } else {
            Seq::empty()
        })
    }
}

/// How many entities are visible.
pub open spec fn visible_light_count(es: Seq<LightEntity>) -> int
    decreases es.len(),
{
    if es.len() == 0 {
        0
    } else {
        visible_light_count(es.drop_last()) + if es.last().visible() {
            1int
        } else {
            0int
        }
    }
}

/// The light buffer holds one entry per visible entity.
pub proof fn lemma_snapshot_lights_len(es: Seq<LightEntity>, ds: Seq<JitterDraw>)
    ensures
        snapshot_lights_spec(es, ds).len() == visible_light_count(es),
        0 <= visible_light_count(es) <= es.len(),
    decreases es.len(),
{
    if es.len() > 0 {
        lemma_snapshot_lights_len(es.drop_last(), ds.drop_last());
    }
}

/// The views of a pushed vector are the pushed views.
pub proof fn lemma_views_push(s: Seq<LightEntry>, e: LightEntry)
    ensures
        s.push(e).map_values(|x: LightEntry| x@) == s.map_values(|x: LightEntry| x@).push(e@),
{
    assert(s.push(e).map_values(|x: LightEntry| x@) =~= s.map_values(|x: LightEntry| x@).push(
        e@,
    ));
}

/// The GPU-facing light buffer: an explicit count and the packed
/// entries.
#[derive(Clone, PartialEq, Eq, Debug)]
pub struct LightBuffer {
    pub count: u32,
    pub data: Vec<LightEntry>,
}

/// Builds the light buffer from the scene's lights and a given sequence
/// of jitter draws, one triple per entity (triples of invisible
/// entities are ignored).  The result is exactly the visible entities
/// in order, jittered by their draws.
pub fn build_light_buffer_with(entities: &Vec<LightEntity>, draws: &Vec<JitterDraw>) -> (out:
    LightBuffer)
    requires
        entities@.len() == draws@.len(),
        entities@.len() <= MAX_ENTITIES,
        forall|i: int| 0 <= i < entities@.len() ==> (#[trigger] entities@[i]).wf(),
        forall|i: int| 0 <= i < draws@.len() ==> (#[trigger] draws@[i]).wf(),
    ensures
        out.data@.map_values(|x: LightEntry| x@) == snapshot_lights_spec(entities@, draws@),
        out.count == out.data@.len(),
        out.count == visible_light_count(entities@),
{
    let n: usize = entities.len();
    let mut data: Vec<LightEntry> = Vec::new();
    let mut i: usize = 0;
    while i < n
        invariant
            i <= n,
            n == entities@.len(),
            entities@.len() == draws@.len(),
            entities@.len() <= MAX_ENTITIES,
            forall|k: int| 0 <= k < entities@.len() ==> (#[trigger] entities@[k]).wf(),
            forall|k: int| 0 <= k < draws@.len() ==> (#[trigger] draws@[k]).wf(),
            data@.map_values(|x: LightEntry| x@) == snapshot_lights_spec(
                entities@.take(i as int),
                draws@.take(i as int),
            ),
            data@.len() <= i,
        decreases n - i,
    {
        let ghost pre = data@;
        let e = entities[i];
        let d = draws[i];
        if e.hierarchy_visible && e.view_visible {
            let jt = e.light.jitter_translation;
            let entry = LightEntry {
                position: Fx2 {
                    x: e.position.x + apply_jitter(d.dx, jt),
                    y: e.position.y + apply_jitter(d.dy, jt),
                },
                color: e.light.color,
                intensity: e.light.intensity + apply_jitter(d.di, e.light.jitter_intensity),
                falloff: e.light.falloff,
            };
            data.push(entry);
            proof {
                lemma_views_push(pre, entry);
                assert(entry@ == light_entry_of(entities@[i as int], draws@[i as int]));
            }
        }
        proof {
            assert(entities@.take(i + 1).drop_last() =~= entities@.take(i as int));
            assert(draws@.take(i + 1).drop_last() =~= draws@.take(i as int));
            assert(entities@.take(i + 1).last() == entities@[i as int]);
            assert(data@.map_values(|x: LightEntry| x@) =~= snapshot_lights_spec(
                entities@.take(i + 1),
                draws@.take(i + 1),
            ));
        }
        i = i + 1;
    }
    proof {
        assert(entities@.take(n as int) =~= entities@);
        assert(draws@.take(n as int) =~= draws@);
        lemma_snapshot_lights_len(entities@, draws@);
    }
    let count: u32 = data.len() as u32;
    LightBuffer { count, data }
}

/// Builds the light buffer from the scene's lights, drawing fresh
/// uniform jitter for every entity.  Whatever is drawn, the result is
/// the visible entities in order, each jittered by draws within one
/// unit of either sign.
pub fn build_light_buffer(entities: &Vec<LightEntity>) -> (out: LightBuffer)
    requires
        entities@.len() <= MAX_ENTITIES,
        forall|i: int| 0 <= i < entities@.len() ==> (#[trigger] entities@[i]).wf(),
    ensures
        exists|ds: Seq<JitterDraw>|
            {
                &&& ds.len() == entities@.len()
                &&& forall|i: int| 0 <= i < ds.len() ==> (#[trigger] ds[i]).wf()
                &&& out.data@.map_values(|x: LightEntry| x@) == snapshot_lights_spec(
                    entities@,
                    ds,
                )
            },
        out.count == out.data@.len(),
        out.count == visible_light_count(entities@),
{
    let n: usize = entities.len();
    let mut draws: Vec<JitterDraw> = Vec::new();
    let mut i: usize = 0;
    while i < n
        invariant
            i <= n,
            draws@.len() == i,
            forall|k: int| 0 <= k < draws@.len() ==> (#[trigger] draws@[k]).wf(),
        decreases n - i,
    {
        let d = JitterDraw {
            di: crate::random::draw_jitter_unit(),
            dx: crate::random::draw_jitter_unit(),
            dy: crate::random::draw_jitter_unit(),
        };
        draws.push(d);
        i = i + 1;
    }
    let out = build_light_buffer_with(entities, &draws);
    proof {
        let ds = draws@;
        assert(ds.len() == entities@.len() && (forall|k: int|
            0 <= k < ds.len() ==> (#[trigger] ds[k]).wf()) && out.data@.map_values(
            |x: LightEntry| x@,
        ) == snapshot_lights_spec(entities@, ds));
    }
    out
}

/// With all jitter amplitudes zero the snapshot does not depend on the
/// draws at all: two runs over the same scene produce identical
/// buffers.
pub proof fn lemma_zero_jitter_deterministic(
    es: Seq<LightEntity>,
    ds1: Seq<JitterDraw>,
    ds2: Seq<JitterDraw>,
)
    requires
        forall|i: int|
            0 <= i < es.len() ==> (#[trigger] es[i]).light.jitter_intensity == 0
                && es[i].light.jitter_translation == 0,
    ensures
        snapshot_lights_spec(es, ds1) == snapshot_lights_spec(es, ds2),
    decreases es.len(),
{
    if es.len() > 0 {
        assert(forall|i: int|
            0 <= i < es.drop_last().len() ==> (#[trigger] es.drop_last()[i])
                == es[i]);
        lemma_zero_jitter_deterministic(es.drop_last(), ds1.drop_last(), ds2.drop_last());
        if es.last().visible() {
            lemma_jitter_term_zero_amp(ds1.last().di as int);
            lemma_jitter_term_zero_amp(ds1.last().dx as int);
            lemma_jitter_term_zero_amp(ds1.last().dy as int);
            lemma_jitter_term_zero_amp(ds2.last().di as int);
            lemma_jitter_term_zero_amp(ds2.last().dx as int);
            lemma_jitter_term_zero_amp(ds2.last().dy as int);
            assert(light_entry_of(es.last(), ds1.last()) == light_entry_of(
                es.last(),
                ds2.last(),
            ));
        }
    }
}

/// The mathematical content of one occluder buffer entry.
pub ghost struct OccluderEntryV {
    pub cx: int,
    pub cy: int,
    pub rx: int,
    pub ry: int,
    pub rz: int,
    pub rw: int,
    pub hx: int,
    pub hy: int,
}

/// One occluder buffer entry: world center, the inverse of the
/// entity's unit rotation (its conjugate), and the half extents.
#[derive(Clone, Copy, PartialEq, Eq, Structural, Debug)]
pub struct OccluderEntry {
    pub center: Fx2,
    pub rotation: crate::scene::Quat4,
    pub h_extent: Fx2,
}

impl View for OccluderEntry {
    type V = OccluderEntryV;

    open spec fn view(&self) -> OccluderEntryV {
        OccluderEntryV {
            cx: self.center.x as int,
            cy: self.center.y as int,
            rx: self.rotation.x as int,
            ry: self.rotation.y as int,
            rz: self.rotation.z as int,
            rw: self.rotation.w as int,
            hx: self.h_extent.x as int,
            hy: self.h_extent.y as int,
        }
    }
}

/// The entry a visible occluder contributes: its center, the conjugate
/// of its rotation, and its half extents.
pub open spec fn occluder_entry_of(e: OccluderEntity) -> OccluderEntryV {
    OccluderEntryV {
        cx: e.center.x as int,
        cy: e.center.y as int,
        rx: -(e.rotation.x as int),
        ry: -(e.rotation.y as int),
        rz: -(e.rotation.z as int),
        rw: e.rotation.w as int,
        hx: e.half_extent.x as int,
        hy: e.half_extent.y as int,
    }
}

/// The occluder buffer content: the visible occluders in order.
pub open spec fn snapshot_occluders_spec(es: Seq<OccluderEntity>) -> Seq<OccluderEntryV>
    decreases es.len(),
{
    if es.len() == 0 {
        Seq::empty()
    } else {
        snapshot_occluders_spec(es.drop_last()) + (
        if es.last().visible() {
            seq![occluder_entry_of(es.last())]
        } else {
            Seq::empty()
        })
    }
}

/// How many occluders are visible.
pub open spec fn visible_occluder_count(es: Seq<OccluderEntity>) -> int
    decreases es.len(),
{
    if es.len() == 0 {
        0
    } else {
        visible_occluder_count(es.drop_last()) + if es.last().visible() {
            1int
        } else {
            0int
        }
    }
}

/// The occluder buffer holds one entry per visible occluder.
pub proof fn lemma_snapshot_occluders_len(es: Seq<OccluderEntity>)
    ensures
        snapshot_occluders_spec(es).len() == visible_occluder_count(es),
        0 <= visible_occluder_count(es) <= es.len(),
    decreases es.len(),
{
    if es.len() > 0 {
        lemma_snapshot_occluders_len(es.drop_last());
    }
}

/// The GPU-facing occluder buffer.
#[derive(Clone, PartialEq, Eq, Debug)]
pub struct OccluderBuffer {
    pub count: u32,
    pub data: Vec<OccluderEntry>,
}

/// Builds the occluder buffer: exactly the visible occluders in order,
/// centers and extents copied, rotations conjugated.
pub fn build_occluder_buffer(entities: &Vec<OccluderEntity>) -> (out: OccluderBuffer)
    requires
        entities@.len() <= MAX_ENTITIES,
        forall|i: int| 0 <= i < entities@.len() ==> (#[trigger] entities@[i]).wf(),
    ensures
        out.data@.map_values(|x: OccluderEntry| x@) == snapshot_occluders_spec(entities@),
        out.count == out.data@.len(),
        out.count == visible_occluder_count(entities@),
{
    let n: usize = entities.len();
    let mut data: Vec<OccluderEntry> = Vec::new();
    let mut i: usize = 0;
    while i < n
        invariant
            i <= n,
            n == entities@.len(),
            entities@.len() <= MAX_ENTITIES,
            forall|k: int| 0 <= k < entities@.len() ==> (#[trigger] entities@[k]).wf(),
            data@.map_values(|x: OccluderEntry| x@) == snapshot_occluders_spec(
                entities@.take(i as int),
            ),
            data@.len() <= i,
        decreases n - i,
    {
        let ghost pre = data@;
        let e = entities[i];
        if e.hierarchy_visible && e.view_visible {
            let entry = OccluderEntry {
                center: e.center,
                rotation: crate::scene::Quat4 {
                    x: -e.rotation.x,
                    y: -e.rotation.y,
                    z: -e.rotation.z,
                    w: e.rotation.w,
                },
                h_extent: e.half_extent,
            };
            data.push(entry);
            proof {
                assert(pre.push(entry).map_values(|x: OccluderEntry| x@) =~= pre.map_values(
                    |x: OccluderEntry| x@,
                ).push(entry@));
                assert(entry@ == occluder_entry_of(entities@[i as int]));
            }
        }
        proof {
            assert(entities@.take(i + 1).drop_last() =~= entities@.take(i as int));
            assert(entities@.take(i + 1).last() == entities@[i as int]);
            assert(data@.map_values(|x: OccluderEntry| x@) =~= snapshot_occluders_spec(
                entities@.take(i + 1),
            ));
        }
        i = i + 1;
    }
    proof {
        assert(entities@.take(n as int) =~= entities@);
        lemma_snapshot_occluders_len(entities@);
    }
    let count: u32 = data.len() as u32;
    OccluderBuffer { count, data }
}

/// An occluder with both visibility flags clear contributes neither an
/// entry nor a unit of the count.
pub proof fn lemma_invisible_occluder_excluded(es: Seq<OccluderEntity>, i: int)
    requires
        0 <= i < es.len(),
        !es[i].visible(),
    ensures
        snapshot_occluders_spec(es) == snapshot_occluders_spec(es.remove(i)),
        visible_occluder_count(es.remove(i)) == visible_occluder_count(es),
    decreases es.len(),
{
    lemma_snapshot_occluders_len(es);
    lemma_snapshot_occluders_len(es.remove(i));
    if i == es.len() - 1 {
        assert(es.remove(i) =~= es.drop_last());
    } else {
        assert(es.remove(i).drop_last() =~= es.drop_last().remove(i));
        assert(es.remove(i).last() == es.last());
        lemma_invisible_occluder_excluded(es.drop_last(), i);
    }
}

/// The mathematical content of one skylight mask entry.
pub ghost struct MaskEntryV {
    pub cx: int,
    pub cy: int,
    pub hx: int,
    pub hy: int,
}

/// One skylight mask buffer entry: center and half extents.
#[derive(Clone, Copy, PartialEq, Eq, Structural, Debug)]
pub struct MaskEntry {
    pub center: Fx2,
    pub h_extent: Fx2,
}

impl View for MaskEntry {
    type V = MaskEntryV;

    open spec fn view(&self) -> MaskEntryV {
        MaskEntryV {
            cx: self.center.x as int,
            cy: self.center.y as int,
            hx: self.h_extent.x as int,
            hy: self.h_extent.y as int,
        }
    }
}

/// The entry a mask contributes; masks carry no visibility flags and
/// all are taken.
pub open spec fn mask_entry_of(e: MaskEntity) -> MaskEntryV {
    MaskEntryV {
        cx: e.center.x as int,
        cy: e.center.y as int,
        hx: e.half_extent.x as int,
        hy: e.half_extent.y as int,
    }
}

/// The GPU-facing skylight mask buffer.
#[derive(Clone, PartialEq, Eq, Debug)]
pub struct MaskBuffer {
    pub count: u32,
    pub data: Vec<MaskEntry>,
}

/// Builds the skylight mask buffer: every mask in order, unfiltered.
pub fn build_mask_buffer(entities: &Vec<MaskEntity>) -> (out: MaskBuffer)
    requires
        entities@.len() <= MAX_ENTITIES,
    ensures
        out.data@.map_values(|x: MaskEntry| x@) == entities@.map_values(
            |e: MaskEntity| mask_entry_of(e),
        ),
        out.count == out.data@.len(),
        out.count == entities@.len(),
{
    let n: usize = entities.len();
    let mut data: Vec<MaskEntry> = Vec::new();
    let mut i: usize = 0;
    while i < n
        invariant
            i <= n,
            n == entities@.len(),
            data@.len() == i,
            forall|k: int| 0 <= k < i ==> (#[trigger] data@[k])@ == mask_entry_of(entities@[k]),
        decreases n - i,
    {
        let e = entities[i];
        data.push(MaskEntry { center: e.center, h_extent: e.half_extent });
        i = i + 1;
    }
    proof {
        assert(data@.map_values(|x: MaskEntry| x@) =~= entities@.map_values(
            |e: MaskEntity| mask_entry_of(e),
        ));
    }
    let count: u32 = data.len() as u32;
    MaskBuffer { count, data }
}

/// One channel's contribution of one skylight emitter: color times
/// intensity, rescaled to micro-units.
pub open spec fn sky_term(c: int, intensity: int) -> int {
    c * intensity / (MICRO as int)
}

/// The accumulated skylight color over all emitters, channel-wise.
pub open spec fn skylight_sum(es: Seq<SkylightLight>) -> (int, int, int)
    decreases es.len(),
{
    if es.len() == 0 {
        (0, 0, 0)
    } else {
        let rest = skylight_sum(es.drop_last());
        let e = es.last();
        (
            rest.0 + sky_term(e.color.r as int, e.intensity as int),
            rest.1 + sky_term(e.color.g as int, e.intensity as int),
            rest.2 + sky_term(e.color.b as int, e.intensity as int),
        )
    }
}

/// Accumulates the skylight color over all emitters.
pub fn accumulate_skylight(emitters: &Vec<SkylightLight>) -> (c: Rgb)
    requires
        emitters@.len() <= MAX_ENTITIES,
        forall|i: int| 0 <= i < emitters@.len() ==> (#[trigger] emitters@[i]).wf(),
    ensures
        c.r == skylight_sum(emitters@).0,
        c.g == skylight_sum(emitters@).1,
        c.b == skylight_sum(emitters@).2,
{
    let n: usize = emitters.len();
    let mut r: i64 = 0;
    let mut g: i64 = 0;
    let mut b: i64 = 0;
    let mut i: usize = 0;
    while i < n
        invariant
            i <= n,
            n == emitters@.len(),
            emitters@.len() <= MAX_ENTITIES,
            forall|k: int| 0 <= k < emitters@.len() ==> (#[trigger] emitters@[k]).wf(),
            r == skylight_sum(emitters@.take(i as int)).0,
            g == skylight_sum(emitters@.take(i as int)).1,
            b == skylight_sum(emitters@.take(i as int)).2,
            0 <= r <= i * SCALAR_LIMIT,
            0 <= g <= i * SCALAR_LIMIT,
            0 <= b <= i * SCALAR_LIMIT,
        decreases n - i,
    {
        let e = emitters[i];
        proof {
            lemma_mul_le(e.color.r as int, e.intensity as int, MICRO as int, SCALAR_LIMIT as int);
            lemma_mul_le(e.color.g as int, e.intensity as int, MICRO as int, SCALAR_LIMIT as int);
            lemma_mul_le(e.color.b as int, e.intensity as int, MICRO as int, SCALAR_LIMIT as int);
            lemma_div_bound(
                e.color.r as int * e.intensity as int,
                MICRO as int,
                SCALAR_LIMIT as int,
            );
            lemma_div_bound(
                e.color.g as int * e.intensity as int,
                MICRO as int,
                SCALAR_LIMIT as int,
            );
            lemma_div_bound(
                e.color.b as int * e.intensity as int,
                MICRO as int,
                SCALAR_LIMIT as int,
            );
        }
        let tr: u64 = (e.color.r as u64 * e.intensity as u64) / (MICRO as u64);
        let tg: u64 = (e.color.g as u64 * e.intensity as u64) / (MICRO as u64);
        let tb: u64 = (e.color.b as u64 * e.intensity as u64) / (MICRO as u64);
        r = r + tr as i64;
        g = g + tg as i64;
        b = b + tb as i64;
        proof {
            assert(emitters@.take(i + 1).drop_last() =~= emitters@.take(i as int));
            assert(emitters@.take(i + 1).last() == emitters@[i as int]);
        }
        i = i + 1;
    }
    proof {
        assert(emitters@.take(n as int) =~= emitters@);
    }
    Rgb { r, g, b }
}

/// An entity with both visibility flags clear contributes neither an
/// entry nor a unit of the count: the buffer of the scene with it is
/// the buffer of the scene without it.
pub proof fn lemma_invisible_light_excluded(
    es: Seq<LightEntity>,
    ds: Seq<JitterDraw>,
    i: int,
)
    requires
        es.len() == ds.len(),
        0 <= i < es.len(),
        !es[i].visible(),
    ensures
        snapshot_lights_spec(es, ds) == snapshot_lights_spec(es.remove(i), ds.remove(i)),
        visible_light_count(es.remove(i)) == visible_light_count(es),
    decreases es.len(),
{
    lemma_snapshot_lights_len(es, ds);
    lemma_snapshot_lights_len(es.remove(i), ds.remove(i));
    if i == es.len() - 1 {
        assert(es.remove(i) =~= es.drop_last());
        assert(ds.remove(i) =~= ds.drop_last());
    } else {
        assert(es.remove(i).drop_last() =~= es.drop_last().remove(i));
        assert(ds.remove(i).drop_last() =~= ds.drop_last().remove(i));
        assert(es.remove(i).last() == es.last());
        assert(ds.remove(i).last() == ds.last());
        lemma_invisible_light_excluded(es.drop_last(), ds.drop_last(), i);
    }
}

} // verus!
