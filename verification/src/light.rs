//! The lighting environment: eight light slots, six shared lookup-table
//! slots and the material last applied.
//!
//! A slot is filled once and never freed. Callers hold a [`LightIndex`], not
//! an address; the lights themselves stay where the environment keeps them.

pub use crate::lut::LutData;
use crate::material::{Color, Material};
use crate::math::{FVec3, FVec4};
use crate::slots::{empty_slots, slot, slot_mut, slots};
use pin_array::PinArray;
use vstd::prelude::*;

verus! {

/// Number of light slots.
pub const NB_LIGHTS: usize = 8;

/// Number of lookup-table slots that the lights share.
pub const NB_LUTS: usize = 6;

/// Handle of one of the light slots.
///
/// Handles come from [`LightEnv::create_light`]; making one by hand is
/// seldom needed.
#[derive(Clone, Copy, PartialEq, Eq, Structural, Hash)]
pub struct LightIndex(u8);

impl LightIndex {
    #[verifier::type_invariant]
    spec fn in_range(self) -> bool {
        self.0 < NB_LIGHTS
    }

    /// The number of the slot.
    pub closed spec fn index(self) -> int {
        self.0 as int
    }

    /// The handle of slot `idx`.
    pub fn new(idx: usize) -> (r: Self)
        requires
            idx < NB_LIGHTS,
        ensures
            r.index() == idx,
    {
        Self(idx as u8)
    }

    /// The number of the slot, which is below [`NB_LIGHTS`].
    pub fn as_usize(self) -> (r: usize)
        ensures
            r == self.index(),
            r < NB_LIGHTS,
    {
        proof {
            use_type_invariant(&self);
        }
        self.0 as usize
    }

    /// Whether the slot that the hardware reports for a new light is the one
    /// that this handle names. The hardware reports a negative number when it
    /// has no slot left.
    pub fn confirms(self, reported: i32) -> (r: bool)
        ensures
            r == (reported == self.index()),
    {
        reported >= 0 && reported == self.0 as i32
    }
}

/// The quantity by which the hardware indexes a lookup table.
#[derive(Clone, Copy, Debug, PartialEq, Eq, Structural)]
pub enum LutInput {
    CosPhi,
    /// Dot product of the light and normal vectors
    LightNormal,
    /// Half the normal
    NormalHalf,
    /// Dot product of the view and normal
    NormalView,
    /// Dot product of the spotlight colour and light vector
    LightSpotLight,
    /// Half the view vector
    ViewHalf,
}

/// The role that a lookup table plays in the lighting equation.
#[derive(Clone, Copy, Debug, PartialEq, Eq, Structural)]
pub enum LightLutId {
    D0,
    D1,
    SpotLightAttenuation,
    Fresnel,
    ReflectBlue,
    ReflectGreen,
    ReflectRed,
    DistanceAttenuation,
}

impl LightLutId {
    /// The shared slot that keeps the table of this role. The two
    /// attenuation roles belong to single lights and have none.
    pub open spec fn shared_slot(self) -> Option<int> {
        match self {
            LightLutId::D0 => Some(0),
            LightLutId::D1 => Some(1),
            LightLutId::SpotLightAttenuation => None,
            LightLutId::Fresnel => Some(2),
            LightLutId::ReflectBlue => Some(3),
            LightLutId::ReflectGreen => Some(4),
            LightLutId::ReflectRed => Some(5),
            LightLutId::DistanceAttenuation => None,
        }
    }

    /// The shared slot that keeps the table of this role, if it has one.
    pub fn slot(self) -> (r: Option<usize>)
        ensures
            match r {
                Some(s) => self.shared_slot() == Some(s as int) && s < NB_LUTS,
                None => self.shared_slot() is None,
            },
    {
        match self {
            LightLutId::D0 => Some(0),
            LightLutId::D1 => Some(1),
            LightLutId::SpotLightAttenuation => None,
            LightLutId::Fresnel => Some(2),
            LightLutId::ReflectBlue => Some(3),
            LightLutId::ReflectGreen => Some(4),
            LightLutId::ReflectRed => Some(5),
            LightLutId::DistanceAttenuation => None,
        }
    }
}

/// What a light holds.
pub struct LightView {
    pub position: FVec4,
    pub color: Color,
    pub enabled: bool,
    pub shadow: bool,
    pub spot: Option<Seq<u32>>,
    pub diffuse_atten: Option<Seq<u32>>,
}

impl LightView {
    /// The state of a light that was just created: every scalar zero, both
    /// switches off, no table attached.
    pub open spec fn blank() -> LightView {
        LightView {
            position: FVec4 { x: 0, y: 0, z: 0, w: 0 },
            color: Color { r: 0, g: 0, b: 0 },
            enabled: false,
            shadow: false,
            spot: None,
            diffuse_atten: None,
        }
    }
}

/// One light of an environment. It is made by [`LightEnv::create_light`] and
/// lives as long as its environment.
pub struct Light {
    position: FVec4,
    color: Color,
    enabled: bool,
    shadow: bool,
    spot: Option<LutData>,
    diffuse_atten: Option<LutData>,
}

/// The view of a table that may be missing.
pub open spec fn lut_view(t: Option<LutData>) -> Option<Seq<u32>> {
    match t {
        Some(d) => Some(d@),
        None => None,
    }
}

/// The view of a borrowed table that may be missing.
pub open spec fn lut_ref_view(t: Option<&LutData>) -> Option<Seq<u32>> {
    match t {
        Some(d) => Some(d@),
        None => None,
    }
}

impl View for Light {
    type V = LightView;

    closed spec fn view(&self) -> LightView {
        LightView {
            position: self.position,
            color: self.color,
            enabled: self.enabled,
            shadow: self.shadow,
            spot: lut_view(self.spot),
            diffuse_atten: lut_view(self.diffuse_atten),
        }
    }
}

impl Light {
    pub(crate) fn new() -> (l: Self)
        ensures
            l@ == LightView::blank(),
    {
        Light {
            position: FVec4 { x: 0, y: 0, z: 0, w: 0 },
            color: Color { r: 0, g: 0, b: 0 },
            enabled: false,
            shadow: false,
            spot: None,
            diffuse_atten: None,
        }
    }

    /// Places the light at the point `p`.
    pub fn set_position(&mut self, p: FVec3)
        ensures
            final(self)@ == (LightView { position: p.homogeneous(), ..old(self)@ }),
    {
        self.position = FVec4::new(p.x, p.y, p.z, crate::math::ONE);
    }

    /// Sets the three colour channels. No channel is clamped.
    pub fn set_color(&mut self, r: u32, g: u32, b: u32)
        ensures
            final(self)@ == (LightView { color: Color { r, g, b }, ..old(self)@ }),
    {
        self.color = Color::new(r, g, b);
    }

    /// Switches the light on or off.
    pub fn set_enabled(&mut self, enabled: bool)
        ensures
            final(self)@ == (LightView { enabled, ..old(self)@ }),
    {
        self.enabled = enabled;
    }

    /// Switches the light's shadow on or off.
    pub fn set_shadow(&mut self, shadow: bool)
        ensures
            final(self)@ == (LightView { shadow, ..old(self)@ }),
    {
        self.shadow = shadow;
    }

    /// Where the light stands, in homogeneous coordinates.
    pub fn position(&self) -> (p: FVec4)
        ensures
            p == self@.position,
    {
        self.position
    }

    /// The colour of the light.
    pub fn color(&self) -> (c: Color)
        ensures
            c == self@.color,
    {
        self.color
    }

    /// Whether the light is switched on.
    pub fn enabled(&self) -> (b: bool)
        ensures
            b == self@.enabled,
    {
        self.enabled
    }

    /// Whether the light's shadow is switched on.
    pub fn shadow(&self) -> (b: bool)
        ensures
            b == self@.shadow,
    {
        self.shadow
    }

    /// The light's own table for the attenuation inside its cone.
    pub fn spot(&self) -> (t: Option<&LutData>)
        ensures
            lut_ref_view(t) == self@.spot,
    {
        self.spot.as_ref()
    }

    /// The light's own table for the attenuation over distance.
    pub fn diffuse_atten(&self) -> (t: Option<&LutData>)
        ensures
            lut_ref_view(t) == self@.diffuse_atten,
    {
        self.diffuse_atten.as_ref()
    }
}

/// The views of the lights in an array of slots.
pub open spec fn light_views(s: Seq<Option<Light>>) -> Seq<Option<LightView>> {
    Seq::new(
        s.len(),
        |i: int|
            match s[i] {
                Some(l) => Some(l@),
                None => None,
            },
    )
}

/// The views of the lights in the eight slots of an environment.
spec fn slot_views(s: Seq<Option<Light>>) -> Seq<Option<LightView>> {
    Seq::new(NB_LIGHTS as nat, |i: int| light_views(s)[i])
}

/// The views of eight slots are the views of all the slots.
proof fn lemma_slot_views(s: Seq<Option<Light>>)
    requires
        s.len() == NB_LIGHTS,
    ensures
        slot_views(s) == light_views(s),
{
    assert(slot_views(s) =~= light_views(s));
}

/// Replacing a slot replaces its view, and no other.
proof fn lemma_views_update(s: Seq<Option<Light>>, i: int, v: Option<Light>)
    requires
        s.len() == NB_LIGHTS,
        0 <= i < NB_LIGHTS,
    ensures
        slot_views(s.update(i, v)) == slot_views(s).update(i, light_views(seq![v])[0]),
        v is None && s[i] is None ==> slot_views(s.update(i, v)) == slot_views(s),
{
    assert(slot_views(s.update(i, v)) =~= slot_views(s).update(i, light_views(seq![v])[0]));
    if v is None && s[i] is None {
        assert(slot_views(s.update(i, v)) =~= slot_views(s));
    }
}

/// What a lighting environment holds.
pub struct LightEnvView {
    /// The light slots, empty or filled.
    pub lights: Seq<Option<LightView>>,
    /// The shared table slots, empty or filled.
    pub luts: Seq<Option<Seq<u32>>>,
    /// The material last applied, if any was.
    pub material: Option<Material>,
}

impl LightEnvView {
    /// An environment has [`NB_LIGHTS`] light slots and [`NB_LUTS`] table
    /// slots.
    pub open spec fn wf(self) -> bool {
        self.lights.len() == NB_LIGHTS && self.luts.len() == NB_LUTS
    }

    /// The environment with every slot empty and no material.
    pub open spec fn empty() -> LightEnvView {
        LightEnvView {
            lights: Seq::new(NB_LIGHTS as nat, |i: int| None::<LightView>),
            luts: Seq::new(NB_LUTS as nat, |i: int| None::<Seq<u32>>),
            material: None,
        }
    }

    /// Whether `i` is the lowest empty light slot.
    pub open spec fn first_free(self, i: int) -> bool {
        &&& 0 <= i < NB_LIGHTS
        &&& self.lights[i] is None
        &&& forall|j: int| 0 <= j < i ==> self.lights[j] is Some
    }

    /// Whether every light slot is filled.
    pub open spec fn full(self) -> bool {
        forall|j: int| 0 <= j < NB_LIGHTS ==> self.lights[j] is Some
    }

    /// This environment with the light `l` in slot `i`.
    pub open spec fn with_light(self, i: int, l: LightView) -> LightEnvView {
        LightEnvView { lights: self.lights.update(i, Some(l)), ..self }
    }

    /// This environment with the table `t` in shared slot `s`.
    pub open spec fn with_lut(self, s: int, t: Seq<u32>) -> LightEnvView {
        LightEnvView { luts: self.luts.update(s, Some(t)), ..self }
    }

    /// What creating a light makes of this environment, and the number of
    /// the slot that the new light takes: the lowest empty one, or none when
    /// all are filled, and then nothing changes.
    pub open spec fn created(self, next: LightEnvView, slot: Option<int>) -> bool {
        match slot {
            Some(i) => self.first_free(i) && next == self.with_light(i, LightView::blank()),
            None => self.full() && next == self,
        }
    }

    /// What connecting the table `t` under the role `id` makes of this
    /// environment: the table takes the role's shared slot, whatever was
    /// there; under a role without a shared slot nothing is kept.
    pub open spec fn connected(self, id: LightLutId, t: Seq<u32>) -> LightEnvView {
        match id.shared_slot() {
            Some(s) => self.with_lut(s, t),
            None => self,
        }
    }
}

/// A lighting environment.
pub struct LightEnv {
    lights: PinArray<Option<Light>, 8>,
    luts: [Option<LutData>; 6],
    material: Option<Material>,
}

impl View for LightEnv {
    type V = LightEnvView;

    closed spec fn view(&self) -> LightEnvView {
        LightEnvView {
            lights: slot_views(slots(self.lights)),
            luts: Seq::new(NB_LUTS as nat, |i: int| lut_view(self.luts@[i])),
            material: self.material,
        }
    }
}

impl Default for LightEnv {
    fn default() -> (env: Self)
        ensures
            env@ == LightEnvView::empty(),
    {
        Self::new()
    }
}

impl LightEnv {
    #[verifier::type_invariant]
    spec fn eight_slots(self) -> bool {
        slots(self.lights).len() == NB_LIGHTS
    }

    /// Every environment has its eight light slots and six table slots.
    pub proof fn lemma_wf(self)
        ensures
            self@.wf(),
    {
    }

    /// An environment with every slot empty and no material.
    pub fn new() -> (env: Self)
        ensures
            env@ == LightEnvView::empty(),
    {
        let env = LightEnv {
            lights: empty_slots(),
            luts: [None, None, None, None, None, None],
            material: None,
        };
        assert(env@.lights =~= LightEnvView::empty().lights);
        assert(env@.luts =~= LightEnvView::empty().luts);
        env
    }

    /// Applies the material `mat`, in place of the one applied before.
    pub fn set_material(&mut self, mat: Material)
        ensures
            final(self)@ == (LightEnvView { material: Some(mat), ..old(self)@ }),
    {
        proof {
            use_type_invariant(&*self);
        }
        self.material = Some(mat);
    }

    /// The light slots.
    pub fn lights(&self) -> (a: &PinArray<Option<Light>, 8>)
        ensures
            light_views(slots(*a)) == self@.lights,
    {
        proof {
            use_type_invariant(self);
            lemma_slot_views(slots(self.lights));
        }
        &self.lights
    }

    /// The light in slot `idx`, to be changed in place, or nothing while the
    /// slot is empty. What is written through the result is what the slot
    /// holds from then on; nothing else in the environment changes.
    pub fn light_mut(&mut self, idx: LightIndex) -> (r: Option<&mut Light>)
        ensures
            match r {
                Some(l) => old(self)@.lights[idx.index()] == Some(l@) && final(self)@ == old(
                    self,
                )@.with_light(idx.index(), final(l)@),
                None => old(self)@.lights[idx.index()] is None && final(self)@ == old(self)@,
            },
    {
        proof {
            use_type_invariant(&*self);
        }
        let i = idx.as_usize();
        let ghost before = slots(self.lights);
        match slot_mut(&mut self.lights, i) {
            Some(Some(l)) => {
                proof {
                    lemma_views_update(before, i as int, Some(*final(l)));
                }
                Some(l)
            },
            _ => {
                proof {
                    lemma_views_update(before, i as int, None);
                }
                None
            },
        }
    }

    /// Creates a light in the lowest empty slot and returns its handle, or
    /// returns nothing when every slot is filled.
    pub fn create_light(&mut self) -> (r: Option<LightIndex>)
        ensures
            old(self)@.created(
                final(self)@,
                match r {
                    Some(idx) => Some(idx.index()),
                    None => None,
                },
            ),
    {
        proof {
            use_type_invariant(&*self);
        }
        let mut i: usize = 0;
        while i < NB_LIGHTS
            invariant
                i <= NB_LIGHTS,
                *self == *old(self),
                slots(self.lights).len() == NB_LIGHTS,
                forall|j: int| 0 <= j < i ==> self@.lights[j] is Some,
            decreases NB_LIGHTS - i,
        {
            let free = match slot(&self.lights, i) {
                Some(s) => s.is_none(),
                None => false,
            };
            if free {
                match slot_mut(&mut self.lights, i) {
                    Some(s) => {
                        *s = Some(Light::new());
                    },
                    None => {},
                }
                assert(final(self)@.lights =~= old(self)@.lights.update(
                    i as int,
                    Some(LightView::blank()),
                ));
                return Some(LightIndex::new(i));
            }
            i += 1;
        }
        None
    }

    /// Connects the table `data` under the role `id`; `input` is the quantity
    /// by which the hardware is to index it, which the caller hands on with
    /// the table and which is not kept here. The table is kept in the role's
    /// shared slot, in place of what was there. The two attenuation roles
    /// have no shared slot: under them nothing is kept, whatever `data` is.
    #[allow(unused_variables)]
    pub fn connect_lut(&mut self, id: LightLutId, input: LutInput, data: LutData)
        ensures
            final(self)@ == old(self)@.connected(id, data@),
    {
        proof {
            use_type_invariant(&*self);
        }
        match id.slot() {
            Some(s) => {
                self.luts[s] = Some(data);
                assert(final(self)@.luts =~= old(self)@.luts.update(s as int, Some(data@)));
            },
            None => {},
        }
    }

    /// The table connected under the role `id`, if one is kept.
    pub fn lut(&self, id: LightLutId) -> (r: Option<&LutData>)
        ensures
            match id.shared_slot() {
                Some(s) => lut_ref_view(r) == self@.luts[s],
                None => r is None,
            },
    {
        match id.slot() {
            Some(s) => self.luts[s].as_ref(),
            None => None,
        }
    }

    /// The material last applied, if any was.
    pub fn material(&self) -> (m: Option<Material>)
        ensures
            m == self@.material,
    {
        self.material
    }
}

impl LightEnvView {
    /// Whether the first `n` light slots are filled and the others empty.
    pub open spec fn filled_up_to(self, n: int) -> bool {
        &&& self.wf()
        &&& forall|j: int| 0 <= j < n && j < NB_LIGHTS ==> self.lights[j] is Some
        &&& forall|j: int| n <= j < NB_LIGHTS ==> self.lights[j] is None
    }

    /// Whether `next` comes from this environment by one operation that does
    /// not write to the light in slot `i`: creating a light, connecting a
    /// table, applying a material, or writing to the light of another slot.
    pub open spec fn passes_by(self, next: LightEnvView, i: int) -> bool {
        ||| exists|slot: Option<int>| self.created(next, slot)
        ||| exists|id: LightLutId, t: Seq<u32>| next == self.connected(id, t)
        ||| exists|m: Option<Material>| next == (LightEnvView { material: m, ..self })
        ||| exists|j: int, l: LightView|
            0 <= j < NB_LIGHTS && j != i && self.lights[j] is Some && next == self.with_light(j, l)
    }
}

/// Creating a light in an environment whose first `n` slots are the filled
/// ones takes slot `n`, or none when `n` is [`NB_LIGHTS`].
pub proof fn lemma_created_next(env: LightEnvView, next: LightEnvView, slot: Option<int>, n: int)
    requires
        0 <= n <= NB_LIGHTS,
        env.filled_up_to(n),
        env.created(next, slot),
    ensures
        n < NB_LIGHTS ==> slot == Some(n) && next.filled_up_to(n + 1),
        n == NB_LIGHTS ==> slot is None && next == env,
{
    match slot {
        Some(i) => {
            if i < n {
                assert(env.lights[i] is Some);
            } else if i > n {
                assert(env.lights[n] is None);
            }
        },
        None => {
            if n < NB_LIGHTS {
                assert(env.lights[n] is None);
            }
        },
    }
}

/// Lights created one after the other in an empty environment take the
/// slots 0, 1, 2 and so on to 7, in this order; every creation after the
/// eighth finds no slot. `envs` holds the environment before each creation
/// and after the last, `taken` the slot that each creation took.
pub proof fn lemma_creation_order(envs: Seq<LightEnvView>, taken: Seq<Option<int>>)
    requires
        envs.len() == taken.len() + 1,
        envs[0] == LightEnvView::empty(),
        forall|k: int| 0 <= k < taken.len() ==> (#[trigger] envs[k]).created(envs[k + 1], taken[k]),
    ensures
        forall|k: int|
            0 <= k < taken.len() ==> #[trigger] taken[k] == if k < NB_LIGHTS {
                Some(k)
            } else {
                None
            },
{
    assert forall|k: int| 0 <= k < taken.len() implies #[trigger] taken[k] == if k < NB_LIGHTS {
        Some(k)
    } else {
        None
    } by {
        lemma_creation_prefix(envs, taken, k);
        let n = if k < NB_LIGHTS {
            k
        } else {
            NB_LIGHTS as int
        };
        lemma_created_next(envs[k], envs[k + 1], taken[k], n);
    }
}

/// After `k` creations in an empty environment the filled slots are the
/// first `k`, or all of them.
proof fn lemma_creation_prefix(envs: Seq<LightEnvView>, taken: Seq<Option<int>>, k: int)
    requires
        envs.len() == taken.len() + 1,
        envs[0] == LightEnvView::empty(),
        forall|j: int| 0 <= j < taken.len() ==> (#[trigger] envs[j]).created(envs[j + 1], taken[j]),
        0 <= k <= taken.len(),
    ensures
        envs[k].filled_up_to(
            if k < NB_LIGHTS {
                k
            } else {
                NB_LIGHTS as int
            },
        ),
    decreases k,
{
    if k > 0 {
        lemma_creation_prefix(envs, taken, k - 1);
        let n = if k - 1 < NB_LIGHTS {
            k - 1
        } else {
            NB_LIGHTS as int
        };
        assert(envs[k - 1].created(envs[k - 1 + 1], taken[k - 1]));
        lemma_created_next(envs[k - 1], envs[k], taken[k - 1], n);
    }
}

/// A light keeps its slot and its state through every operation that does
/// not write to it, and what is written to it is what the slot then holds.
pub proof fn lemma_light_stable(env: LightEnvView, next: LightEnvView, i: int, l: LightView)
    requires
        env.wf(),
        0 <= i < NB_LIGHTS,
        env.lights[i] is Some,
    ensures
        env.passes_by(next, i) ==> next.wf() && next.lights[i] == env.lights[i],
        env.with_light(i, l).wf() && env.with_light(i, l).lights[i] == Some(l),
{
}

} // verus!
