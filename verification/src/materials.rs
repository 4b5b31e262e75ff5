//! The materials registry and its cache of repeating-texture variants: at most
//! one material per pair of texture and repeat factors, never evicted.

use vstd::prelude::*;
use crate::repeat::Repeats;

verus! {

/// Identity of a loaded texture asset.
#[derive(Clone, Copy, Debug, Hash, PartialEq, Eq, Structural)]
pub struct TextureId(pub u64);

/// Material of the glowing interior, drawn by `shaders/glowy.wgsl`.
#[derive(Clone, Copy, Debug, PartialEq, Eq, Structural)]
pub struct GlowyMaterial {
    pub env_texture: TextureId,
}

/// Material of the sky dome, drawn by `shaders/skydome.wgsl` with front faces
/// culled.
#[derive(Clone, Copy, Debug, PartialEq, Eq, Structural)]
pub struct SkydomeMaterial {
    pub env_texture: TextureId,
}

/// Material that tiles one texture, drawn by `shaders/repeated.wgsl`.
#[derive(Clone, Copy, Debug, Hash, PartialEq, Eq, Structural)]
pub struct RepeatedMaterial {
    pub texture: TextureId,
    pub repeats: Repeats,
}

/// A side of a triangle, as seen by face culling.
#[derive(Clone, Copy, Debug, PartialEq, Eq, Structural)]
pub enum Face {
    Front,
    Back,
}

impl GlowyMaterial {
    /// Path of the fragment shader, relative to the asset directory.
    pub fn fragment_shader() -> (path: &'static str)
        ensures
            path@ == "shaders/glowy.wgsl"@,
    {
        "shaders/glowy.wgsl"
    }
}

impl SkydomeMaterial {
    /// Path of the fragment shader, relative to the asset directory.
    pub fn fragment_shader() -> (path: &'static str)
        ensures
            path@ == "shaders/skydome.wgsl"@,
    {
        "shaders/skydome.wgsl"
    }

    /// Adapts the render pipeline to the dome, which is seen from inside:
    /// front faces are culled, whatever was culled before.
    pub fn specialize(cull_mode: &mut Option<Face>)
        ensures
            *final(cull_mode) == Some(Face::Front),
    {
        *cull_mode = Some(Face::Front);
    }
}

impl RepeatedMaterial {
    /// Path of the fragment shader, relative to the asset directory.
    pub fn fragment_shader() -> (path: &'static str)
        ensures
            path@ == "shaders/repeated.wgsl"@,
    {
        "shaders/repeated.wgsl"
    }
}

/// Names one material of the variant cache: its place in order of creation.
#[derive(Clone, Copy, Debug, Hash, PartialEq, Eq, Structural)]
pub struct MaterialHandle(pub usize);

/// No material occurs twice in `created`.
pub open spec fn distinct(created: Seq<RepeatedMaterial>) -> bool {
    forall|i: int, j: int| 0 <= i < j < created.len() ==> created[i] != created[j]
}

/// The place of `wanted` among the materials created so far, if it is there.
pub open spec fn position(created: Seq<RepeatedMaterial>, wanted: RepeatedMaterial) -> Option<int> {
    if created.contains(wanted) {
        Some(created.index_of(wanted))
    } else {
        None
    }
}

/// The materials after `wanted` was asked for: unchanged where it exists, else
/// with `wanted` appended.
pub open spec fn with_variant(created: Seq<RepeatedMaterial>, wanted: RepeatedMaterial) -> Seq<RepeatedMaterial> {
    if created.contains(wanted) {
        created
    } else {
        created.push(wanted)
    }
}

/// The place at which `wanted` stands once it was asked for.
pub open spec fn variant_place(created: Seq<RepeatedMaterial>, wanted: RepeatedMaterial) -> int {
    if created.contains(wanted) {
        created.index_of(wanted)
    } else {
        created.len() as int
    }
}

/// The deduplicating store of repeating materials, keyed by what a material
/// holds: its texture and its repeat pair.
#[derive(Clone, Debug)]
pub struct VariantCache {
    created: Vec<RepeatedMaterial>,
}

impl View for VariantCache {
    type V = Seq<RepeatedMaterial>;

    /// The materials created so far, oldest first.
    closed spec fn view(&self) -> Seq<RepeatedMaterial> {
        self.created@
    }
}

impl VariantCache {
    /// The cache holds each material once.
    pub open spec fn wf(&self) -> bool {
        distinct(self@)
    }

    /// An empty cache.
    pub fn new() -> (cache: VariantCache)
        ensures
            cache.wf(),
            cache@ == Seq::<RepeatedMaterial>::empty(),
    {
        VariantCache { created: Vec::new() }
    }

    /// Number of materials created so far.
    pub fn len(&self) -> (n: usize)
        ensures
            n == self@.len(),
    {
        self.created.len()
    }

    /// The handle of the material for this texture and repeat pair, if it was
    /// created before.
    pub fn get(&self, texture: TextureId, repeats: Repeats) -> (found: Option<MaterialHandle>)
        requires
            self.wf(),
        ensures
            match found {
                Some(handle) => position(self@, (RepeatedMaterial { texture, repeats })) == Some(
                    handle.0 as int,
                ),
                None => position(self@, (RepeatedMaterial { texture, repeats })) is None,
            },
            found matches Some(handle) ==> handle.0 < self@.len() && self@[handle.0 as int] == (
            RepeatedMaterial { texture, repeats }),
    {
        let wanted = RepeatedMaterial { texture, repeats };
        let mut i: usize = 0;
        while i < self.created.len()
            invariant
                i <= self.created@.len(),
                self.wf(),
                wanted == (RepeatedMaterial { texture, repeats }),
                forall|k: int| 0 <= k < i ==> self.created@[k] != wanted,
            decreases self.created@.len() - i,
        {
            if self.created[i] == wanted {
                proof {
                    lemma_position(self@, wanted, i as int);
                }
                return Some(MaterialHandle(i));
            }
            i = i + 1;
        }
        None
    }

    /// The material that a handle names.
    pub fn material(&self, handle: MaterialHandle) -> (found: Option<RepeatedMaterial>)
        ensures
            found == (if handle.0 < self@.len() {
                Some(self@[handle.0 as int])
            } else {
                None
            }),
    {
        if handle.0 < self.created.len() {
            Some(self.created[handle.0])
        } else {
            None
        }
    }

    /// Returns the material for this texture and repeat pair, creating it
    /// where the cache does not hold it yet. Existing materials keep their
    /// handles.
    pub fn get_or_create(&mut self, texture: TextureId, repeats: Repeats) -> (handle: MaterialHandle)
        requires
            old(self).wf(),
        ensures
            final(self).wf(),
            final(self)@ == with_variant(old(self)@, (RepeatedMaterial { texture, repeats })),
            handle.0 as int == variant_place(old(self)@, (RepeatedMaterial { texture, repeats })),
            handle.0 < final(self)@.len(),
            final(self)@[handle.0 as int] == (RepeatedMaterial { texture, repeats }),
    {
        let wanted = RepeatedMaterial { texture, repeats };
        match self.get(texture, repeats) {
            Some(handle) => handle,
            None => {
                let place: usize = self.created.len();
                self.created.push(wanted);
                MaterialHandle(place)
            },
        }
    }
}

/// In a sequence without repetition, a material found at `at` has `at` as
/// its place.
pub proof fn lemma_position(created: Seq<RepeatedMaterial>, wanted: RepeatedMaterial, at: int)
    requires
        distinct(created),
        0 <= at < created.len(),
        created[at] == wanted,
    ensures
        created.contains(wanted),
        position(created, wanted) == Some(at),
        variant_place(created, wanted) == at,
{
}

/// The registry of materials: the glow and sky-dome materials made at setup,
/// and the cache of repeating variants.
#[derive(Clone, Debug)]
pub struct Materials {
    pub glowy: GlowyMaterial,
    /// Texture and repeat pair to repeating material.
    pub repeated: VariantCache,
    pub skydome: SkydomeMaterial,
}

impl Materials {
    /// The registry is valid when its cache is.
    pub open spec fn wf(&self) -> bool {
        self.repeated.wf()
    }

    /// The registry at setup: both fixed materials over their textures, and
    /// no repeating material yet.
    pub fn new(glowy_interior: TextureId, sky: TextureId) -> (materials: Materials)
        ensures
            materials.wf(),
            materials.glowy == (GlowyMaterial { env_texture: glowy_interior }),
            materials.skydome == (SkydomeMaterial { env_texture: sky }),
            materials.repeated@ == Seq::<RepeatedMaterial>::empty(),
    {
        Materials {
            glowy: GlowyMaterial { env_texture: glowy_interior },
            repeated: VariantCache::new(),
            skydome: SkydomeMaterial { env_texture: sky },
        }
    }
}

/// Asking for a material keeps the cache free of repetition and only ever
/// appends: every older material keeps its place.
pub proof fn lemma_variant_appends(created: Seq<RepeatedMaterial>, wanted: RepeatedMaterial)
    requires
        distinct(created),
    ensures
        distinct(with_variant(created, wanted)),
        created.len() <= with_variant(created, wanted).len() <= created.len() + 1,
        forall|i: int| 0 <= i < created.len() ==> with_variant(created, wanted)[i] == created[i],
        0 <= variant_place(created, wanted) < with_variant(created, wanted).len(),
        with_variant(created, wanted)[variant_place(created, wanted)] == wanted,
{
    if !created.contains(wanted) {
        assert(distinct(created.push(wanted)));
    }
}

/// Asking twice for the same texture and repeat pair creates one material:
/// the second request changes nothing and returns the place of the first.
pub proof fn lemma_variant_idempotent(created: Seq<RepeatedMaterial>, wanted: RepeatedMaterial)
    requires
        distinct(created),
    ensures
        with_variant(with_variant(created, wanted), wanted) == with_variant(created, wanted),
        variant_place(with_variant(created, wanted), wanted) == variant_place(created, wanted),
        position(with_variant(created, wanted), wanted) == Some(variant_place(created, wanted)),
{
    lemma_variant_appends(created, wanted);
    lemma_position(with_variant(created, wanted), wanted, variant_place(created, wanted));
}

/// Two requests return the same material exactly when they ask for the same
/// texture and repeat pair.
pub proof fn lemma_variant_injective(
    created: Seq<RepeatedMaterial>,
    first: RepeatedMaterial,
    second: RepeatedMaterial,
)
    requires
        distinct(created),
    ensures
        variant_place(with_variant(created, first), second) == variant_place(created, first) <==> first
            == second,
{
    lemma_variant_appends(created, first);
    let mid = with_variant(created, first);
    lemma_variant_appends(mid, second);
    lemma_variant_idempotent(created, first);
}

} // verus!
