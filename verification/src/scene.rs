//! Scene-graph processing: freshly named nodes that carry a repeat annotation
//! have the base materials of their children replaced by repeating variants.

use vstd::prelude::*;
use crate::materials::{
    distinct, lemma_variant_appends, variant_place, with_variant, MaterialHandle, Materials,
    RepeatedMaterial, TextureId, VariantCache,
};
use crate::repeat::{annotation_of, repeat_annotation, RepeatError, Repeats};

verus! {

/// What the scene knows of the base material of one child.
#[derive(Clone, Copy, Debug, PartialEq, Eq, Structural)]
pub enum ChildMaterial {
    /// The child carries no base material.
    Absent,
    /// The child carries a handle that resolves to no material.
    Dangling,
    /// The child's material has no base texture.
    Untextured,
    /// The child's material draws this texture.
    Textured(TextureId),
}

/// A freshly named node and the base materials of its children, in order.
#[derive(Debug)]
pub struct SceneNode {
    pub name: String,
    pub children: Vec<ChildMaterial>,
}

/// What processing decided for one node: for each child the repeating
/// material that replaces its base material, if any, and the error that
/// ended the work on the node, if any.
#[derive(Debug)]
pub struct NodeOutcome {
    pub replacements: Vec<Option<MaterialHandle>>,
    pub error: Option<RepeatError>,
}

/// The mathematical result of processing children: the materials of the
/// cache, the replacement of each child, and the error met.
pub struct Applied {
    pub created: Seq<RepeatedMaterial>,
    pub replacements: Seq<Option<MaterialHandle>>,
    pub error: Option<RepeatError>,
}

/// A node as processing sees it: its annotation and its children.
pub struct Annotated {
    pub annotation: Option<Result<Repeats, RepeatError>>,
    pub children: Seq<ChildMaterial>,
}

/// `n` children, none replaced.
pub open spec fn untouched(n: nat) -> Seq<Option<MaterialHandle>> {
    Seq::new(n, |i: int| None)
}

/// Processing one more child. After an error nothing more is replaced. A
/// child without base material is passed over; a dangling handle or a
/// missing texture is the node's error; a textured child gets the variant
/// for its texture, created where the cache lacks it.
pub open spec fn apply_child(before: Applied, repeats: Repeats, child: ChildMaterial) -> Applied {
    if before.error is Some {
        Applied { replacements: before.replacements.push(None), ..before }
    } else {
        match child {
            ChildMaterial::Absent => Applied {
                replacements: before.replacements.push(None),
                ..before
            },
            ChildMaterial::Dangling => Applied {
                created: before.created,
                replacements: before.replacements.push(None),
                error: Some(RepeatError::MissingMaterial),
            },
            ChildMaterial::Untextured => Applied {
                created: before.created,
                replacements: before.replacements.push(None),
                error: Some(RepeatError::MissingTexture),
            },
            ChildMaterial::Textured(texture) => {
                let wanted = RepeatedMaterial { texture, repeats };
                Applied {
                    created: with_variant(before.created, wanted),
                    replacements: before.replacements.push(
                        Some(MaterialHandle(variant_place(before.created, wanted) as usize)),
                    ),
                    error: None,
                }
            },
        }
    }
}

/// Processing the children of one node in order, with a valid repeat pair.
pub open spec fn apply_children(
    created: Seq<RepeatedMaterial>,
    repeats: Repeats,
    children: Seq<ChildMaterial>,
) -> Applied
    decreases children.len(),
{
    if children.len() == 0 {
        Applied { created, replacements: Seq::empty(), error: None }
    } else {
        apply_child(apply_children(created, repeats, children.drop_last()), repeats, children.last())
    }
}

/// Processing one node: without annotation nothing happens; a malformed
/// annotation is the node's error and no child is touched; a valid one is
/// applied to the children.
pub open spec fn apply_node(
    created: Seq<RepeatedMaterial>,
    annotation: Option<Result<Repeats, RepeatError>>,
    children: Seq<ChildMaterial>,
) -> Applied {
    match annotation {
        None => Applied { created, replacements: untouched(children.len()), error: None },
        Some(Err(e)) => Applied { created, replacements: untouched(children.len()), error: Some(e) },
        Some(Ok(repeats)) => apply_children(created, repeats, children),
    }
}

/// Builds the list of `n` children, none replaced.
fn none_replaced(n: usize) -> (replacements: Vec<Option<MaterialHandle>>)
    ensures
        replacements@ == untouched(n as nat),
{
    let mut replacements: Vec<Option<MaterialHandle>> = Vec::new();
    let mut i: usize = 0;
    while i < n
        invariant
            i <= n,
            replacements@ =~= untouched(i as nat),
        decreases n - i,
    {
        replacements.push(None);
        i = i + 1;
    }
    replacements
}

/// Processes one node whose annotation has been read. The cache only grows,
/// and grows by exactly the variants that the children ask for first.
pub fn apply_repeats(
    cache: &mut VariantCache,
    annotation: Option<Result<Repeats, RepeatError>>,
    children: &Vec<ChildMaterial>,
) -> (outcome: NodeOutcome)
    requires
        old(cache).wf(),
    ensures
        final(cache).wf(),
        final(cache)@ == apply_node(old(cache)@, annotation, children@).created,
        outcome.replacements@ == apply_node(old(cache)@, annotation, children@).replacements,
        outcome.error == apply_node(old(cache)@, annotation, children@).error,
{
    let repeats: Repeats = match annotation {
        None => {
            return NodeOutcome { replacements: none_replaced(children.len()), error: None };
        },
        Some(Err(e)) => {
            return NodeOutcome { replacements: none_replaced(children.len()), error: Some(e) };
        },
        Some(Ok(repeats)) => repeats,
    };
    let ghost start = cache@;
    let mut replacements: Vec<Option<MaterialHandle>> = Vec::new();
    let mut error: Option<RepeatError> = None;
    let mut i: usize = 0;
    while i < children.len()
        invariant
            i <= children@.len(),
            cache.wf(),
            cache@ == apply_children(start, repeats, children@.take(i as int)).created,
            replacements@ == apply_children(start, repeats, children@.take(i as int)).replacements,
            error == apply_children(start, repeats, children@.take(i as int)).error,
        decreases children@.len() - i,
    {
        proof {
            assert(children@.take(i + 1).drop_last() =~= children@.take(i as int));
        }
        if error.is_some() {
            replacements.push(None);
        } else {
            match children[i] {
                ChildMaterial::Absent => {
                    replacements.push(None);
                },
                ChildMaterial::Dangling => {
                    replacements.push(None);
                    error = Some(RepeatError::MissingMaterial);
                },
                ChildMaterial::Untextured => {
                    replacements.push(None);
                    error = Some(RepeatError::MissingTexture);
                },
                ChildMaterial::Textured(texture) => {
                    let handle: MaterialHandle = cache.get_or_create(texture, repeats);
                    replacements.push(Some(handle));
                },
            }
        }
        i = i + 1;
    }
    proof {
        assert(children@.take(children@.len() as int) =~= children@);
    }
    NodeOutcome { replacements, error }
}

/// A scene node with its name read.
pub open spec fn annotated(node: SceneNode) -> Annotated {
    Annotated { annotation: annotation_of(node.name@), children: node.children@ }
}

/// The nodes of one pass with their names read.
pub open spec fn annotated_nodes(nodes: Seq<SceneNode>) -> Seq<Annotated> {
    Seq::new(nodes.len(), |i: int| annotated(nodes[i]))
}

/// The materials of the cache after a pass over `nodes`, in order.
pub open spec fn cache_after(created: Seq<RepeatedMaterial>, nodes: Seq<Annotated>) -> Seq<RepeatedMaterial>
    decreases nodes.len(),
{
    if nodes.len() == 0 {
        created
    } else {
        apply_node(
            cache_after(created, nodes.drop_last()),
            nodes.last().annotation,
            nodes.last().children,
        ).created
    }
}

/// What a pass over `nodes` decides for node `i`: the node is processed
/// against the cache that the nodes before it left.
pub open spec fn outcome_at(created: Seq<RepeatedMaterial>, nodes: Seq<Annotated>, i: int) -> Applied
    recommends
        0 <= i < nodes.len(),
{
    apply_node(cache_after(created, nodes.take(i)), nodes[i].annotation, nodes[i].children)
}

/// `outcome` is what `applied` says.
pub open spec fn outcome_is(outcome: NodeOutcome, applied: Applied) -> bool {
    outcome.replacements@ == applied.replacements && outcome.error == applied.error
}

/// One pass over freshly named nodes. Each node whose lower-cased name holds a
/// repeat annotation has the base material of every textured child replaced
/// by the repeating variant for that texture and repeat pair, which is
/// created where the registry lacks it. An error ends the work on its node
/// only: the pass goes on with the next node, and reports one outcome per
/// node, in order.
pub fn set_texture_to_repeat(materials: &mut Materials, nodes: &Vec<SceneNode>) -> (outcomes: Vec<NodeOutcome>)
    requires
        old(materials).wf(),
    ensures
        final(materials).wf(),
        final(materials).glowy == old(materials).glowy,
        final(materials).skydome == old(materials).skydome,
        final(materials).repeated@ == cache_after(old(materials).repeated@, annotated_nodes(nodes@)),
        outcomes@.len() == nodes@.len(),
        forall|i: int|
            0 <= i < nodes@.len() ==> outcome_is(
                #[trigger] outcomes@[i],
                outcome_at(old(materials).repeated@, annotated_nodes(nodes@), i),
            ),
{
    let ghost start = materials.repeated@;
    let ghost all = annotated_nodes(nodes@);
    let mut outcomes: Vec<NodeOutcome> = Vec::new();
    let mut i: usize = 0;
    while i < nodes.len()
        invariant
            i <= nodes@.len(),
            all == annotated_nodes(nodes@),
            materials.wf(),
            materials.glowy == old(materials).glowy,
            materials.skydome == old(materials).skydome,
            start == old(materials).repeated@,
            materials.repeated@ == cache_after(start, all.take(i as int)),
            outcomes@.len() == i,
            forall|k: int| 0 <= k < i ==> outcome_is(#[trigger] outcomes@[k], outcome_at(start, all, k)),
        decreases nodes@.len() - i,
    {
        let node: &SceneNode = &nodes[i];
        let annotation: Option<Result<Repeats, RepeatError>> = repeat_annotation(node.name.as_str());
        proof {
            assert(all.take(i + 1).drop_last() =~= all.take(i as int));
        }
        let outcome: NodeOutcome = apply_repeats(&mut materials.repeated, annotation, &node.children);
        outcomes.push(outcome);
        i = i + 1;
    }
    proof {
        assert(all.take(nodes@.len() as int) =~= all);
    }
    outcomes
}

/// `earlier` is the beginning of `later`.
pub open spec fn extends(later: Seq<RepeatedMaterial>, earlier: Seq<RepeatedMaterial>) -> bool {
    earlier.len() <= later.len() && forall|i: int| 0 <= i < earlier.len() ==> later[i] == earlier[i]
}

/// Processing children never repeats a material and never moves or removes
/// one: the cache before is the beginning of the cache after, and grows by
/// one material per child at most. Each child gets one entry.
pub proof fn lemma_children_append(created: Seq<RepeatedMaterial>, repeats: Repeats, children: Seq<ChildMaterial>)
    requires
        distinct(created),
    ensures
        distinct(apply_children(created, repeats, children).created),
        extends(apply_children(created, repeats, children).created, created),
        apply_children(created, repeats, children).created.len() <= created.len() + children.len(),
        apply_children(created, repeats, children).replacements.len() == children.len(),
    decreases children.len(),
{
    if children.len() > 0 {
        let before = apply_children(created, repeats, children.drop_last());
        lemma_children_append(created, repeats, children.drop_last());
        if before.error is None {
            if let ChildMaterial::Textured(texture) = children.last() {
                lemma_variant_appends(before.created, RepeatedMaterial { texture, repeats });
            }
        }
    }
}

/// Every replacement names the variant of its child's texture and of the
/// node's repeat pair, and only textured children are replaced.
pub proof fn lemma_replacements_name_variants(
    created: Seq<RepeatedMaterial>,
    repeats: Repeats,
    children: Seq<ChildMaterial>,
    k: int,
)
    requires
        distinct(created),
        created.len() + children.len() <= usize::MAX,
        0 <= k < children.len(),
    ensures
        apply_children(created, repeats, children).replacements.len() == children.len(),
        apply_children(created, repeats, children).replacements[k] matches Some(handle) ==> {
            &&& children[k] matches ChildMaterial::Textured(texture)
            &&& handle.0 < apply_children(created, repeats, children).created.len()
            &&& apply_children(created, repeats, children).created[handle.0 as int] == (
            RepeatedMaterial { texture, repeats })
        },
    decreases children.len(),
{
    let before = apply_children(created, repeats, children.drop_last());
    let after = apply_children(created, repeats, children);
    lemma_children_append(created, repeats, children.drop_last());
    lemma_children_append(created, repeats, children);
    if before.error is None {
        if let ChildMaterial::Textured(texture) = children.last() {
            lemma_variant_appends(before.created, RepeatedMaterial { texture, repeats });
        }
    }
    if k < children.len() - 1 {
        lemma_replacements_name_variants(created, repeats, children.drop_last(), k);
    }
}

/// A pass never repeats a material in the cache and only appends to it: for
/// each texture and repeat pair at most one material is ever created.
pub proof fn lemma_pass_appends(created: Seq<RepeatedMaterial>, nodes: Seq<Annotated>)
    requires
        distinct(created),
    ensures
        distinct(cache_after(created, nodes)),
        extends(cache_after(created, nodes), created),
    decreases nodes.len(),
{
    if nodes.len() > 0 {
        lemma_pass_appends(created, nodes.drop_last());
        if let Some(Ok(repeats)) = nodes.last().annotation {
            lemma_children_append(cache_after(created, nodes.drop_last()), repeats, nodes.last().children);
        }
    }
}

/// A node without a valid annotation leaves no trace in the cache: the pass
/// without it ends with the same materials.
pub proof fn lemma_skipped_node(created: Seq<RepeatedMaterial>, nodes: Seq<Annotated>, i: int)
    requires
        0 <= i < nodes.len(),
        !(nodes[i].annotation matches Some(Ok(_))),
    ensures
        cache_after(created, nodes.remove(i)) == cache_after(created, nodes),
    decreases nodes.len(),
{
    if i < nodes.len() - 1 {
        lemma_skipped_node(created, nodes.drop_last(), i);
        assert(nodes.remove(i).drop_last() =~= nodes.drop_last().remove(i));
    }
}

/// A node with a malformed annotation gets its error, none of its children
/// is touched, and the cache stays as it was; every other node of the pass
/// is processed exactly as in a pass without the malformed node.
pub proof fn lemma_malformed_node_isolated(created: Seq<RepeatedMaterial>, nodes: Seq<Annotated>, i: int)
    requires
        0 <= i < nodes.len(),
        nodes[i].annotation matches Some(Err(_)),
    ensures
        outcome_at(created, nodes, i).error == Some(nodes[i].annotation.unwrap().unwrap_err()),
        outcome_at(created, nodes, i).replacements == untouched(nodes[i].children.len()),
        cache_after(created, nodes.take(i + 1)) == cache_after(created, nodes.take(i)),
        cache_after(created, nodes.remove(i)) == cache_after(created, nodes),
        forall|j: int| 0 <= j < i ==> #[trigger] outcome_at(created, nodes.remove(i), j) == outcome_at(created, nodes, j),
        forall|j: int|
            i < j < nodes.len() ==> outcome_at(created, nodes.remove(i), j - 1) == #[trigger] outcome_at(
                created,
                nodes,
                j,
            ),
{
    assert(nodes.take(i + 1).drop_last() =~= nodes.take(i));
    lemma_skipped_node(created, nodes, i);
    assert forall|j: int| 0 <= j < i implies #[trigger] outcome_at(created, nodes.remove(i), j) == outcome_at(
        created,
        nodes,
        j,
    ) by {
        assert(nodes.remove(i).take(j) =~= nodes.take(j));
    }
    assert forall|j: int| i < j < nodes.len() implies outcome_at(created, nodes.remove(i), j - 1)
        == #[trigger] outcome_at(created, nodes, j) by {
        assert(nodes.remove(i).take(j - 1) =~= nodes.take(j).remove(i));
        lemma_skipped_node(created, nodes.take(j), i);
    }
}

} // verus!
