use shader_effects::materials::{MaterialHandle, Materials, RepeatedMaterial, TextureId, VariantCache};
use shader_effects::repeat::{RepeatError, Repeats};
use shader_effects::scene::{apply_repeats, set_texture_to_repeat, ChildMaterial, SceneNode};

fn node(name: &str, children: Vec<ChildMaterial>) -> SceneNode {
    SceneNode { name: name.to_string(), children }
}

#[test]
fn a_node_without_annotation_is_left_alone() {
    let mut cache = VariantCache::new();
    let children = vec![ChildMaterial::Textured(TextureId(1)), ChildMaterial::Untextured];
    let outcome = apply_repeats(&mut cache, None, &children);
    assert_eq!(outcome.replacements, vec![None, None]);
    assert_eq!(outcome.error, None);
    assert_eq!(cache.len(), 0);
}

#[test]
fn a_malformed_annotation_touches_no_child() {
    let mut cache = VariantCache::new();
    let children = vec![ChildMaterial::Textured(TextureId(1)), ChildMaterial::Textured(TextureId(2))];
    let outcome = apply_repeats(&mut cache, Some(Err(RepeatError::MalformedRepeat)), &children);
    assert_eq!(outcome.replacements, vec![None, None]);
    assert_eq!(outcome.error, Some(RepeatError::MalformedRepeat));
    assert_eq!(cache.len(), 0);
}

#[test]
fn textured_children_get_their_variant() {
    let mut cache = VariantCache::new();
    let children = vec![
        ChildMaterial::Textured(TextureId(5)),
        ChildMaterial::Absent,
        ChildMaterial::Textured(TextureId(6)),
        ChildMaterial::Textured(TextureId(5)),
    ];
    let outcome = apply_repeats(&mut cache, Some(Ok(Repeats::new(2, 3))), &children);
    assert_eq!(
        outcome.replacements,
        vec![Some(MaterialHandle(0)), None, Some(MaterialHandle(1)), Some(MaterialHandle(0))]
    );
    assert_eq!(outcome.error, None);
    assert_eq!(cache.len(), 2);
    assert_eq!(
        cache.material(MaterialHandle(1)),
        Some(RepeatedMaterial { texture: TextureId(6), repeats: Repeats::new(2, 3) })
    );
}

#[test]
fn a_missing_texture_ends_the_node() {
    let mut cache = VariantCache::new();
    let children = vec![
        ChildMaterial::Textured(TextureId(5)),
        ChildMaterial::Untextured,
        ChildMaterial::Textured(TextureId(6)),
    ];
    let outcome = apply_repeats(&mut cache, Some(Ok(Repeats::new(1, 1))), &children);
    assert_eq!(outcome.replacements, vec![Some(MaterialHandle(0)), None, None]);
    assert_eq!(outcome.error, Some(RepeatError::MissingTexture));
    assert_eq!(cache.len(), 1);
}

#[test]
fn a_dangling_material_ends_the_node() {
    let mut cache = VariantCache::new();
    let children = vec![ChildMaterial::Dangling, ChildMaterial::Untextured, ChildMaterial::Textured(TextureId(6))];
    let outcome = apply_repeats(&mut cache, Some(Ok(Repeats::new(1, 1))), &children);
    assert_eq!(outcome.replacements, vec![None, None, None]);
    assert_eq!(outcome.error, Some(RepeatError::MissingMaterial));
    assert_eq!(cache.len(), 0);
}

#[test]
fn a_node_without_children() {
    let mut cache = VariantCache::new();
    let outcome = apply_repeats(&mut cache, Some(Ok(Repeats::new(1, 1))), &vec![]);
    assert_eq!(outcome.replacements, vec![]);
    assert_eq!(outcome.error, None);
}

#[test]
fn a_pass_replaces_materials_of_annotated_nodes() {
    let mut materials = Materials::new(TextureId(100), TextureId(101));
    let nodes = vec![
        node("Wall [repeat: 2, 3]", vec![ChildMaterial::Textured(TextureId(5)), ChildMaterial::Absent]),
        node("Lamp", vec![ChildMaterial::Textured(TextureId(5))]),
        node("Floor [Repeat: 2, 3].001", vec![ChildMaterial::Textured(TextureId(5)), ChildMaterial::Textured(TextureId(6))]),
        node("Roof [repeat: 3, 2]", vec![ChildMaterial::Textured(TextureId(5))]),
    ];
    let outcomes = set_texture_to_repeat(&mut materials, &nodes);
    assert_eq!(outcomes.len(), 4);
    assert_eq!(outcomes[0].replacements, vec![Some(MaterialHandle(0)), None]);
    assert_eq!(outcomes[1].replacements, vec![None]);
    assert_eq!(outcomes[2].replacements, vec![Some(MaterialHandle(0)), Some(MaterialHandle(1))]);
    assert_eq!(outcomes[3].replacements, vec![Some(MaterialHandle(2))]);
    for outcome in &outcomes {
        assert_eq!(outcome.error, None);
    }
    assert_eq!(materials.repeated.len(), 3);
    assert_eq!(
        materials.repeated.material(MaterialHandle(2)),
        Some(RepeatedMaterial { texture: TextureId(5), repeats: Repeats::new(3, 2) })
    );
    assert_eq!(materials.glowy.env_texture, TextureId(100));
    assert_eq!(materials.skydome.env_texture, TextureId(101));
}

#[test]
fn a_bad_node_does_not_end_the_pass() {
    let mut materials = Materials::new(TextureId(100), TextureId(101));
    let nodes = vec![
        node("A [repeat: 1, 2]", vec![ChildMaterial::Textured(TextureId(5))]),
        node("B [repeat: 99999999999, 2]", vec![ChildMaterial::Textured(TextureId(6))]),
        node("C [repeat: 1, 2]", vec![ChildMaterial::Untextured, ChildMaterial::Textured(TextureId(7))]),
        node("D [repeat: 4, 4]", vec![ChildMaterial::Textured(TextureId(6))]),
    ];
    let outcomes = set_texture_to_repeat(&mut materials, &nodes);
    assert_eq!(outcomes[0].replacements, vec![Some(MaterialHandle(0))]);
    assert_eq!(outcomes[0].error, None);
    assert_eq!(outcomes[1].replacements, vec![None]);
    assert_eq!(outcomes[1].error, Some(RepeatError::MalformedRepeat));
    assert_eq!(outcomes[2].replacements, vec![None, None]);
    assert_eq!(outcomes[2].error, Some(RepeatError::MissingTexture));
    assert_eq!(outcomes[3].replacements, vec![Some(MaterialHandle(1))]);
    assert_eq!(outcomes[3].error, None);
    assert_eq!(materials.repeated.len(), 2);
    assert_eq!(
        materials.repeated.material(MaterialHandle(1)),
        Some(RepeatedMaterial { texture: TextureId(6), repeats: Repeats::new(4, 4) })
    );
}

#[test]
fn a_pass_without_the_bad_node_decides_the_same() {
    let good = |name: &str, texture: u64| node(name, vec![ChildMaterial::Textured(TextureId(texture))]);
    let mut with_bad = Materials::new(TextureId(0), TextureId(0));
    let mut without_bad = Materials::new(TextureId(0), TextureId(0));
    let all = vec![
        good("A [repeat: 1, 2]", 5),
        good("B [repeat: 4294967296, 2]", 6),
        good("C [repeat: 3, 3]", 6),
    ];
    let rest = vec![good("A [repeat: 1, 2]", 5), good("C [repeat: 3, 3]", 6)];
    let first = set_texture_to_repeat(&mut with_bad, &all);
    let second = set_texture_to_repeat(&mut without_bad, &rest);
    assert_eq!(first[0].replacements, second[0].replacements);
    assert_eq!(first[2].replacements, second[1].replacements);
    assert_eq!(with_bad.repeated.len(), without_bad.repeated.len());
}

#[test]
fn a_second_pass_creates_nothing_new() {
    let mut materials = Materials::new(TextureId(0), TextureId(0));
    let nodes = vec![node("A [repeat: 1, 2]", vec![ChildMaterial::Textured(TextureId(5)), ChildMaterial::Textured(TextureId(6))])];
    let first = set_texture_to_repeat(&mut materials, &nodes);
    let second = set_texture_to_repeat(&mut materials, &nodes);
    assert_eq!(first[0].replacements, second[0].replacements);
    assert_eq!(materials.repeated.len(), 2);
}

#[test]
fn an_empty_pass() {
    let mut materials = Materials::new(TextureId(0), TextureId(0));
    let outcomes = set_texture_to_repeat(&mut materials, &vec![]);
    assert_eq!(outcomes.len(), 0);
    assert_eq!(materials.repeated.len(), 0);
}
