use vstd::prelude::*;
use crate::linalg::{extended, vec4_words, Vec3, Vec4, FLOAT_ONE};
use crate::bytes::{is_memory_image, lemma_memory_image_len, lemma_memory_image_split, words_to_bytes};
use vstd::seq_lib::lemma_flatten_concat;

verus! {

/// One voxel instance as the application sees it.
#[derive(Clone, Copy, Debug, PartialEq, Eq, Structural)]
pub struct Instance {
    pub position: Vec3,
    pub color: Vec3,
}

/// One voxel instance as the shader reads it from the storage buffer:
/// homogeneous position and colour, eight floats in this order.
#[derive(Clone, Copy, Debug, PartialEq, Eq, Structural)]
pub struct InstanceRaw {
    pub position: Vec4,
    pub color: Vec4,
}

/// The GPU form of `i`: position and colour each extended with `w = 1.0`.
pub open spec fn raw_of(i: Instance) -> InstanceRaw {
    InstanceRaw { position: extended(i.position, FLOAT_ONE), color: extended(i.color, FLOAT_ONE) }
}

/// The eight floats of `r` in memory order.
pub open spec fn raw_words(r: InstanceRaw) -> Seq<u32> {
    vec4_words(r.position) + vec4_words(r.color)
}

impl Instance {
    /// The GPU form of this instance: position and colour each get `w = 1.0`.
    pub fn to_raw(&self) -> (raw: InstanceRaw)
        ensures
            raw == raw_of(*self),
            raw.position == (Vec4 {
                x: self.position.x,
                y: self.position.y,
                z: self.position.z,
                w: FLOAT_ONE,
            }),
            raw.color == (Vec4 { x: self.color.x, y: self.color.y, z: self.color.z, w: FLOAT_ONE }),
    {
        InstanceRaw {
            position: self.position.extend(FLOAT_ONE),
            color: self.color.extend(FLOAT_ONE),
        }
    }
}

/// The words of all instances, one after the other, eight per instance.
pub open spec fn instance_words(raws: Seq<InstanceRaw>) -> Seq<u32> {
    raws.map_values(|r: InstanceRaw| raw_words(r)).flatten()
}

/// The GPU form of every instance, in order.
pub fn instances_to_raw(instances: &[Instance]) -> (raws: Vec<InstanceRaw>)
    ensures
        raws@ == instances@.map_values(|i: Instance| raw_of(i)),
{
    let mut raws: Vec<InstanceRaw> = Vec::new();
    let n = instances.len();
    for k in 0..n
        invariant
            n == instances@.len(),
            raws@ == instances@.take(k as int).map_values(|i: Instance| raw_of(i)),
    {
        let raw = instances[k].to_raw();
        raws.push(raw);
        assert(instances@.take(k + 1) =~= instances@.take(k as int).push(instances@[k as int]));
    }
    assert(instances@.take(n as int) =~= instances@);
    raws
}

/// Contents of the instance storage buffer: the memory image of every
/// instance's eight words, instance after instance.
pub fn instance_buffer_contents(raws: &[InstanceRaw]) -> (bytes: Vec<u8>)
    ensures
        is_memory_image(instance_words(raws@), bytes@),
        bytes@.len() == 32 * raws@.len(),
{
    let mut words: Vec<u32> = Vec::new();
    let n = raws.len();
    for k in 0..n
        invariant
            n == raws@.len(),
            words@ == instance_words(raws@.take(k as int)),
            words@.len() == 8 * k,
    {
        let raw = raws[k];
        let ghost before = words@;
        raw.position.push_words(&mut words);
        raw.color.push_words(&mut words);
        assert(raws@.take(k + 1) =~= raws@.take(k as int).push(raw));
        assert(raws@.take(k + 1).map_values(|r: InstanceRaw| raw_words(r)) =~= raws@.take(
            k as int,
        ).map_values(|r: InstanceRaw| raw_words(r)).push(raw_words(raw)));
        assert(words@ =~= before + raw_words(raw));
        proof {
            raws@.take(k as int).map_values(|r: InstanceRaw| raw_words(r)).lemma_flatten_push(
                raw_words(raw),
            );
        }
    }
    assert(raws@.take(n as int) =~= raws@);
    let bytes = words_to_bytes(&words);
    proof {
        assert forall|k: int| 0 <= k < raws@.len() implies is_memory_image(
            seq![raws@[k].position.x, raws@[k].position.y, raws@[k].position.z, raws@[k].position.w, raws@[k].color.x, raws@[k].color.y, raws@[k].color.z, raws@[k].color.w],
            #[trigger] bytes@.subrange(32 * k, 32 * k + 32),
        ) by {
            lemma_instance_stride(raws@, bytes@, k);
            lemma_instance_layout(raws@[k]);
        }
    }
    bytes
}

proof fn lemma_instance_words_concat(a: Seq<InstanceRaw>, b: Seq<InstanceRaw>)
    ensures
        instance_words(a + b) == instance_words(a) + instance_words(b),
{
    assert((a + b).map_values(|r: InstanceRaw| raw_words(r)) =~= a.map_values(
        |r: InstanceRaw| raw_words(r),
    ) + b.map_values(|r: InstanceRaw| raw_words(r)));
    lemma_flatten_concat(
        a.map_values(|r: InstanceRaw| raw_words(r)),
        b.map_values(|r: InstanceRaw| raw_words(r)),
    );
}

proof fn lemma_instance_words_len(raws: Seq<InstanceRaw>)
    ensures
        instance_words(raws).len() == 8 * raws.len(),
    decreases raws.len(),
{
    if raws.len() > 0 {
        let init = raws.drop_last();
        lemma_instance_words_len(init);
        lemma_instance_words_concat(init, seq![raws.last()]);
        assert(init + seq![raws.last()] =~= raws);
        assert(seq![raws.last()].map_values(|r: InstanceRaw| raw_words(r)) =~= seq![
            raw_words(raws.last()),
        ]);
        seq![raws.last()].map_values(|r: InstanceRaw| raw_words(r)).lemma_flatten_one_element();
    } else {
        assert(raws.map_values(|r: InstanceRaw| raw_words(r)) =~= Seq::<Seq<u32>>::empty());
    }
}

/// An instance's eight words: position x, y, z, w, then colour x, y, z, w.
pub proof fn lemma_instance_layout(r: InstanceRaw)
    ensures
        raw_words(r) == seq![r.position.x, r.position.y, r.position.z, r.position.w, r.color.x, r.color.y, r.color.z, r.color.w],
{
    assert(raw_words(r) =~= seq![r.position.x, r.position.y, r.position.z, r.position.w, r.color.x, r.color.y, r.color.z, r.color.w]);
}

/// The GPU form keeps the instance's three coordinates and three colour
/// components, each exactly, and sets both `w` to the bit pattern of 1.0.
pub proof fn lemma_raw_keeps_coordinates(i: Instance)
    ensures
        raw_of(i).position == (Vec4 {
            x: i.position.x,
            y: i.position.y,
            z: i.position.z,
            w: 0x3F80_0000u32,
        }),
        raw_of(i).color == (Vec4 { x: i.color.x, y: i.color.y, z: i.color.z, w: 0x3F80_0000u32 }),
{
}

/// The shader finds instance `k` at byte `32 * k` of the instance buffer:
/// those 32 bytes are the memory image of that instance's eight words.
pub proof fn lemma_instance_stride(raws: Seq<InstanceRaw>, bytes: Seq<u8>, k: int)
    requires
        is_memory_image(instance_words(raws), bytes),
        0 <= k < raws.len(),
    ensures
        is_memory_image(raw_words(raws[k]), bytes.subrange(32 * k, 32 * k + 32)),
{
    let before = raws.take(k);
    let rest = raws.skip(k);
    let after = raws.skip(k + 1);
    assert(raws =~= before + rest);
    assert(rest =~= seq![raws[k]] + after);
    lemma_instance_words_concat(before, rest);
    lemma_instance_words_concat(seq![raws[k]], after);
    lemma_instance_words_len(before);
    lemma_instance_words_len(raws);
    lemma_memory_image_len(instance_words(raws), bytes);
    assert(seq![raws[k]].map_values(|r: InstanceRaw| raw_words(r)) =~= seq![raw_words(raws[k])]);
    seq![raws[k]].map_values(|r: InstanceRaw| raw_words(r)).lemma_flatten_one_element();
    lemma_memory_image_split(instance_words(before), instance_words(rest), bytes);
    let tail = bytes.skip(32 * k);
    lemma_memory_image_split(raw_words(raws[k]), instance_words(after), tail);
    assert(tail.take(32) =~= bytes.subrange(32 * k, 32 * k + 32));
}

} // verus!
