//! One oven configuration: a fixed choice of material in every
//! category, a reflector shape and a reflector count. The variant
//! search enumerates the full cross-product of all such choices; the
//! enumeration here is proved complete (every well-formed configuration
//! appears) and free of repetition.

use vstd::prelude::*;

use crate::materials::Absorber;
use crate::materials::BodyMaterial;
use crate::materials::Insulator;
use crate::materials::ReflectiveMaterial;
use crate::reflectors::ReflectorType;
use crate::window::WindowMaterial;

verus! {

/// How many discrete configurations the variant search visits: the
/// product of all the category sizes and the four reflector counts.
pub const N_VARIANTS: usize = 3840;

/// One fixed configuration of the combinatorial search.
#[derive(Clone, Copy, Debug, PartialEq, Eq, Hash, Structural)]
pub struct Oven {
    pub abs: Absorber,
    pub window: WindowMaterial,
    pub inner_body: BodyMaterial,
    pub outer_body: BodyMaterial,
    pub insulator: Insulator,
    pub reflector_type: ReflectorType,
    pub reflective_material: ReflectiveMaterial,
    pub reflector_number: u8,
}

/// The configuration listed at position `i` of the enumeration. The
/// order is mixed-radix with the reflector count varying fastest, then
/// the reflective material, reflector shape, insulator, inner body,
/// outer body, window and absorber.
pub open spec fn spec_variant_at(i: int) -> Oven {
    Oven {
        reflector_number: (1 + i % 4) as u8,
        reflective_material: ReflectiveMaterial::spec_from_index((i / 4) % 6),
        reflector_type: ReflectorType::spec_from_index(((i / 4) / 6) % 2),
        insulator: Insulator::spec_from_index((((i / 4) / 6) / 2) % 5),
        inner_body: BodyMaterial::spec_from_index(((((i / 4) / 6) / 2) / 5) % 2),
        outer_body: BodyMaterial::spec_from_index((((((i / 4) / 6) / 2) / 5) / 2) % 2),
        window: WindowMaterial::spec_from_index(((((((i / 4) / 6) / 2) / 5) / 2) / 2) % 2),
        abs: Absorber::spec_from_index((((((((i / 4) / 6) / 2) / 5) / 2) / 2) / 2) % 2),
    }
}

/// The position at which the enumeration lists `o`.
pub open spec fn spec_variant_index(o: Oven) -> int {
    (o.reflector_number - 1) + 4 * (o.reflective_material.spec_index() + 6 * (
    o.reflector_type.spec_index() + 2 * (o.insulator.spec_index() + 5 * (
    o.inner_body.spec_index() + 2 * (o.outer_body.spec_index() + 2 * (o.window.spec_index() + 2
        * o.abs.spec_index()))))))
}

/// Every discrete configuration of the search, each paired with the
/// initial guess handed to the continuous optimizer: a tenth of a
/// metre of height, a tenth of a metre of insulation, and a reflector
/// multiplier of three, in the library's micrometre and thousandth
/// scales.
pub fn variants() -> (r: Vec<(Oven, [i64; 3])>)
    ensures
        r@.len() == N_VARIANTS,
        forall|i: int|
            0 <= i < N_VARIANTS ==> (#[trigger] r@[i]).0 == spec_variant_at(i),
        forall|i: int|
            0 <= i < N_VARIANTS ==> (#[trigger] r@[i]).1 == [100_000i64, 100_000i64, 3000i64],
{
    let mut v: Vec<(Oven, [i64; 3])> = Vec::new();
    let mut i: usize = 0;
    while i < 3840
        invariant
            i <= 3840,
            v@.len() == i,
            forall|k: int| 0 <= k < i ==> (#[trigger] v@[k]).0 == spec_variant_at(k),
            forall|k: int| 0 <= k < i ==> (#[trigger] v@[k]).1 == [100_000i64, 100_000i64, 3000i64],
        decreases 3840 - i,
    {
        let oven = Oven {
            abs: Absorber::from_index(((((((i / 4) / 6) / 2) / 5) / 2) / 2) / 2 % 2),
            window: WindowMaterial::from_index((((((i / 4) / 6) / 2) / 5) / 2) / 2 % 2),
            outer_body: BodyMaterial::from_index(((((i / 4) / 6) / 2) / 5) / 2 % 2),
            inner_body: BodyMaterial::from_index((((i / 4) / 6) / 2) / 5 % 2),
            insulator: Insulator::from_index(((i / 4) / 6) / 2 % 5),
            reflector_type: ReflectorType::from_index((i / 4) / 6 % 2),
            reflective_material: ReflectiveMaterial::from_index(i / 4 % 6),
            reflector_number: (i % 4) as u8 + 1,
        };
        v.push((oven, [100_000, 100_000, 3000]));
        i = i + 1;
    }
    v
}

/// Every well-formed configuration is listed, at `spec_variant_index`:
/// the combinatorial search covers the whole design space.
pub proof fn lemma_variants_complete(o: Oven)
    requires
        1 <= o.reflector_number <= 4,
    ensures
        0 <= spec_variant_index(o) < N_VARIANTS,
        spec_variant_at(spec_variant_index(o)) == o,
{
    let c0 = o.reflector_number - 1;
    let x1 = o.reflective_material.spec_index();
    let x2 = o.reflector_type.spec_index();
    let x3 = o.insulator.spec_index();
    let x4 = o.inner_body.spec_index();
    let x5 = o.outer_body.spec_index();
    let x6 = o.window.spec_index();
    let x7 = o.abs.spec_index();
    assert(0 <= x1 < 6 && 0 <= x2 < 2 && 0 <= x3 < 5 && 0 <= x4 < 2 && 0 <= x5 < 2 && 0 <= x6 < 2
        && 0 <= x7 < 2);
    let r6 = x6 + 2 * x7;
    let r5 = x5 + 2 * r6;
    let r4 = x4 + 2 * r5;
    let r3 = x3 + 5 * r4;
    let r2 = x2 + 2 * r3;
    let r1 = x1 + 6 * r2;
    let i = c0 + 4 * r1;
    assert(spec_variant_index(o) == i);
    assert(i % 4 == c0 && i / 4 == r1);
    assert(r1 % 6 == x1 && r1 / 6 == r2);
    assert(r2 % 2 == x2 && r2 / 2 == r3);
    assert(r3 % 5 == x3 && r3 / 5 == r4);
    assert(r4 % 2 == x4 && r4 / 2 == r5);
    assert(r5 % 2 == x5 && r5 / 2 == r6);
    assert(r6 % 2 == x6 && r6 / 2 == x7);
    assert(ReflectiveMaterial::spec_from_index(x1) == o.reflective_material);
    assert(ReflectorType::spec_from_index(x2) == o.reflector_type);
    assert(Insulator::spec_from_index(x3) == o.insulator);
    assert(BodyMaterial::spec_from_index(x4) == o.inner_body);
    assert(BodyMaterial::spec_from_index(x5) == o.outer_body);
    assert(WindowMaterial::spec_from_index(x6) == o.window);
    assert(Absorber::spec_from_index(x7) == o.abs);
}

/// The enumeration lists each position's configuration exactly once:
/// rebuilding the position from the configuration's components returns
/// the position itself.
proof fn lemma_variant_index_roundtrip(i: int)
    requires
        0 <= i < N_VARIANTS,
    ensures
        spec_variant_index(spec_variant_at(i)) == i,
{
    let o = spec_variant_at(i);
    assert(o.reflector_number == 1 + i % 4);
    assert(o.reflective_material.spec_index() == (i / 4) % 6);
    assert(o.reflector_type.spec_index() == ((i / 4) / 6) % 2);
    assert(o.insulator.spec_index() == (((i / 4) / 6) / 2) % 5);
    assert(o.inner_body.spec_index() == ((((i / 4) / 6) / 2) / 5) % 2);
    assert(o.outer_body.spec_index() == (((((i / 4) / 6) / 2) / 5) / 2) % 2);
    assert(o.window.spec_index() == ((((((i / 4) / 6) / 2) / 5) / 2) / 2) % 2);
    assert(o.abs.spec_index() == (((((((i / 4) / 6) / 2) / 5) / 2) / 2) / 2) % 2);
    assert((((((((i / 4) / 6) / 2) / 5) / 2) / 2) / 2) / 2 == 0);
}

/// No configuration is listed twice: distinct positions hold distinct
/// configurations.
pub proof fn lemma_variants_distinct(i: int, j: int)
    requires
        0 <= i < N_VARIANTS,
        0 <= j < N_VARIANTS,
        i != j,
    ensures
        spec_variant_at(i) != spec_variant_at(j),
{
    lemma_variant_index_roundtrip(i);
    lemma_variant_index_roundtrip(j);
}

} // verus!
