//! The density-graph node tree and its evaluator.
//!
//! A node is one variant of a closed sum type; every scalar parameter is a
//! binary64 bit pattern.  The mathematical model of a tree is [`NodeV`],
//! reached through the view operator; what a tree evaluates to at a
//! coordinate is written down by [`spec_eval`], and the executable
//! [`Node::evaluate`] is proved to return exactly that value.

use vstd::prelude::*;

use crate::arith::{add_bits, div_bits, mul_bits, narrow_bits, sub_bits};
use crate::arith::{fadd, fdiv, fmul, fnarrow, fsub};
use crate::fbits::{
    abs_bits, clamp_bits, lt_bits, max_bits, spec_abs, spec_clamp, spec_lt, spec_max,
    BITS_EPSILON, BITS_MILLI, BITS_ONE, BITS_POS_ZERO,
};
use rustc_apfloat::Float;
use vstd::string::StrSliceExecFns;
use vstd::string::StringSliceAdditionalSpecFns;

verus! {

broadcast use vstd::std_specs::vec::group_vec_axioms;

/// One evaluable node of a density graph.
pub enum Node {
    /// A fixed scalar, ignoring the coordinates.
    Constant { value: u64 },
    /// Multi-octave 2D coherent noise sampled at (x, z); y is ignored.
    /// `seed` is the hashed seed string, `freq_cfg` the binary32 frequency
    /// the generator is configured with, and the remaining parameters are
    /// binary64 bit patterns.
    SimplexNoise2D {
        seed: i32,
        freq_cfg: u32,
        octaves: i32,
        lacunarity: u64,
        persistence: u64,
        scale: u64,
    },
    /// The sum of the outputs of an ordered list of children.
    Sum { inputs: Vec<Node> },
    /// One child's output saturated into [min, max].
    Clamp { input: Box<Node>, min: u64, max: u64 },
    /// One child's output remapped affinely from a source range to a target
    /// range; a source range narrower than the machine epsilon yields the
    /// target minimum.
    Normalizer { input: Box<Node>, from_min: u64, from_max: u64, to_min: u64, to_max: u64 },
}

/// The mathematical model of a node tree: the same shape as [`Node`], with
/// lists of children as sequences.
pub enum NodeV {
    Constant { value: u64 },
    SimplexNoise2D {
        seed: i32,
        freq_cfg: u32,
        octaves: i32,
        lacunarity: u64,
        persistence: u64,
        scale: u64,
    },
    Sum { inputs: Seq<NodeV> },
    Clamp { input: Box<NodeV>, min: u64, max: u64 },
    Normalizer { input: Box<NodeV>, from_min: u64, from_max: u64, to_min: u64, to_max: u64 },
}

/// The models of a list of nodes, in order.
pub open spec fn view_list(nodes: Seq<Node>) -> Seq<NodeV>
    decreases nodes,
{
    if nodes.len() == 0 {
        Seq::empty()
    } else {
        view_list(nodes.drop_last()).push(nodes.last()@)
    }
}

impl View for Node {
    type V = NodeV;

    open spec fn view(&self) -> NodeV
        decreases self,
    {
        match *self {
            Node::Constant { value } => NodeV::Constant { value },
            Node::SimplexNoise2D { seed, freq_cfg, octaves, lacunarity, persistence, scale } => {
                NodeV::SimplexNoise2D { seed, freq_cfg, octaves, lacunarity, persistence, scale }
            },
            Node::Sum { inputs } => NodeV::Sum { inputs: view_list(inputs@) },
            Node::Clamp { input, min, max } => {
                NodeV::Clamp { input: Box::new((*input)@), min, max }
            },
            Node::Normalizer { input, from_min, from_max, to_min, to_max } => {
                NodeV::Normalizer {
                    input: Box::new((*input)@),
                    from_min,
                    from_max,
                    to_min,
                    to_max,
                }
            },
        }
    }
}

/// What `fastnoise_lite` returns for one 2D OpenSimplex2 sample: a generator
/// seeded with `seed` and configured with the binary32 frequency `freq_cfg`,
/// sampled at the binary32 coordinates `x` and `z`, widened to binary64.
pub uninterp spec fn noise2_of(seed: i32, freq_cfg: u32, x: u32, z: u32) -> u64;

/// Relies on `fastnoise_lite::FastNoiseLite`: a generator configured with
/// the OpenSimplex2 noise type, a seed and a frequency is an immutable value,
/// and `get_noise_2d` is a pure function of that value and of the sample
/// coordinates.  The binary32 result is widened losslessly to binary64
/// through `rustc_apfloat`.
#[verifier::external_body]
fn sample_noise_2d(seed: i32, freq_cfg: u32, x: u32, z: u32) -> (r: u64)
    ensures
        r == noise2_of(seed, freq_cfg, x, z),
{
    let mut g = fastnoise_lite::FastNoiseLite::new();
    g.set_noise_type(Some(fastnoise_lite::NoiseType::OpenSimplex2));
    g.set_seed(Some(seed));
    g.set_frequency(Some(bytemuck::cast(freq_cfg)));
    let sample = g.get_noise_2d(bytemuck::cast(x), bytemuck::cast(z));
    let single = rustc_apfloat::ieee::Single::from_bits(sample.to_bits() as u128);
    let mut loses_info = false;
    let wide: rustc_apfloat::ieee::Double = rustc_apfloat::FloatConvert::convert(
        single,
        &mut loses_info,
    ).value;
    wide.to_bits() as u64
}

/// The multiply-accumulate seed hash: over the bytes of the seed string,
/// `acc = acc * 31 + byte` in wrapping 32-bit arithmetic.
pub open spec fn spec_seed_hash(bytes: Seq<u8>) -> i32
    decreases bytes.len(),
{
    if bytes.len() == 0 {
        0
    } else {
        spec_seed_hash(bytes.drop_last()).wrapping_mul(31).wrapping_add(bytes.last() as i32)
    }
}

/// Reduces a seed string to its integer seed by the polynomial hash over its
/// UTF-8 bytes.
pub fn seed_hash(seed: &str) -> (r: i32)
    ensures
        r == spec_seed_hash(seed.spec_bytes()),
{
    let bytes = seed.as_bytes_vec();
    let n: usize = bytes.len();
    let mut acc: i32 = 0;
    let mut i: usize = 0;
    while i < n
        invariant
            0 <= i <= n,
            n == bytes@.len(),
            bytes@ == seed.spec_bytes(),
            acc == spec_seed_hash(bytes@.take(i as int)),
        decreases n - i,
    {
        acc = acc.wrapping_mul(31).wrapping_add(bytes[i] as i32);
        proof {
            assert(bytes@.take(i + 1).drop_last() =~= bytes@.take(i as int));
            assert(bytes@.take(i + 1).last() == bytes@[i as int]);
        }
        i += 1;
    }
    proof {
        assert(bytes@.take(n as int) =~= bytes@);
    }
    acc
}

/// The number of octave rounds a noise node runs: none for a count of zero
/// or less.
pub open spec fn spec_octave_rounds(octaves: i32) -> nat {
    if octaves <= 0 {
        0nat
    } else {
        octaves as nat
    }
}

/// The accumulator state (value, amplitude, frequency, total amplitude)
/// after `n` octave rounds, starting from (0, 1, `freq0`, 0).  Each round
/// adds one weighted sample at the coordinates scaled by the current
/// frequency, then scales the amplitude by the persistence and the frequency
/// by the lacunarity.
pub open spec fn spec_noise_rounds(
    seed: i32,
    freq_cfg: u32,
    lacunarity: u64,
    persistence: u64,
    freq0: u64,
    x: u64,
    z: u64,
    n: nat,
) -> (u64, u64, u64, u64)
    decreases n,
{
    if n == 0 {
        (BITS_POS_ZERO, BITS_ONE, freq0, BITS_POS_ZERO)
    } else {
        let (value, amplitude, frequency, max_amp) = spec_noise_rounds(
            seed,
            freq_cfg,
            lacunarity,
            persistence,
            freq0,
            x,
            z,
            (n - 1) as nat,
        );
        let sample = noise2_of(
            seed,
            freq_cfg,
            narrow_bits(mul_bits(x, frequency)),
            narrow_bits(mul_bits(z, frequency)),
        );
        (
            add_bits(value, mul_bits(sample, amplitude)),
            mul_bits(amplitude, persistence),
            mul_bits(frequency, lacunarity),
            add_bits(max_amp, amplitude),
        )
    }
}

/// What a noise node evaluates to: the octave accumulation normalized by the
/// total amplitude, or +0.0 when the total amplitude is not positive.
pub open spec fn spec_noise_eval(
    seed: i32,
    freq_cfg: u32,
    octaves: i32,
    lacunarity: u64,
    persistence: u64,
    scale: u64,
    x: u64,
    z: u64,
) -> u64 {
    let freq0 = div_bits(BITS_ONE, spec_max(scale, BITS_MILLI));
    let (value, amplitude, frequency, max_amp) = spec_noise_rounds(
        seed,
        freq_cfg,
        lacunarity,
        persistence,
        freq0,
        x,
        z,
        spec_octave_rounds(octaves),
    );
    if spec_lt(BITS_POS_ZERO, max_amp) {
        div_bits(value, max_amp)
    } else {
        BITS_POS_ZERO
    }
}

/// What a node evaluates to at the coordinate bits (x, y, z).
pub open spec fn spec_eval(node: NodeV, x: u64, y: u64, z: u64) -> u64
    decreases node,
{
    match node {
        NodeV::Constant { value } => value,
        NodeV::SimplexNoise2D { seed, freq_cfg, octaves, lacunarity, persistence, scale } => {
            spec_noise_eval(seed, freq_cfg, octaves, lacunarity, persistence, scale, x, z)
        },
        NodeV::Sum { inputs } => spec_eval_list(inputs, x, y, z),
        NodeV::Clamp { input, min, max } => spec_clamp(spec_eval(*input, x, y, z), min, max),
        NodeV::Normalizer { input, from_min, from_max, to_min, to_max } => {
            let v = spec_eval(*input, x, y, z);
            let range = sub_bits(from_max, from_min);
            if spec_lt(spec_abs(range), BITS_EPSILON) {
                to_min
            } else {
                add_bits(
                    to_min,
                    mul_bits(div_bits(sub_bits(v, from_min), range), sub_bits(to_max, to_min)),
                )
            }
        },
    }
}

/// The left-to-right sum of the evaluations of a list of nodes, starting
/// from +0.0.
pub open spec fn spec_eval_list(nodes: Seq<NodeV>, x: u64, y: u64, z: u64) -> u64
    decreases nodes,
{
    if nodes.len() == 0 {
        BITS_POS_ZERO
    } else {
        add_bits(spec_eval_list(nodes.drop_last(), x, y, z), spec_eval(nodes.last(), x, y, z))
    }
}

/// One octave loop of a noise node, against `spec_noise_eval`.
fn eval_noise(
    seed: i32,
    freq_cfg: u32,
    octaves: i32,
    lacunarity: u64,
    persistence: u64,
    scale: u64,
    x: u64,
    z: u64,
) -> (r: u64)
    ensures
        r == spec_noise_eval(seed, freq_cfg, octaves, lacunarity, persistence, scale, x, z),
{
    let mut value: u64 = BITS_POS_ZERO;
    let mut amplitude: u64 = BITS_ONE;
    let mut frequency: u64 = fdiv(BITS_ONE, max_bits(scale, BITS_MILLI));
    let mut max_amp: u64 = BITS_POS_ZERO;
    let ghost freq0: u64 = frequency;
    let mut k: i32 = 0;
    while k < octaves
        invariant
            0 <= k,
            octaves > 0 ==> k <= octaves,
            octaves <= 0 ==> k == 0,
            freq0 == div_bits(BITS_ONE, spec_max(scale, BITS_MILLI)),
            (value, amplitude, frequency, max_amp) == spec_noise_rounds(
                seed,
                freq_cfg,
                lacunarity,
                persistence,
                freq0,
                x,
                z,
                k as nat,
            ),
        decreases octaves - k,
    {
        let nx = fnarrow(fmul(x, frequency));
        let nz = fnarrow(fmul(z, frequency));
        let sample = sample_noise_2d(seed, freq_cfg, nx, nz);
        value = fadd(value, fmul(sample, amplitude));
        max_amp = fadd(max_amp, amplitude);
        amplitude = fmul(amplitude, persistence);
        frequency = fmul(frequency, lacunarity);
        k = k + 1;
    }
    if lt_bits(BITS_POS_ZERO, max_amp) {
        fdiv(value, max_amp)
    } else {
        BITS_POS_ZERO
    }
}

impl Node {
    /// Evaluates this node at the coordinate bits (x, y, z).
    ///
    /// A normalizer whose source range is a single finite value yields its
    /// target minimum, whatever its child produces.
    pub fn evaluate(&self, x: u64, y: u64, z: u64) -> (r: u64)
        ensures
            r == spec_eval(self@, x, y, z),
            (match self@ {
                NodeV::Normalizer { input, from_min, from_max, to_min, to_max } => from_min
                    == from_max && crate::fbits::spec_is_finite(from_min) ==> r == to_min,
                _ => true,
            }),
        decreases *self,
    {
        match self {
            Node::Constant { value } => *value,
            Node::SimplexNoise2D { seed, freq_cfg, octaves, lacunarity, persistence, scale } => {
                eval_noise(*seed, *freq_cfg, *octaves, *lacunarity, *persistence, *scale, x, z)
            },
            Node::Sum { inputs } => {
                let n: usize = inputs.len();
                let mut acc: u64 = BITS_POS_ZERO;
                let mut i: usize = 0;
                proof {
                    assert(inputs@.take(0) =~= Seq::<Node>::empty());
                }
                while i < n
                    invariant
                        0 <= i <= n,
                        n == inputs@.len(),
                        acc == spec_eval_list(view_list(inputs@.take(i as int)), x, y, z),
                        self is Sum && self->Sum_inputs == *inputs,
                    decreases n - i,
                {
                    let v = inputs[i].evaluate(x, y, z);
                    acc = fadd(acc, v);
                    proof {
                        assert(inputs@.take(i + 1).drop_last() =~= inputs@.take(i as int));
                        assert(inputs@.take(i + 1).last() == inputs@[i as int]);
                        assert(view_list(inputs@.take(i + 1)).drop_last() =~= view_list(
                            inputs@.take(i as int),
                        ));
                    }
                    i += 1;
                }
                proof {
                    assert(inputs@.take(n as int) =~= inputs@);
                }
                acc
            },
            Node::Clamp { input, min, max } => {
                let v = input.evaluate(x, y, z);
                clamp_bits(v, *min, *max)
            },
            Node::Normalizer { input, from_min, from_max, to_min, to_max } => {
                let v = input.evaluate(x, y, z);
                let range = fsub(*from_max, *from_min);
                proof {
                    crate::fbits::lemma_zero_below_epsilon();
                }
                if lt_bits(abs_bits(range), BITS_EPSILON) {
                    *to_min
                } else {
                    fadd(*to_min, fmul(fdiv(fsub(v, *from_min), range), fsub(*to_max, *to_min)))
                }
            },
        }
    }
}

/// A constant node evaluates to its stored scalar at every coordinate.
pub proof fn lemma_constant_eval(value: u64, x: u64, y: u64, z: u64)
    ensures
        spec_eval(NodeV::Constant { value }, x, y, z) == value,
{
}

/// A clamp node's output lies inside its wall interval whenever the walls
/// are an ordered NaN-free pair and the child's output is not NaN.
pub proof fn lemma_clamp_saturates(input: Box<NodeV>, min: u64, max: u64, x: u64, y: u64, z: u64)
    requires
        !crate::fbits::spec_is_nan(min),
        !crate::fbits::spec_is_nan(max),
        crate::fbits::spec_le(min, max),
        !crate::fbits::spec_is_nan(spec_eval(*input, x, y, z)),
    ensures
        crate::fbits::spec_le(min, spec_eval(NodeV::Clamp { input, min, max }, x, y, z)),
        crate::fbits::spec_le(spec_eval(NodeV::Clamp { input, min, max }, x, y, z), max),
{
    crate::fbits::lemma_clamp_in_range(spec_eval(*input, x, y, z), min, max);
}

/// A sum node's output is the left-to-right folded binary64 sum of its
/// children's outputs at the same coordinate, starting from +0.0.
pub proof fn lemma_sum_additive(inputs: Seq<NodeV>, x: u64, y: u64, z: u64)
    ensures
        spec_eval(NodeV::Sum { inputs }, x, y, z) == spec_eval_list(inputs, x, y, z),
        inputs.len() > 0 ==> spec_eval_list(inputs, x, y, z) == add_bits(
            spec_eval_list(inputs.drop_last(), x, y, z),
            spec_eval(inputs.last(), x, y, z),
        ),
{
}

/// No node kind reads the y coordinate: evaluation gives the same value for
/// every y.
pub proof fn lemma_y_invariant(node: NodeV, x: u64, y1: u64, y2: u64, z: u64)
    ensures
        spec_eval(node, x, y1, z) == spec_eval(node, x, y2, z),
    decreases node,
{
    match node {
        NodeV::Sum { inputs } => {
            lemma_y_invariant_list(inputs, x, y1, y2, z);
        },
        NodeV::Clamp { input, min, max } => {
            lemma_y_invariant(*input, x, y1, y2, z);
        },
        NodeV::Normalizer { input, from_min, from_max, to_min, to_max } => {
            lemma_y_invariant(*input, x, y1, y2, z);
        },
        _ => {},
    }
}

proof fn lemma_y_invariant_list(nodes: Seq<NodeV>, x: u64, y1: u64, y2: u64, z: u64)
    ensures
        spec_eval_list(nodes, x, y1, z) == spec_eval_list(nodes, x, y2, z),
    decreases nodes,
{
    if nodes.len() > 0 {
        lemma_y_invariant_list(nodes.drop_last(), x, y1, y2, z);
        lemma_y_invariant(nodes.last(), x, y1, y2, z);
    }
}

} // verus!
