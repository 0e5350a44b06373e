//! Positional encoding of NeRF inputs: which features are produced, in what
//! order, and how many.

use vstd::prelude::*;

verus! {

/// One feature of an encoded input vector: a copy of coordinate `axis`, or the
/// sine or cosine of coordinate `axis` scaled by `2^exponent`.
#[derive(Debug, Clone, Copy, PartialEq, Eq, Structural)]
pub enum EncodedComponent {
    Original { axis: usize },
    Sin { exponent: u32, axis: usize },
    Cos { exponent: u32, axis: usize },
}

/// Positional encoding for NeRF networks.
#[derive(Debug, Clone, Copy)]
pub struct PositionalEncoder {
    pub num_frequencies: u32,
    pub include_original: bool,
}

/// The features of frequency band `k` for an input of `dim` coordinates: for
/// each coordinate in turn its sine, then its cosine.
pub open spec fn frequency_band(k: u32, dim: nat) -> Seq<EncodedComponent> {
    Seq::new(
        2 * dim,
        |j: int|
            if j % 2 == 0 {
                EncodedComponent::Sin { exponent: k, axis: (j / 2) as usize }
            } else {
                EncodedComponent::Cos { exponent: k, axis: (j / 2) as usize }
            },
    )
}

/// The features of the first `count` frequency bands, band after band.
pub open spec fn frequency_bands(count: nat, dim: nat) -> Seq<EncodedComponent>
    decreases count,
{
    if count == 0 {
        Seq::<EncodedComponent>::empty()
    } else {
        frequency_bands((count - 1) as nat, dim) + frequency_band((count - 1) as u32, dim)
    }
}

/// The copies of the input's coordinates, in order.
pub open spec fn original_components(dim: nat) -> Seq<EncodedComponent> {
    Seq::new(dim, |i: int| EncodedComponent::Original { axis: i as usize })
}

pub proof fn lemma_frequency_bands_len(count: nat, dim: nat)
    ensures
        frequency_bands(count, dim).len() == 2 * dim * count,
    decreases count,
{
    if count == 0 {
        assert(2 * dim * count == 0) by (nonlinear_arith)
            requires
                count == 0,
        ;
    } else {
        lemma_frequency_bands_len((count - 1) as nat, dim);
        assert(frequency_band((count - 1) as u32, dim).len() == 2 * dim);
        assert(2 * dim * count == 2 * dim * (count - 1) + 2 * dim) by (nonlinear_arith);
    }
}

/// Within the frequency bands, the feature at `2 * dim * i + 2 * j` is the sine
/// of coordinate `j` scaled by `2^i`, and the next one its cosine.
pub proof fn lemma_frequency_bands_index(count: nat, dim: nat, i: int, j: int)
    requires
        0 <= i < count,
        0 <= j < dim,
        count <= 0x1_0000_0000,
        dim <= usize::MAX,
    ensures
        2 * dim * i + 2 * j + 1 < frequency_bands(count, dim).len(),
        frequency_bands(count, dim)[2 * dim * i + 2 * j] == (EncodedComponent::Sin {
            exponent: i as u32,
            axis: j as usize,
        }),
        frequency_bands(count, dim)[2 * dim * i + 2 * j + 1] == (EncodedComponent::Cos {
            exponent: i as u32,
            axis: j as usize,
        }),
    decreases count,
{
    let prev = (count - 1) as nat;
    lemma_frequency_bands_len(prev, dim);
    lemma_frequency_bands_len(count, dim);
    let k = 2 * dim * i + 2 * j;
    if i < prev {
        lemma_frequency_bands_index(prev, dim, i, j);
        assert(k + 1 < 2 * dim * prev) by (nonlinear_arith)
            requires
                k == 2 * dim * i + 2 * j,
                0 <= i < prev,
                0 <= j < dim,
        ;
    } else {
        assert(i == prev);
        assert(2 * dim * i == 2 * dim * prev);
        let band = frequency_band(prev as u32, dim);
        assert(k - 2 * dim * prev == 2 * j);
        assert(band[2 * j] == (EncodedComponent::Sin { exponent: prev as u32, axis: j as usize }));
        assert(band[2 * j + 1] == (EncodedComponent::Cos {
            exponent: prev as u32,
            axis: j as usize,
        }));
    }
}

/// Number of copied coordinates at the start of an encoding.
pub open spec fn original_count(include_original: bool, dim: nat) -> nat {
    if include_original {
        dim
    } else {
        0
    }
}

impl PositionalEncoder {
    pub fn new(num_frequencies: u32, include_original: bool) -> (e: Self)
        ensures
            e.num_frequencies == num_frequencies,
            e.include_original == include_original,
    {
        PositionalEncoder { num_frequencies, include_original }
    }

    /// Number of features produced for an input of `input_dim` coordinates.
    pub open spec fn output_dim_spec(&self, input_dim: nat) -> nat {
        ((if self.include_original { input_dim } else { 0 }) + input_dim * 2 * self.num_frequencies) as nat
    }

    /// The features produced for an input of `dim` coordinates, in order: the
    /// coordinates themselves when `include_original`, then every frequency band
    /// from exponent 0 upwards.
    pub open spec fn layout_spec(&self, dim: nat) -> Seq<EncodedComponent> {
        (if self.include_original {
            original_components(dim)
        } else {
            Seq::<EncodedComponent>::empty()
        }) + frequency_bands(self.num_frequencies as nat, dim)
    }

    /// The output dimension given the input dimension.
    pub fn output_dim(&self, input_dim: usize) -> (d: usize)
        requires
            input_dim * 2 <= usize::MAX,
            input_dim * 2 * self.num_frequencies <= usize::MAX,
            self.output_dim_spec(input_dim as nat) <= usize::MAX,
        ensures
            d == self.output_dim_spec(input_dim as nat),
    {
        let base = if self.include_original { input_dim } else { 0 };
        let per_band = input_dim * 2;
        let bands = per_band * (self.num_frequencies as usize);
        base + bands
    }

    /// The features an input of `input_dim` coordinates is encoded into.
    pub fn layout(&self, input_dim: usize) -> (v: Vec<EncodedComponent>)
        requires
            self.output_dim_spec(input_dim as nat) <= usize::MAX,
        ensures
            v@ == self.layout_spec(input_dim as nat),
            v@.len() == self.output_dim_spec(input_dim as nat),
    {
        let ghost dim = input_dim as nat;
        let mut v: Vec<EncodedComponent> = Vec::new();
        if self.include_original {
            let mut a: usize = 0;
            while a < input_dim
                invariant
                    a <= input_dim,
                    dim == input_dim,
                    v@ == original_components(dim).take(a as int),
                decreases input_dim - a,
            {
                v.push(EncodedComponent::Original { axis: a });
                assert(original_components(dim)[a as int] == EncodedComponent::Original { axis: a });
                assert(original_components(dim).take(a + 1) =~= original_components(dim).take(
                    a as int,
                ).push(EncodedComponent::Original { axis: a }));
                a = a + 1;
            }
            assert(original_components(dim).take(input_dim as int) =~= original_components(dim));
        }
        let ghost prefix = v@;
        assert(prefix == (if self.include_original {
            original_components(dim)
        } else {
            Seq::<EncodedComponent>::empty()
        }));
        assert(v@ =~= prefix + frequency_bands(0, dim));
        let mut k: u32 = 0;
        while k < self.num_frequencies
            invariant
                k <= self.num_frequencies,
                dim == input_dim,
                v@ == prefix + frequency_bands(k as nat, dim),
                prefix.len() == (if self.include_original { dim } else { 0 }),
                self.output_dim_spec(dim) <= usize::MAX,
            decreases self.num_frequencies - k,
        {
            let ghost before = v@;
            let mut a: usize = 0;
            while a < input_dim
                invariant
                    a <= input_dim,
                    dim == input_dim,
                    v@ == before + frequency_band(k, dim).take(2 * a),
                decreases input_dim - a,
            {
                v.push(EncodedComponent::Sin { exponent: k, axis: a });
                v.push(EncodedComponent::Cos { exponent: k, axis: a });
                assert(frequency_band(k, dim).take(2 * a + 2) =~= frequency_band(k, dim).take(
                    2 * a,
                ).push(EncodedComponent::Sin { exponent: k, axis: a }).push(
                    EncodedComponent::Cos { exponent: k, axis: a },
                ));
                a = a + 1;
            }
            assert(frequency_band(k, dim).take(2 * dim as int) =~= frequency_band(k, dim));
            assert(frequency_bands((k + 1) as nat, dim) == frequency_bands(k as nat, dim)
                + frequency_band(k, dim));
            assert(v@ =~= prefix + frequency_bands((k + 1) as nat, dim));
            k = k + 1;
        }
        proof {
            lemma_frequency_bands_len(self.num_frequencies as nat, dim);
            assert(dim * 2 * self.num_frequencies == 2 * dim * self.num_frequencies)
                by (nonlinear_arith);
            let b = original_count(self.include_original, dim);
            assert(prefix.len() == b);
            assert forall|i: int, j: int|
                #![trigger v@[b + 2 * input_dim * i + 2 * j]]
                0 <= i < self.num_frequencies && 0 <= j < input_dim implies {
                    let k = b + 2 * input_dim * i + 2 * j;
                    &&& v@[k] == (EncodedComponent::Sin { exponent: i as u32, axis: j as usize })
                    &&& v@[k + 1] == (EncodedComponent::Cos {
                        exponent: i as u32,
                        axis: j as usize,
                    })
                } by {
                lemma_frequency_bands_index(self.num_frequencies as nat, dim, i, j);
            }
        }
        v
    }
}

/// The encoding produces exactly as many features as `output_dim` reports.
pub proof fn lemma_layout_len_is_output_dim(e: PositionalEncoder, dim: nat)
    ensures
        e.layout_spec(dim).len() == e.output_dim_spec(dim),
{
    lemma_frequency_bands_len(e.num_frequencies as nat, dim);
    assert(dim * 2 * e.num_frequencies == 2 * dim * e.num_frequencies) by (nonlinear_arith);
}

} // verus!
