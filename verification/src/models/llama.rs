//! The layer dimensions of a decoder-only transformer, as its configurations
//! give them. The layers themselves, with their weights and their
//! arithmetic, belong to the tensor runtime; here are the integers that
//! decide their shapes.

use vstd::arithmetic::div_mod::{lemma_fundamental_div_mod, lemma_mod_multiples_basic};
use vstd::arithmetic::mul::lemma_mul_is_commutative;
use vstd::prelude::*;

verus! {

/// The shape of a linear layer.
#[derive(Clone, Copy, Debug, PartialEq, Eq, Structural)]
pub struct LinearConfig {
    pub d_input: usize,
    pub d_output: usize,
    pub bias: bool,
}

/// The sigmoid-weighted linear unit, the activation of the feed-forward
/// block. It has no parameters.
#[derive(Clone, Copy, Debug, PartialEq, Eq, Structural)]
pub struct SILU {}

impl SILU {
    /// The unit.
    pub fn new() -> (silu: Self)
        ensures
            silu == (SILU {  }),
    {
        SILU {  }
    }
}

/// The least multiple of `unit` that is not below `size`.
pub open spec fn round_up(size: int, unit: int) -> int {
    unit * ((size + unit - 1) / unit)
}

/// `round_up(size, unit)` is a multiple of `unit`, is not below `size`, and
/// exceeds it by less than `unit`: it is the least such multiple.
pub proof fn lemma_round_up_is_least_multiple(size: int, unit: int)
    requires
        size >= 0,
        unit > 0,
    ensures
        round_up(size, unit) % unit == 0,
        size <= round_up(size, unit) < size + unit,
{
    let sum = size + unit - 1;
    let quotient = sum / unit;
    lemma_fundamental_div_mod(sum, unit);
    lemma_mul_is_commutative(unit, quotient);
    lemma_mod_multiples_basic(quotient, unit);
    assert(0 <= sum % unit < unit);
}

/// The configuration of a gated feed-forward block.
#[derive(Clone, Copy, Debug, PartialEq, Eq, Structural)]
pub struct MLPConfig {
    pub n_state: usize,
    pub n_state_hidden: usize,
    pub multiple_of: usize,
    pub ffn_dim_multiplier: Option<usize>,
}

/// The three projections of a gated feed-forward block and its activation.
#[derive(Clone, Copy, Debug, PartialEq, Eq, Structural)]
pub struct MLP {
    pub w1: LinearConfig,
    pub w2: LinearConfig,
    pub w3: LinearConfig,
    pub silu: SILU,
}

impl MLPConfig {
    /// Two thirds of the nominal hidden size, times the multiplier where one
    /// is set.
    pub open spec fn scaled_dim(self) -> int {
        let base = 2 * self.n_state_hidden / 3;
        match self.ffn_dim_multiplier {
            Some(multiplier) => multiplier * base,
            None => base,
        }
    }

    /// The hidden size of the block: the scaled size, rounded up to a
    /// multiple of `multiple_of`.
    pub open spec fn hidden_dim(self) -> int {
        round_up(self.scaled_dim(), self.multiple_of as int)
    }

    /// The unit of rounding is not zero, and the sizes on the way to the
    /// hidden size fit the machine's integers.
    pub open spec fn valid(self) -> bool {
        &&& self.multiple_of > 0
        &&& 2 * self.n_state_hidden <= usize::MAX
        &&& self.scaled_dim() + self.multiple_of <= usize::MAX
    }

    /// A configuration without a multiplier.
    pub fn new(n_state: usize, n_state_hidden: usize, multiple_of: usize) -> (config: Self)
        ensures
            config == (MLPConfig { n_state, n_state_hidden, multiple_of, ffn_dim_multiplier: None }),
    {
        MLPConfig { n_state, n_state_hidden, multiple_of, ffn_dim_multiplier: None }
    }

    /// The same configuration with the given multiplier, or with none.
    pub fn with_ffn_dim_multiplier(self, ffn_dim_multiplier: Option<usize>) -> (config: Self)
        ensures
            config == (MLPConfig { ffn_dim_multiplier, ..self }),
    {
        MLPConfig {
            n_state: self.n_state,
            n_state_hidden: self.n_state_hidden,
            multiple_of: self.multiple_of,
            ffn_dim_multiplier,
        }
    }

    /// Tells whether the configuration is valid.
    pub fn is_valid(&self) -> (valid: bool)
        ensures
            valid == self.valid(),
    {
        if self.multiple_of == 0 {
            return false;
        }
        let doubled = match self.n_state_hidden.checked_mul(2) {
            Some(doubled) => doubled,
            None => {
                return false;
            },
        };
        let base = doubled / 3;
        let scaled = match self.ffn_dim_multiplier {
            Some(multiplier) => match multiplier.checked_mul(base) {
                Some(scaled) => scaled,
                None => {
                    return false;
                },
            },
            None => base,
        };
        scaled.checked_add(self.multiple_of).is_some()
    }

    /// The shapes of the block's layers: two projections from the state to
    /// the hidden size, one back, none with a bias.
    pub fn init(&self) -> (mlp: MLP)
        requires
            self.valid(),
        ensures
            mlp.w1 == (LinearConfig {
                d_input: self.n_state,
                d_output: self.hidden_dim() as usize,
                bias: false,
            }),
            mlp.w2 == (LinearConfig {
                d_input: self.hidden_dim() as usize,
                d_output: self.n_state,
                bias: false,
            }),
            mlp.w3 == mlp.w1,
            mlp.w1.d_output == self.hidden_dim(),
            mlp.w1.d_output % self.multiple_of == 0,
            self.scaled_dim() <= mlp.w1.d_output < self.scaled_dim() + self.multiple_of,
    {
        let mut hidden_dim = 2 * self.n_state_hidden / 3;
        if let Some(ffn_dim_multiplier) = self.ffn_dim_multiplier {
            hidden_dim = ffn_dim_multiplier * hidden_dim;
        }
        proof {
            lemma_round_up_is_least_multiple(hidden_dim as int, self.multiple_of as int);
        }
        hidden_dim = self.multiple_of * ((hidden_dim + self.multiple_of - 1) / self.multiple_of);
        let w1 = LinearConfig { d_input: self.n_state, d_output: hidden_dim, bias: false };
        let w2 = LinearConfig { d_input: hidden_dim, d_output: self.n_state, bias: false };
        let w3 = LinearConfig { d_input: self.n_state, d_output: hidden_dim, bias: false };
        let silu = SILU::new();
        MLP { w1, w2, w3, silu }
    }
}

/// The configuration of a self-attention layer whose key and value heads may
/// be fewer than its query heads.
#[derive(Clone, Copy, Debug, PartialEq, Eq, Structural)]
pub struct MultiHeadSelfAttentionConfig {
    pub n_state: usize,
    pub n_head: usize,
    pub n_kv_head: usize,
}

/// The head counts and the four projections of a self-attention layer.
#[derive(Clone, Copy, Debug, PartialEq, Eq, Structural)]
pub struct MultiHeadSelfAttention {
    pub n_head: usize,
    pub n_kv_head: usize,
    pub query: LinearConfig,
    pub key: LinearConfig,
    pub value: LinearConfig,
    pub out: LinearConfig,
}

impl MultiHeadSelfAttentionConfig {
    /// The state divides evenly among the query heads, and the query heads
    /// among the key and value heads.
    pub open spec fn valid(self) -> bool {
        &&& self.n_head > 0
        &&& self.n_kv_head > 0
        &&& self.n_state % self.n_head == 0
        &&& self.n_head % self.n_kv_head == 0
    }

    /// The size of one head.
    pub open spec fn head_dim(self) -> int {
        self.n_state as int / self.n_head as int
    }

    /// The width of the key and of the value projection.
    pub open spec fn kv_dim(self) -> int {
        self.n_kv_head * self.head_dim()
    }

    /// How often each key and value head is repeated to match the query
    /// heads.
    pub open spec fn n_repeat(self) -> int {
        self.n_head as int / self.n_kv_head as int
    }

    /// A configuration with the given state size and head counts.
    pub fn new(n_state: usize, n_head: usize, n_kv_head: usize) -> (config: Self)
        ensures
            config == (MultiHeadSelfAttentionConfig { n_state, n_head, n_kv_head }),
    {
        MultiHeadSelfAttentionConfig { n_state, n_head, n_kv_head }
    }

    /// Tells whether the configuration is valid.
    pub fn is_valid(&self) -> (valid: bool)
        ensures
            valid == self.valid(),
    {
        self.n_head > 0 && self.n_kv_head > 0 && self.n_state % self.n_head == 0 && self.n_head
            % self.n_kv_head == 0
    }

    /// Computes the size of one head.
    pub fn n_head_dim(&self) -> (size: usize)
        requires
            self.valid(),
        ensures
            size == self.head_dim(),
            size * self.n_head == self.n_state,
    {
        proof {
            lemma_kv_heads_fill_state(*self);
            lemma_mul_is_commutative(self.n_head as int, self.head_dim());
        }
        self.n_state / self.n_head
    }

    /// Computes how often each key and value head is repeated to match the
    /// query heads.
    pub fn repeats(&self) -> (times: usize)
        requires
            self.valid(),
        ensures
            times == self.n_repeat(),
            times >= 1,
            times * self.n_kv_head == self.n_head,
    {
        proof {
            lemma_kv_heads_fill_state(*self);
            lemma_fundamental_div_mod(self.n_head as int, self.n_kv_head as int);
            lemma_mul_is_commutative(self.n_kv_head as int, self.n_repeat());
        }
        self.n_head / self.n_kv_head
    }

    /// The shapes of the layer's projections: query and output over the
    /// whole state, key and value over the key and value heads only; none
    /// with a bias.
    pub fn init(&self) -> (attention: MultiHeadSelfAttention)
        requires
            self.valid(),
        ensures
            attention.n_head == self.n_head,
            attention.n_kv_head == self.n_kv_head,
            attention.query == (LinearConfig {
                d_input: self.n_state,
                d_output: self.n_state,
                bias: false,
            }),
            attention.out == attention.query,
            attention.key == (LinearConfig {
                d_input: self.n_state,
                d_output: self.kv_dim() as usize,
                bias: false,
            }),
            attention.value == attention.key,
            attention.key.d_output == self.kv_dim(),
    {
        proof {
            lemma_kv_heads_fill_state(*self);
        }
        let n_head_dim = self.n_state / self.n_head;
        let n_head = self.n_head;
        let n_kv_head = self.n_kv_head;
        let query = LinearConfig { d_input: self.n_state, d_output: self.n_state, bias: false };
        let key = LinearConfig {
            d_input: self.n_state,
            d_output: n_kv_head * n_head_dim,
            bias: false,
        };
        let value = LinearConfig {
            d_input: self.n_state,
            d_output: n_kv_head * n_head_dim,
            bias: false,
        };
        let out = LinearConfig { d_input: self.n_state, d_output: self.n_state, bias: false };
        MultiHeadSelfAttention { n_head, n_kv_head, query, key, value, out }
    }
}

/// In a valid configuration the key and value projections are no wider than
/// the state, and repeating each of their heads `n_repeat` times gives the
/// width of the state exactly.
pub proof fn lemma_kv_heads_fill_state(config: MultiHeadSelfAttentionConfig)
    requires
        config.valid(),
    ensures
        config.n_kv_head <= config.n_head,
        config.n_head * config.head_dim() == config.n_state,
        0 <= config.kv_dim() <= config.n_state,
        config.n_repeat() >= 1,
        config.kv_dim() * config.n_repeat() == config.n_state,
{
    let state = config.n_state as int;
    let heads = config.n_head as int;
    let kv_heads = config.n_kv_head as int;
    let head_dim = config.head_dim();
    let repeat = config.n_repeat();
    lemma_fundamental_div_mod(state, heads);
    lemma_fundamental_div_mod(heads, kv_heads);
    assert(heads == kv_heads * repeat);
    assert(state == heads * head_dim);
    assert(repeat >= 1) by (nonlinear_arith)
        requires
            heads == kv_heads * repeat,
            heads > 0,
            kv_heads > 0,
    ;
    assert(head_dim >= 0) by (nonlinear_arith)
        requires
            state == heads * head_dim,
            heads > 0,
            state >= 0,
    ;
    assert(kv_heads * head_dim * repeat == heads * head_dim) by (nonlinear_arith)
        requires
            heads == kv_heads * repeat,
    ;
    assert(kv_heads <= heads) by (nonlinear_arith)
        requires
            heads == kv_heads * repeat,
            repeat >= 1,
            kv_heads > 0,
    ;
    assert(kv_heads * head_dim <= heads * head_dim) by (nonlinear_arith)
        requires
            kv_heads <= heads,
            head_dim >= 0,
    ;
    assert(kv_heads * head_dim >= 0) by (nonlinear_arith)
        requires
            kv_heads > 0,
            head_dim >= 0,
    ;
}

/// The mask of a decoder's attention over a sequence of `seq_length`
/// positions: `mask[i][j]` tells whether position `i` is kept from attending
/// to position `j`, which it is exactly where `j` comes later than `i`.
pub fn attn_decoder_mask(seq_length: usize) -> (mask: Vec<Vec<bool>>)
    requires
        seq_length > 0,
    ensures
        mask@.len() == seq_length,
        forall|i: int| 0 <= i < seq_length ==> (#[trigger] mask@[i])@.len() == seq_length,
        forall|i: int, j: int|
            0 <= i < seq_length && 0 <= j < seq_length ==> (#[trigger] mask@[i]@[j]) == (j > i),
{
    let mut mask: Vec<Vec<bool>> = Vec::new();
    let mut i: usize = 0;
    while i < seq_length
        invariant
            i <= seq_length,
            mask@.len() == i,
            forall|r: int| 0 <= r < i ==> (#[trigger] mask@[r])@.len() == seq_length,
            forall|r: int, c: int|
                0 <= r < i && 0 <= c < seq_length ==> (#[trigger] mask@[r]@[c]) == (c > r),
        decreases seq_length - i,
    {
        let mut row: Vec<bool> = Vec::new();
        let mut j: usize = 0;
        while j < seq_length
            invariant
                j <= seq_length,
                row@.len() == j,
                forall|c: int| 0 <= c < j ==> (#[trigger] row@[c]) == (c > i),
            decreases seq_length - j,
        {
            row.push(j > i);
            j = j + 1;
        }
        mask.push(row);
        i = i + 1;
    }
    mask
}

} // verus!
