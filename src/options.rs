//! The configuration a generator is built from, and its validation.
use vstd::prelude::*;
use crate::alphabet::{
    symbols, numbers, uppercase, lowercase,
    lemma_numbers_are_digits, lemma_uppercase_are_upper, lemma_lowercase_are_lower,
    lemma_symbols_are_punctuation,
};

verus! {

/// The shortest password a generator produces.
pub const MIN_LENGTH: usize = 8;

/// The longest password a generator produces.
pub const MAX_LENGTH: usize = 128;

/// What a generator is asked to produce: a length and the enabled categories.
#[derive(Clone, Copy, Debug, PartialEq, Eq, Structural)]
pub struct Options {
    pub length: usize,
    pub allow_symbols: bool,
    pub allow_numbers: bool,
    pub allow_uppercase: bool,
    pub allow_lowercase: bool,
}

/// Why a configuration was refused.
#[derive(Clone, Copy, Debug, PartialEq, Eq, Structural)]
pub enum ConfigError {
    /// The length lies outside `MIN_LENGTH..=MAX_LENGTH`.
    LengthOutOfRange,
    /// All four categories are disabled.
    NoCategorySelected,
}

/// `alpha` when its category is enabled, nothing otherwise.
pub open spec fn enabled(flag: bool, alpha: Seq<char>) -> Seq<char> {
    if flag {
        alpha
    } else {
        Seq::empty()
    }
}

impl Options {
    pub open spec fn length_in_range(self) -> bool {
        MIN_LENGTH <= self.length <= MAX_LENGTH
    }

    pub open spec fn any_category(self) -> bool {
        self.allow_symbols || self.allow_numbers || self.allow_uppercase || self.allow_lowercase
    }

    /// A configuration a generator can be built from.
    pub open spec fn is_valid(self) -> bool {
        self.length_in_range() && self.any_category()
    }

    /// The enabled alphabets, concatenated in the order
    /// symbols, numbers, uppercase, lowercase.
    pub open spec fn pool(self) -> Seq<char> {
        enabled(self.allow_symbols, symbols()) + enabled(self.allow_numbers, numbers())
            + enabled(self.allow_uppercase, uppercase()) + enabled(self.allow_lowercase, lowercase())
    }

    /// No character of a disabled category.
    pub open spec fn excludes_disabled(self, c: char) -> bool {
        &&& !self.allow_symbols ==> !symbols().contains(c)
        &&& !self.allow_numbers ==> !numbers().contains(c)
        &&& !self.allow_uppercase ==> !uppercase().contains(c)
        &&& !self.allow_lowercase ==> !lowercase().contains(c)
    }

    /// Seed draws fit a configuration when there is one per category and each
    /// that an enabled category uses indexes into its alphabet.
    pub open spec fn seed_draws_fit(self, draws: Seq<usize>) -> bool {
        &&& draws.len() == 4
        &&& self.allow_symbols ==> draws[0] < symbols().len()
        &&& self.allow_numbers ==> draws[1] < numbers().len()
        &&& self.allow_uppercase ==> draws[2] < uppercase().len()
        &&& self.allow_lowercase ==> draws[3] < lowercase().len()
    }

    /// The seed phase: one character of each enabled category, in the order
    /// symbols, numbers, uppercase, lowercase.
    pub open spec fn seeds(self, draws: Seq<usize>) -> Seq<char> {
        seed_of(enabled(self.allow_symbols, symbols()), draws[0])
            + seed_of(enabled(self.allow_numbers, numbers()), draws[1])
            + seed_of(enabled(self.allow_uppercase, uppercase()), draws[2])
            + seed_of(enabled(self.allow_lowercase, lowercase()), draws[3])
    }

    /// Fill draws fit when each indexes into the pool.
    pub open spec fn fill_draws_fit(self, draws: Seq<usize>) -> bool {
        forall|i: int| 0 <= i < draws.len() ==> draws[i] < self.pool().len()
    }

    /// The fill phase: the pool characters that the draws index, in order.
    pub open spec fn fill_chars(self, draws: Seq<usize>) -> Seq<char> {
        draws.map_values(|d: usize| self.pool()[d as int])
    }

    /// The outcome of validation: the length is examined first, the
    /// categories only for a length in range.
    pub open spec fn validation(self) -> Result<(), ConfigError> {
        if !self.length_in_range() {
            Err(ConfigError::LengthOutOfRange)
        } else if !self.any_category() {
            Err(ConfigError::NoCategorySelected)
        } else {
            Ok(())
        }
    }

    /// Accepts a valid configuration; otherwise reports the first constraint broken.
    pub fn validate(&self) -> (r: Result<(), ConfigError>)
        ensures
            r == self.validation(),
            r is Ok <==> self.is_valid(),
    {
        if self.length < MIN_LENGTH || self.length > MAX_LENGTH {
            return Err(ConfigError::LengthOutOfRange);
        }
        if !self.allow_symbols && !self.allow_numbers && !self.allow_uppercase
            && !self.allow_lowercase {
            return Err(ConfigError::NoCategorySelected);
        }
        Ok(())
    }
}

/// The character a draw picks from an alphabet; none from an empty one.
pub open spec fn seed_of(alpha: Seq<char>, draw: usize) -> Seq<char> {
    if alpha.len() > 0 {
        seq![alpha[draw as int]]
    } else {
        Seq::empty()
    }
}

/// A character is in the pool exactly when an enabled category holds it.
pub proof fn lemma_pool_contains(o: Options, c: char)
    ensures
        o.pool().contains(c) <==> (o.allow_symbols && symbols().contains(c)) || (o.allow_numbers
            && numbers().contains(c)) || (o.allow_uppercase && uppercase().contains(c)) || (
        o.allow_lowercase && lowercase().contains(c)),
{
    broadcast use vstd::seq_lib::lemma_seq_concat_contains_all_elements;

    let e = Seq::<char>::empty();
    assert(!e.contains(c));
}

/// The seed phase picks, for each enabled category, the character its draw indexes.
pub proof fn lemma_seeds_contain(o: Options, draws: Seq<usize>)
    requires
        o.seed_draws_fit(draws),
    ensures
        o.allow_symbols ==> o.seeds(draws).contains(symbols()[draws[0] as int]),
        o.allow_numbers ==> o.seeds(draws).contains(numbers()[draws[1] as int]),
        o.allow_uppercase ==> o.seeds(draws).contains(uppercase()[draws[2] as int]),
        o.allow_lowercase ==> o.seeds(draws).contains(lowercase()[draws[3] as int]),
{
    broadcast use vstd::seq_lib::lemma_seq_concat_contains_all_elements;

    let a = seed_of(enabled(o.allow_symbols, symbols()), draws[0]);
    let b = seed_of(enabled(o.allow_numbers, numbers()), draws[1]);
    let c = seed_of(enabled(o.allow_uppercase, uppercase()), draws[2]);
    let d = seed_of(enabled(o.allow_lowercase, lowercase()), draws[3]);
    if o.allow_symbols {
        assert(a[0] == symbols()[draws[0] as int]);
    }
    if o.allow_numbers {
        assert(b[0] == numbers()[draws[1] as int]);
    }
    if o.allow_uppercase {
        assert(c[0] == uppercase()[draws[2] as int]);
    }
    if o.allow_lowercase {
        assert(d[0] == lowercase()[draws[3] as int]);
    }
    assert(o.seeds(draws) == a + b + c + d);
    assert forall|x: char| a.contains(x) || b.contains(x) || c.contains(x) || d.contains(x)
        implies o.seeds(draws).contains(x) by {
        assert((a + b).contains(x) || c.contains(x) || d.contains(x));
        assert((a + b + c).contains(x) || d.contains(x));
    }
}

/// No two categories share a character.
pub proof fn lemma_categories_disjoint(c: char)
    ensures
        symbols().contains(c) ==> !numbers().contains(c) && !uppercase().contains(c)
            && !lowercase().contains(c),
        numbers().contains(c) ==> !uppercase().contains(c) && !lowercase().contains(c),
        uppercase().contains(c) ==> !lowercase().contains(c),
{
    lemma_numbers_are_digits();
    lemma_uppercase_are_upper();
    lemma_lowercase_are_lower();
    lemma_symbols_are_punctuation();
}

/// The pool holds no character of a disabled category.
pub proof fn lemma_pool_excludes_disabled(o: Options, c: char)
    requires
        o.pool().contains(c),
    ensures
        o.excludes_disabled(c),
{
    lemma_pool_contains(o, c);
    lemma_categories_disjoint(c);
}

impl ConfigError {
    pub open spec fn message_spec(self) -> Seq<char> {
        match self {
            ConfigError::LengthOutOfRange => "Length must be between 8 and 128."@,
            ConfigError::NoCategorySelected =>
                "At least one of symbols, numbers, uppercase, or lowercase must be set to true."@,
        }
    }

    /// A human-readable description of the error.
    pub fn message(&self) -> (r: String)
        ensures
            r@ == self.message_spec(),
    {
        match self {
            ConfigError::LengthOutOfRange => "Length must be between 8 and 128.".to_owned(),
            ConfigError::NoCategorySelected =>
                "At least one of symbols, numbers, uppercase, or lowercase must be set to true.".to_owned(),
        }
    }
}

} // verus!
