//! The password generator: construction from a configuration, then the seed,
//! fill and shuffle phases of each generation.
use vstd::prelude::*;
use vstd::math::max;
use crate::alphabet::{
    symbols, numbers, uppercase, lowercase, symbol_chars, number_chars, uppercase_chars,
    lowercase_chars,
};
use crate::options::{
    ConfigError, Options, enabled, lemma_seeds_contain, lemma_pool_contains,
    lemma_pool_excludes_disabled,
};
use crate::random::{random_index, shuffle_chars, collect_string};

verus! {

/// What a generator keeps: the length, each category's alphabet (empty when
/// the category is disabled) and the pool of all enabled characters.
struct State {
    length: usize,
    symbols: Vec<char>,
    numbers: Vec<char>,
    uppercase: Vec<char>,
    lowercase: Vec<char>,
    chars: Vec<char>,
}

/// Produces random passwords for one validated configuration.
pub struct Generator {
    state: State,
}

/// Some character of `s` belongs to `alpha`.
pub open spec fn draws_from(s: Seq<char>, alpha: Seq<char>) -> bool {
    exists|i: int| 0 <= i < s.len() && #[trigger] alpha.contains(s[i])
}

impl Generator {
    /// The configuration this generator was built from.
    pub closed spec fn options(&self) -> Options {
        Options {
            length: self.state.length,
            allow_symbols: self.state.symbols@.len() > 0,
            allow_numbers: self.state.numbers@.len() > 0,
            allow_uppercase: self.state.uppercase@.len() > 0,
            allow_lowercase: self.state.lowercase@.len() > 0,
        }
    }

    /// What every generator that `new` returns keeps: a valid configuration,
    /// the alphabets of exactly the enabled categories, and their pool.
    pub closed spec fn wf(&self) -> bool {
        let o = self.options();
        &&& o.is_valid()
        &&& self.state.symbols@ == enabled(o.allow_symbols, symbols())
        &&& self.state.numbers@ == enabled(o.allow_numbers, numbers())
        &&& self.state.uppercase@ == enabled(o.allow_uppercase, uppercase())
        &&& self.state.lowercase@ == enabled(o.allow_lowercase, lowercase())
        &&& self.state.chars@ == o.pool()
    }

    /// Builds a generator, or reports the first constraint the configuration breaks.
    pub fn new(options: Options) -> (r: Result<Generator, ConfigError>)
        ensures
            match r {
                Ok(g) => options.validation() is Ok && g.wf() && g.options() == options,
                Err(e) => options.validation() == Err::<(), ConfigError>(e),
            },
            r is Ok <==> options.is_valid(),
    {
        match options.validate() {
            Err(e) => return Err(e),
            Ok(()) => {},
        }
        let mut chars: Vec<char> = Vec::new();
        let mut symbols = symbol_chars();
        let mut numbers = number_chars();
        let mut uppercase = uppercase_chars();
        let mut lowercase = lowercase_chars();

        if options.allow_symbols {
            chars.extend_from_slice(symbols.as_slice());
        } else {
            symbols = Vec::new();
        }
        if options.allow_numbers {
            chars.extend_from_slice(numbers.as_slice());
        } else {
            numbers = Vec::new();
        }
        if options.allow_uppercase {
            chars.extend_from_slice(uppercase.as_slice());
        } else {
            uppercase = Vec::new();
        }
        if options.allow_lowercase {
            chars.extend_from_slice(lowercase.as_slice());
        } else {
            lowercase = Vec::new();
        }
        assert(chars@ =~= options.pool());
        let g = Generator {
            state: State { length: options.length, symbols, numbers, uppercase, lowercase, chars },
        };
        assert(g.options() == options);
        Ok(g)
    }

    /// The seed phase for given draws: `draws[k]` picks the character of the
    /// k-th category (symbols, numbers, uppercase, lowercase), and is unused
    /// where that category is disabled.
    pub fn seed(&self, draws: &Vec<usize>) -> (base: Vec<char>)
        requires
            self.wf(),
            self.options().seed_draws_fit(draws@),
        ensures
            base@ == self.options().seeds(draws@),
    {
        let mut base: Vec<char> = Vec::new();
        if self.state.symbols.len() > 0 {
            base.push(self.state.symbols[draws[0]]);
        }
        if self.state.numbers.len() > 0 {
            base.push(self.state.numbers[draws[1]]);
        }
        if self.state.uppercase.len() > 0 {
            base.push(self.state.uppercase[draws[2]]);
        }
        if self.state.lowercase.len() > 0 {
            base.push(self.state.lowercase[draws[3]]);
        }
        assert(base@ =~= self.options().seeds(draws@));
        base
    }

    /// The fill phase for given draws: appends the pool character that each
    /// draw indexes, in order, bringing `base` to the configured length.
    pub fn fill(&self, base: &mut Vec<char>, draws: &Vec<usize>)
        requires
            self.wf(),
            old(base)@.len() + draws@.len() == self.options().length,
            self.options().fill_draws_fit(draws@),
        ensures
            final(base)@ == old(base)@ + self.options().fill_chars(draws@),
    {
        let mut i: usize = 0;
        while i < draws.len()
            invariant
                self.wf(),
                self.options().fill_draws_fit(draws@),
                i <= draws@.len(),
                base@ == old(base)@ + self.options().fill_chars(draws@.take(i as int)),
            decreases draws@.len() - i,
        {
            base.push(self.state.chars[draws[i]]);
            i = i + 1;
            assert(self.options().fill_chars(draws@.take(i as int)) =~= self.options().fill_chars(
                draws@.take(i - 1 as int),
            ).push(self.state.chars@[draws@[i - 1] as int]));
        }
        assert(draws@.take(draws@.len() as int) =~= draws@);
    }

    /// Fills `base` from the pool up to the configured length (a longer
    /// `base` gets nothing), shuffles it and returns it as a string: `base`
    /// ends as a rearrangement of its old characters followed by the drawn
    /// pool characters, and the result is exactly that final buffer.
    fn get_random_string(&self, base: &mut Vec<char>) -> (r: String)
        requires
            self.wf(),
        ensures
            r@ == final(base)@,
            r@.len() == max(old(base)@.len() as int, self.options().length as int),
            exists|d: Seq<usize>|
                d.len() + old(base)@.len() == max(
                    old(base)@.len() as int,
                    self.options().length as int,
                ) && self.options().fill_draws_fit(d) && #[trigger] final(base)@.to_multiset()
                    == (old(base)@ + self.options().fill_chars(d)).to_multiset(),
            old(base)@.to_multiset().subset_of(r@.to_multiset()),
            forall|i: int|
                0 <= i < r@.len() ==> #[trigger] self.options().pool().contains(r@[i])
                    || old(base)@.contains(r@[i]),
    {
        broadcast use vstd::seq_lib::group_to_multiset_ensures;
        broadcast use vstd::seq_lib::lemma_multiset_commutative;
        broadcast use vstd::seq_lib::lemma_seq_concat_contains_all_elements;

        let mut rng = rand::thread_rng();
        let n = self.state.chars.len();
        assert(n > 0) by {
            let o = self.options();
            if o.allow_symbols {
                assert(o.pool().contains(symbols()[0]));
            } else if o.allow_numbers {
                assert(o.pool().contains(numbers()[0]));
            } else if o.allow_uppercase {
                assert(o.pool().contains(uppercase()[0]));
            } else {
                assert(o.pool().contains(lowercase()[0]));
            }
        }
        let mut draws: Vec<usize> = Vec::new();
        while base.len() + draws.len() < self.state.length
            invariant
                self.wf(),
                n == self.state.chars@.len(),
                0 < n,
                base@ == old(base)@,
                draws.len() == 0 || base.len() + draws.len() <= self.state.length,
                self.options().fill_draws_fit(draws@),
            decreases self.state.length - base.len() - draws.len(),
        {
            let d = random_index(&mut rng, n);
            draws.push(d);
        }
        let ghost before = base@;
        if base.len() < self.state.length {
            self.fill(base, &draws);
        } else {
            assert(base@ =~= before + self.options().fill_chars(draws@));
        }
        let ghost filled = base@;
        shuffle_chars(&mut rng, base);
        let r = collect_string(base);
        assert(base@.to_multiset().len() == filled.to_multiset().len());
        assert forall|i: int| 0 <= i < r@.len() implies #[trigger] self.options().pool().contains(
            r@[i],
        ) || before.contains(r@[i]) by {
            assert(r@.contains(r@[i]));
            assert(base@.to_multiset().count(r@[i]) > 0);
            assert(filled.to_multiset().count(r@[i]) > 0);
            assert(filled.contains(r@[i]));
            let fc = self.options().fill_chars(draws@);
            if fc.contains(r@[i]) {
                let j = choose|j: int| 0 <= j < fc.len() && fc[j] == r@[i];
                assert(self.options().pool().contains(self.options().pool()[draws@[j] as int]));
            }
        }
        assert(draws@.len() + before.len() == max(before.len() as int, self.state.length as int));
        assert(base@.to_multiset() == (before + self.options().fill_chars(draws@)).to_multiset());
        r
    }

    /// A fresh random password: its length is the configured one, every
    /// character comes from an enabled category, and each enabled category
    /// supplies at least one character.
    pub fn generate(&self) -> (r: String)
        requires
            self.wf(),
        ensures
            r@.len() == self.options().length,
            forall|i: int| 0 <= i < r@.len() ==> #[trigger] self.options().pool().contains(r@[i]),
            forall|i: int| 0 <= i < r@.len() ==> #[trigger] self.options().excludes_disabled(r@[i]),
            self.options().allow_symbols ==> draws_from(r@, symbols()),
            self.options().allow_numbers ==> draws_from(r@, numbers()),
            self.options().allow_uppercase ==> draws_from(r@, uppercase()),
            self.options().allow_lowercase ==> draws_from(r@, lowercase()),
    {
        broadcast use vstd::seq_lib::group_to_multiset_ensures;

        let mut rng = rand::thread_rng();
        let mut draws: Vec<usize> = Vec::new();
        let sizes = [
            self.state.symbols.len(),
            self.state.numbers.len(),
            self.state.uppercase.len(),
            self.state.lowercase.len(),
        ];
        let mut k: usize = 0;
        while k < 4
            invariant
                k <= 4,
                draws@.len() == k,
                forall|j: int| 0 <= j < k ==> sizes@[j] > 0 ==> draws@[j] < sizes@[j],
            decreases 4 - k,
        {
            if sizes[k] > 0 {
                draws.push(random_index(&mut rng, sizes[k]));
            } else {
                draws.push(0);
            }
            k = k + 1;
        }
        let mut base = self.seed(&draws);
        let ghost seeds = base@;
        let r = self.get_random_string(&mut base);
        proof {
            let o = self.options();
            assert forall|i: int| 0 <= i < r@.len() implies #[trigger] o.pool().contains(r@[i]) by {
                if seeds.contains(r@[i]) {
                    let j = choose|j: int| 0 <= j < seeds.len() && seeds[j] == r@[i];
                    lemma_pool_contains(o, r@[i]);
                }
            }
            assert forall|i: int| 0 <= i < r@.len() implies #[trigger] o.excludes_disabled(r@[i]) by {
                assert(o.pool().contains(r@[i]));
                lemma_pool_excludes_disabled(o, r@[i]);
            }
            lemma_seeds_contain(o, draws@);
            if o.allow_symbols {
                let c = symbols()[draws@[0] as int];
                self.lemma_seed_reaches(seeds, r@, c, symbols());
            }
            if o.allow_numbers {
                let c = numbers()[draws@[1] as int];
                self.lemma_seed_reaches(seeds, r@, c, numbers());
            }
            if o.allow_uppercase {
                let c = uppercase()[draws@[2] as int];
                self.lemma_seed_reaches(seeds, r@, c, uppercase());
            }
            if o.allow_lowercase {
                let c = lowercase()[draws@[3] as int];
                self.lemma_seed_reaches(seeds, r@, c, lowercase());
            }
        }
        r
    }

    /// A seeded character of an alphabet survives into the result.
    proof fn lemma_seed_reaches(&self, seeds: Seq<char>, r: Seq<char>, c: char, alpha: Seq<char>)
        requires
            seeds.contains(c),
            alpha.contains(c),
            seeds.to_multiset().subset_of(r.to_multiset()),
        ensures
            draws_from(r, alpha),
    {
        broadcast use vstd::seq_lib::group_to_multiset_ensures;

        assert(seeds.to_multiset().count(c) > 0);
        assert(r.to_multiset().count(c) > 0);
        assert(r.contains(c));
        let i = choose|i: int| 0 <= i < r.len() && r[i] == c;
        assert(alpha.contains(r[i]));
    }
}

} // verus!
