use passgen::generator::Generator;
use passgen::options::{ConfigError, Options};

const SYMBOLS: &str = "!\"#$%&'()*+,-./:;<=>?@[\\]^_`{|}~";

fn all(length: usize) -> Options {
    Options {
        length,
        allow_symbols: true,
        allow_numbers: true,
        allow_uppercase: true,
        allow_lowercase: true,
    }
}

fn new_error(options: Options) -> ConfigError {
    match Generator::new(options) {
        Ok(_) => panic!("configuration accepted"),
        Err(e) => e,
    }
}

#[test]
fn test_length_out_of_range() {
    let options = Options {
        length: 7,
        allow_symbols: true,
        allow_numbers: true,
        allow_uppercase: true,
        allow_lowercase: true,
    };
    let result = Generator::new(options);
    assert!(result.is_err());
}

#[test]
fn test_no_categories_selected() {
    let options = Options {
        length: 8,
        allow_symbols: false,
        allow_numbers: false,
        allow_uppercase: false,
        allow_lowercase: false,
    };
    let result = Generator::new(options);
    assert!(result.is_err());
}

#[test]
fn test_generate() {
    let g = Generator::new(Options {
        length: 18,
        allow_symbols: true,
        allow_numbers: true,
        allow_uppercase: true,
        allow_lowercase: true,
    })
    .expect("Failed to create generator");

    let result = g.generate();
    assert_eq!(result.len(), 18);
}

#[test]
fn length_seven_is_out_of_range() {
    assert_eq!(new_error(all(7)), ConfigError::LengthOutOfRange);
}

#[test]
fn length_bounds_are_inclusive() {
    assert!(Generator::new(all(8)).is_ok());
    assert!(Generator::new(all(128)).is_ok());
    assert_eq!(new_error(all(129)), ConfigError::LengthOutOfRange);
    assert_eq!(new_error(all(0)), ConfigError::LengthOutOfRange);
}

#[test]
fn no_category_is_refused_at_valid_length() {
    let mut o = all(20);
    o.allow_symbols = false;
    o.allow_numbers = false;
    o.allow_uppercase = false;
    o.allow_lowercase = false;
    assert_eq!(new_error(o), ConfigError::NoCategorySelected);
}

#[test]
fn length_is_checked_before_categories() {
    let mut o = all(200);
    o.allow_symbols = false;
    o.allow_numbers = false;
    o.allow_uppercase = false;
    o.allow_lowercase = false;
    assert_eq!(new_error(o), ConfigError::LengthOutOfRange);
}

#[test]
fn validate_reports_each_error() {
    assert_eq!(all(12).validate(), Ok(()));
    assert_eq!(all(5).validate(), Err(ConfigError::LengthOutOfRange));
    let mut o = all(12);
    o.allow_symbols = false;
    o.allow_numbers = false;
    o.allow_uppercase = false;
    o.allow_lowercase = false;
    assert_eq!(o.validate(), Err(ConfigError::NoCategorySelected));
}

#[test]
fn error_messages() {
    assert_eq!(
        ConfigError::LengthOutOfRange.message(),
        "Length must be between 8 and 128."
    );
    assert_eq!(
        ConfigError::NoCategorySelected.message(),
        "At least one of symbols, numbers, uppercase, or lowercase must be set to true."
    );
}

#[test]
fn all_categories_appear_in_eighteen_characters() {
    let g = Generator::new(all(18)).unwrap();
    let p = g.generate();
    assert_eq!(p.chars().count(), 18);
    assert!(p.chars().any(|c| SYMBOLS.contains(c)));
    assert!(p.chars().any(|c| c.is_ascii_digit()));
    assert!(p.chars().any(|c| c.is_ascii_uppercase()));
    assert!(p.chars().any(|c| c.is_ascii_lowercase()));
}

#[test]
fn disabled_symbols_never_appear() {
    let g = Generator::new(Options {
        length: 8,
        allow_symbols: false,
        allow_numbers: true,
        allow_uppercase: true,
        allow_lowercase: true,
    })
    .unwrap();
    for _ in 0..200 {
        let p = g.generate();
        assert_eq!(p.chars().count(), 8);
        assert!(!p.chars().any(|c| SYMBOLS.contains(c)));
        assert!(p.chars().any(|c| c.is_ascii_digit()));
        assert!(p.chars().any(|c| c.is_ascii_uppercase()));
        assert!(p.chars().any(|c| c.is_ascii_lowercase()));
    }
}

#[test]
fn only_digits_when_only_numbers_enabled() {
    let g = Generator::new(Options {
        length: 128,
        allow_symbols: false,
        allow_numbers: true,
        allow_uppercase: false,
        allow_lowercase: false,
    })
    .unwrap();
    let p = g.generate();
    assert_eq!(p.chars().count(), 128);
    assert!(p.chars().all(|c| c.is_ascii_digit()));
}

#[test]
fn enabled_category_present_on_every_call() {
    let g = Generator::new(all(8)).unwrap();
    for _ in 0..1000 {
        let p = g.generate();
        assert_eq!(p.chars().count(), 8);
        assert!(p.chars().any(|c| SYMBOLS.contains(c)));
        assert!(p.chars().any(|c| c.is_ascii_digit()));
        assert!(p.chars().any(|c| c.is_ascii_uppercase()));
        assert!(p.chars().any(|c| c.is_ascii_lowercase()));
    }
}

#[test]
fn seed_picks_one_per_enabled_category() {
    let g = Generator::new(Options {
        length: 10,
        allow_symbols: false,
        allow_numbers: true,
        allow_uppercase: true,
        allow_lowercase: true,
    })
    .unwrap();
    let base = g.seed(&vec![5, 3, 0, 25]);
    assert_eq!(base, vec!['3', 'A', 'z']);
    let all_g = Generator::new(all(10)).unwrap();
    assert_eq!(all_g.seed(&vec![31, 9, 25, 0]), vec!['~', '9', 'Z', 'a']);
}

#[test]
fn fill_appends_pool_characters() {
    let g = Generator::new(Options {
        length: 8,
        allow_symbols: false,
        allow_numbers: true,
        allow_uppercase: false,
        allow_lowercase: true,
    })
    .unwrap();
    // pool: digits then small letters
    let mut base = vec!['7', 'q'];
    g.fill(&mut base, &vec![0, 9, 10, 35, 1, 11]);
    assert_eq!(base, vec!['7', 'q', '0', '9', 'a', 'z', '1', 'b']);
}

#[test]
fn generated_passwords_vary() {
    let g = Generator::new(all(32)).unwrap();
    let a = g.generate();
    let b = g.generate();
    let c = g.generate();
    assert!(a != b || b != c);
}
