use random_strings::RandomStringGenerator;

#[test]
fn default() {
    let string_generator = RandomStringGenerator::new();
    assert_eq!(
        RandomStringGenerator {
            count: 5,
            length: 32,
            include_numbers: true,
            include_special_chars: true,
            include_uppercase: true
        },
        string_generator
    );
}

#[test]
fn count() {
    let mut string_generator = RandomStringGenerator::new();

    let mut result = string_generator.generate();
    assert_eq!(5, result.unwrap().len());

    string_generator.count = 10;
    result = string_generator.generate();
    assert_eq!(10, result.unwrap().len());

    string_generator.count = 0;
    result = string_generator.generate();
    assert_eq!(
        "Number of strings cannot be 0",
        result.unwrap_err().message()
    );
}

#[test]
fn length() {
    let mut string_generator = RandomStringGenerator::new();

    let mut result = string_generator.generate();
    result
        .unwrap()
        .iter()
        .for_each(|string| assert_eq!(32, string.len()));

    string_generator.length = 10;
    result = string_generator.generate();
    result
        .unwrap()
        .iter()
        .for_each(|string| assert_eq!(10, string.len()));

    string_generator.length = 0;
    result = string_generator.generate();
    assert_eq!(
        "Length of the string cannot be 0",
        result.unwrap_err().message()
    );
}

fn setup() -> (Vec<String>, RandomStringGenerator) {
    let mut string_generator = RandomStringGenerator::new();
    string_generator.count = 100;
    string_generator.length = 100;

    (string_generator.generate().unwrap(), string_generator)
}

#[test]
fn numbers() {
    let (mut strings, mut string_generator) = setup();

    assert_eq!(
        true,
        strings
            .iter()
            .any(|string| string.chars().any(|char| char.is_numeric()))
    );

    string_generator.include_numbers = false;
    strings = string_generator.generate().unwrap();
    assert_eq!(
        true,
        strings
            .iter()
            .all(|string| string.chars().all(|char| !char.is_numeric()))
    );
}

#[test]
fn special_chars() {
    let (mut strings, mut string_generator) = setup();

    assert_eq!(
        true,
        strings
            .iter()
            .any(|string| string.chars().any(|char| !char.is_alphanumeric()))
    );

    string_generator.include_special_chars = false;
    strings = string_generator.generate().unwrap();
    assert_eq!(
        true,
        strings
            .iter()
            .all(|string| string.chars().all(|char| char.is_alphanumeric()))
    );
}

#[test]
fn uppercase() {
    let (mut strings, mut string_generator) = setup();

    assert_eq!(
        true,
        strings
            .iter()
            .any(|string| string.chars().any(|char| char.is_ascii_uppercase()))
    );

    string_generator.include_uppercase = false;
    strings = string_generator.generate().unwrap();
    assert_eq!(
        true,
        strings
            .iter()
            .all(|string| string.chars().all(|char| !char.is_ascii_uppercase()))
    );
}
