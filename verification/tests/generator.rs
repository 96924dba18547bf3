use random_gateway::messages::NumberRequest;
use random_gateway::messages::StatusKind;
use random_gateway::messages::StringRequest;
use random_gateway::generator::RandomGeneratorService;

const ALNUM: &str = "abcdefghijklmnopqrstuvwxyzABCDEFGHIJKLMNOPQRSTUVWXYZ0123456789";
const ALPHA: &str = "abcdefghijklmnopqrstuvwxyzABCDEFGHIJKLMNOPQRSTUVWXYZ";
const DIGITS: &str = "0123456789";
const SYMBOLS: &str = "!@#$%^&*()_+-=[]{}|;:,.<>?";

#[test]
fn number_within_range() {
    let svc = RandomGeneratorService::default();
    let resp = svc
        .get_random_number(&NumberRequest { min: 1, max: 100 })
        .unwrap();
    assert!(1 <= resp.number && resp.number <= 100);
}

#[test]
fn number_boundary_min_equals_max() {
    let svc = RandomGeneratorService::default();
    let resp = svc
        .get_random_number(&NumberRequest { min: 7, max: 7 })
        .unwrap();
    assert_eq!(resp.number, 7);
}

#[test]
fn number_extreme_bounds() {
    let svc = RandomGeneratorService::default();
    let resp = svc
        .get_random_number(&NumberRequest {
            min: i32::MIN,
            max: i32::MAX,
        })
        .unwrap();
    let _ = resp.number;
}

#[test]
fn number_rejects_empty_range() {
    let svc = RandomGeneratorService::default();
    let err = svc
        .get_random_number(&NumberRequest { min: 5, max: 2 })
        .unwrap_err();
    assert_eq!(err.kind, StatusKind::InvalidArgument);
    assert_eq!(err.message, "min must be less than or equal to max");
}

#[test]
fn string_exact_length_each_char_type() {
    let svc = RandomGeneratorService::default();
    for (tag, charset) in [(0, ALNUM), (1, ALPHA), (2, DIGITS), (3, SYMBOLS)] {
        let resp = svc
            .get_random_string(&StringRequest {
                length: 8,
                char_type: tag,
            })
            .unwrap();
        assert_eq!(resp.value.chars().count(), 8);
        assert!(resp.value.chars().all(|c| charset.contains(c)));
    }
}

#[test]
fn string_unrecognized_type_falls_back_to_alphanumeric() {
    let svc = RandomGeneratorService::default();
    for tag in [-1, 4, 42] {
        let resp = svc
            .get_random_string(&StringRequest {
                length: 12,
                char_type: tag,
            })
            .unwrap();
        assert_eq!(resp.value.chars().count(), 12);
        assert!(resp.value.chars().all(|c| ALNUM.contains(c)));
    }
}

#[test]
fn string_length_one_is_a_single_charset_char() {
    let svc = RandomGeneratorService::default();
    let resp = svc
        .get_random_string(&StringRequest {
            length: 1,
            char_type: 2,
        })
        .unwrap();
    assert_eq!(resp.value.len(), 1);
    assert!(resp.value.chars().all(|c| c.is_ascii_digit()));
}

#[test]
fn string_rejects_zero_length() {
    let svc = RandomGeneratorService::default();
    let err = svc
        .get_random_string(&StringRequest {
            length: 0,
            char_type: 0,
        })
        .unwrap_err();
    assert_eq!(err.kind, StatusKind::InvalidArgument);
    assert_eq!(err.message, "length must be greater than 0");
}

#[test]
fn string_rejects_negative_length() {
    let svc = RandomGeneratorService::default();
    let err = svc
        .get_random_string(&StringRequest {
            length: -3,
            char_type: 1,
        })
        .unwrap_err();
    assert_eq!(err.kind, StatusKind::InvalidArgument);
}
