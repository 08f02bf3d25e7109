use argon2::password_hash::{PasswordHash, PasswordVerifier};
use argon2::Argon2;
use hashing_service::policy::CostPolicy;
use hashing_service::response::StatusCode;
use hashing_service::routes::argon2::{
    answer, check_params, hash, hash_within, select_algorithm, select_version, validate,
    Algorithm, Argon2idParameters, HashRequest, Version,
};

const SOME_SALT: &str = "c29tZXNhbHQ";

fn submission(algorithm: &str, version: u8, salt: Option<&str>) -> Argon2idParameters {
    Argon2idParameters {
        algorithm: algorithm.to_string(),
        password: "password".to_string(),
        salt: salt.map(|text| text.to_string()),
        version,
        parallelism: 1,
        memory: 256,
        iterations: 2,
        hash_length: None,
    }
}

fn rejection(message: &str) -> Result<(StatusCode, String), (StatusCode, String)> {
    Err((StatusCode::UnprocessableEntity, message.to_string()))
}

fn failure(message: &str) -> Result<(StatusCode, String), (StatusCode, String)> {
    Err((StatusCode::InternalServerError, message.to_string()))
}

fn success(encoded: &str) -> Result<(StatusCode, String), (StatusCode, String)> {
    Ok((StatusCode::Success, encoded.to_string()))
}

#[test]
fn argon2id_without_salt_gives_a_canonical_hash() {
    let parameters = Argon2idParameters {
        algorithm: "id".to_string(),
        password: "correct horse".to_string(),
        salt: None,
        version: 19,
        parallelism: 1,
        memory: 19456,
        iterations: 2,
        hash_length: None,
    };
    let (status, encoded) = hash(parameters).expect("the submission is valid");
    assert_eq!(status, StatusCode::Success);
    assert_eq!(status.as_u16(), 200);
    assert!(encoded.starts_with("$argon2id$v=19$m=19456,t=2,p=1$"));
    let parsed = PasswordHash::new(&encoded).expect("a PHC string");
    assert_eq!(parsed.algorithm.as_str(), "argon2id");
    assert_eq!(parsed.version, Some(19));
    assert_eq!(parsed.params.get_decimal("m"), Some(19456));
    assert_eq!(parsed.params.get_decimal("t"), Some(2));
    assert_eq!(parsed.params.get_decimal("p"), Some(1));
    assert_eq!(parsed.salt.expect("a salt").as_str().len(), 22);
    assert_eq!(parsed.hash.expect("a hash").len(), 32);
    assert!(Argon2::default().verify_password(b"correct horse", &parsed).is_ok());
    assert!(Argon2::default().verify_password(b"wrong horse", &parsed).is_err());
}

#[test]
fn argon2id_known_answer() {
    assert_eq!(
        hash(submission("id", 19, Some(SOME_SALT))),
        success("$argon2id$v=19$m=256,t=2,p=1$c29tZXNhbHQ$nf65EOgLrQMR/uIPnA4rEsF5h7TKyQwu9U1bMCHGi/4")
    );
}

#[test]
fn argon2i_known_answer_with_two_lanes() {
    let mut parameters = submission("i", 19, Some(SOME_SALT));
    parameters.parallelism = 2;
    assert_eq!(
        hash(parameters),
        success("$argon2i$v=19$m=256,t=2,p=2$c29tZXNhbHQ$T/XOJ2mh1/TIpJHfCdQan76Q5esCFVoT5MAeIM1Oq2E")
    );
}

#[test]
fn argon2i_known_answer_of_the_older_revision() {
    assert_eq!(
        hash(submission("i", 16, Some(SOME_SALT))),
        success("$argon2i$v=16$m=256,t=2,p=1$c29tZXNhbHQ$/U3YPXYsSb3q9XxHvc0MLxur+GP960kN9j7emXX8zwY")
    );
}

#[test]
fn argon2d_is_selected_by_its_token() {
    let (status, encoded) = hash(submission("d", 19, Some(SOME_SALT))).expect("valid");
    assert_eq!(status, StatusCode::Success);
    assert!(encoded.starts_with("$argon2d$v=19$m=256,t=2,p=1$c29tZXNhbHQ$"));
    let (_, hybrid) = hash(submission("id", 19, Some(SOME_SALT))).expect("valid");
    assert_ne!(encoded[8..], hybrid[9..]);
}

#[test]
fn argon2_answer_differs_from_its_input() {
    let (_, encoded) = hash(submission("id", 19, Some(SOME_SALT))).expect("valid");
    assert_ne!(encoded, "password");
    assert_ne!(encoded, SOME_SALT);
    let (_, other) = hash(Argon2idParameters {
        password: "passwore".to_string(),
        ..submission("id", 19, Some(SOME_SALT))
    })
    .expect("valid");
    assert_ne!(encoded, other);
}

#[test]
fn argon2_explicit_salt_is_deterministic() {
    let first = hash(submission("id", 19, Some("ZGlmZnNhbHQ")));
    let second = hash(submission("id", 19, Some("ZGlmZnNhbHQ")));
    assert!(first.is_ok());
    assert_eq!(first, second);
}

#[test]
fn argon2_fresh_salts_differ() {
    let (_, first) = hash(submission("id", 19, None)).expect("valid");
    let (_, second) = hash(submission("id", 19, None)).expect("valid");
    assert_ne!(first, second);
    let first = PasswordHash::new(&first).expect("a PHC string");
    let second = PasswordHash::new(&second).expect("a PHC string");
    assert_ne!(first.salt, second.salt);
}

#[test]
fn argon2_answer_survives_a_round_trip() {
    let (_, encoded) = hash(submission("id", 19, Some(SOME_SALT))).expect("valid");
    let parsed = PasswordHash::new(&encoded).expect("a PHC string");
    assert_eq!(parsed.to_string(), encoded);
    let again = parsed.to_string();
    assert_eq!(PasswordHash::new(&again).expect("a PHC string"), parsed);
    assert_eq!(parsed.salt.expect("a salt").as_str(), SOME_SALT);
}

#[test]
fn argon2_output_length_is_the_callers() {
    let mut parameters = submission("id", 19, Some(SOME_SALT));
    parameters.hash_length = Some(16);
    let (_, encoded) = hash(parameters).expect("valid");
    let parsed = PasswordHash::new(&encoded).expect("a PHC string");
    assert_eq!(parsed.hash.expect("a hash").len(), 16);
}

#[test]
fn unknown_algorithm_is_a_validation_failure() {
    assert_eq!(hash(submission("x", 19, None)), rejection("Invalid algorithm"));
    assert_eq!(hash(submission("", 19, None)), rejection("Invalid algorithm"));
    assert_eq!(hash(submission("ID", 19, None)), rejection("Invalid algorithm"));
    assert_eq!(hash(submission("idx", 19, None)), rejection("Invalid algorithm"));
    assert_eq!(hash(submission("argon2id", 19, None)), rejection("Invalid algorithm"));
}

#[test]
fn unknown_algorithm_comes_before_every_other_fault() {
    let parameters = Argon2idParameters {
        algorithm: "x".to_string(),
        password: "password".to_string(),
        salt: Some("!".to_string()),
        version: 0,
        parallelism: 0,
        memory: 0,
        iterations: 0,
        hash_length: Some(0),
    };
    assert_eq!(hash(parameters), rejection("Invalid algorithm"));
}

#[test]
fn unknown_version_is_a_validation_failure() {
    assert_eq!(hash(submission("id", 17, None)), rejection("Invalid version"));
    assert_eq!(hash(submission("id", 0, None)), rejection("Invalid version"));
    assert_eq!(hash(submission("id", 18, None)), rejection("Invalid version"));
    assert_eq!(hash(submission("id", 20, None)), rejection("Invalid version"));
    assert_eq!(hash(submission("id", 255, None)), rejection("Invalid version"));
    let mut parameters = submission("id", 17, None);
    parameters.memory = 0;
    assert_eq!(hash(parameters), rejection("Invalid version"));
}

#[test]
fn argon2_cost_faults_carry_the_primitives_message() {
    let mut parameters = submission("id", 19, None);
    parameters.memory = 7;
    assert_eq!(hash(parameters), rejection("memory cost is too small"));

    let mut parameters = submission("id", 19, None);
    parameters.memory = 15;
    parameters.parallelism = 2;
    assert_eq!(hash(parameters), rejection("memory cost is too small"));

    let mut parameters = submission("id", 19, None);
    parameters.iterations = 0;
    assert_eq!(hash(parameters), rejection("time cost is too small"));

    let mut parameters = submission("id", 19, None);
    parameters.parallelism = 0;
    assert_eq!(hash(parameters), rejection("not enough threads"));

    let mut parameters = submission("id", 19, None);
    parameters.parallelism = 0x100_0000;
    parameters.memory = 0x800_0000;
    assert_eq!(hash(parameters), rejection("too many threads"));

    let mut parameters = submission("id", 19, None);
    parameters.hash_length = Some(3);
    assert_eq!(hash(parameters), rejection("output is too short"));

    let mut parameters = submission("id", 19, None);
    parameters.hash_length = Some(0x1_0000_0000);
    assert_eq!(hash(parameters), rejection("output is too long"));
}

#[test]
fn argon2_cost_faults_come_before_the_salt() {
    let mut parameters = submission("id", 19, Some("!"));
    parameters.iterations = 0;
    assert_eq!(hash(parameters), rejection("time cost is too small"));
}

#[test]
fn parallelism_beyond_an_eighth_of_u32_is_too_little_memory() {
    assert_eq!(check_params(u32::MAX, 2, 0x2000_0000, None), Err("memory cost is too small".to_string()));
    assert_eq!(check_params(u32::MAX, 2, u32::MAX, None), Err("memory cost is too small".to_string()));
    assert_eq!(check_params(u32::MAX, 2, 0x1FFF_FFFF, None), Err("too many threads".to_string()));
    let mut parameters = submission("id", 19, None);
    parameters.parallelism = 0x2000_0000;
    parameters.memory = u32::MAX;
    assert_eq!(hash(parameters), rejection("memory cost is too small"));
}

#[test]
fn check_params_takes_the_boundaries() {
    assert_eq!(check_params(8, 1, 1, None), Ok(()));
    assert_eq!(check_params(8, 1, 1, Some(4)), Ok(()));
    assert_eq!(check_params(16, 1, 2, Some(0xFFFF_FFFF)), Ok(()));
    assert_eq!(check_params(0x7FF_FFF8, 1, 0xFF_FFFF, None), Ok(()));
    assert_eq!(check_params(u32::MAX, u32::MAX, 1, None), Ok(()));
    assert_eq!(check_params(0x7FF_FFF7, 1, 0xFF_FFFF, None), Err("memory cost is too small".to_string()));
    assert_eq!(check_params(0, 0, 0, Some(0)), Err("memory cost is too small".to_string()));
    assert_eq!(check_params(8, 0, 0, Some(0)), Err("time cost is too small".to_string()));
    assert_eq!(check_params(8, 1, 0, Some(0)), Err("not enough threads".to_string()));
    assert_eq!(check_params(8, 1, 1, Some(0)), Err("output is too short".to_string()));
}

#[test]
fn argon2_malformed_salt_is_a_validation_failure() {
    assert_eq!(hash(submission("id", 19, Some("abc"))), rejection("salt invalid: value to short"));
    assert_eq!(hash(submission("id", 19, Some(""))), rejection("salt invalid: value to short"));
    let long = "a".repeat(65);
    assert_eq!(hash(submission("id", 19, Some(&long))), rejection("salt invalid: value to long"));
    assert_eq!(
        hash(submission("id", 19, Some("c29t_XNhbHQ"))),
        rejection("salt invalid: contains invalid character: '_'")
    );
    assert_eq!(
        hash(submission("id", 19, Some("c29tZXNhbHQ="))),
        rejection("salt invalid: contains invalid character: '='")
    );
    assert_eq!(hash(submission("id", 19, Some("c29tZXNhb"))), rejection("invalid Base64 encoding"));
    assert_eq!(hash(submission("id", 19, Some("c29t-XNhbHQ"))), rejection("invalid Base64 encoding"));
    assert_eq!(hash(submission("id", 19, Some("c29t.XNhbHQ"))), rejection("invalid Base64 encoding"));
    assert_eq!(hash(submission("id", 19, Some("c29tZXNhbHR"))), rejection("invalid Base64 encoding"));
}

#[test]
fn argon2_turns_a_salt_of_too_few_bytes_down_while_deriving() {
    assert_eq!(hash(submission("id", 19, Some("YWJjZA"))), failure("salt invalid: value to short"));
    assert_eq!(hash(submission("id", 19, Some("YWJjZGVmZw"))), failure("salt invalid: value to short"));
    assert!(hash(submission("id", 19, Some("YWJjZGVmZ2g"))).is_ok());
}

#[test]
fn argon2_output_length_out_of_the_encoders_bounds_is_a_compute_error() {
    let mut parameters = submission("id", 19, Some(SOME_SALT));
    parameters.hash_length = Some(5);
    let answer = hash(parameters);
    assert_eq!(answer, failure("output size too short, expected at least 10 bytes"));
    assert_eq!(answer.unwrap_err().0.as_u16(), 500);

    let mut parameters = submission("id", 19, Some(SOME_SALT));
    parameters.hash_length = Some(65);
    assert_eq!(hash(parameters), failure("output size too long, expected at most 64 bytes"));

    let mut parameters = submission("id", 19, Some(SOME_SALT));
    parameters.hash_length = Some(10);
    assert!(hash(parameters).is_ok());

    let mut parameters = submission("id", 19, Some(SOME_SALT));
    parameters.hash_length = Some(64);
    assert!(hash(parameters).is_ok());
}

#[test]
fn select_algorithm_knows_three_tokens() {
    assert_eq!(select_algorithm("i"), Some(Algorithm::Argon2i));
    assert_eq!(select_algorithm("d"), Some(Algorithm::Argon2d));
    assert_eq!(select_algorithm("id"), Some(Algorithm::Argon2id));
    assert_eq!(select_algorithm(""), None);
    assert_eq!(select_algorithm("x"), None);
    assert_eq!(select_algorithm("di"), None);
    assert_eq!(select_algorithm("ii"), None);
    assert_eq!(select_algorithm("ix"), None);
    assert_eq!(select_algorithm("I"), None);
    assert_eq!(select_algorithm("id "), None);
    assert_eq!(select_algorithm("\u{e9}"), None);
    assert_eq!(select_algorithm("i\u{e9}"), None);
}

#[test]
fn select_version_knows_two_numbers() {
    assert_eq!(select_version(16), Some(Version::V0x10));
    assert_eq!(select_version(19), Some(Version::V0x13));
    for number in 0..=255u8 {
        if number != 16 && number != 19 {
            assert_eq!(select_version(number), None);
        }
    }
}

#[test]
fn validate_gives_the_validated_form() {
    let mut parameters = submission("d", 16, Some(SOME_SALT));
    parameters.hash_length = Some(24);
    let request = match validate(parameters, CostPolicy::AcceptCallerRisk) {
        Ok(request) => request,
        Err(message) => panic!("turned down: {}", message),
    };
    assert_eq!(request.algorithm, Algorithm::Argon2d);
    assert_eq!(request.version, Version::V0x10);
    assert_eq!(request.memory, 256);
    assert_eq!(request.iterations, 2);
    assert_eq!(request.parallelism, 1);
    assert_eq!(request.hash_length, Some(24));
    assert_eq!(request.password, "password");
    assert_eq!(request.salt, SOME_SALT);
}

#[test]
fn validate_provisions_a_fresh_salt() {
    let request = match validate(submission("id", 19, None), CostPolicy::AcceptCallerRisk) {
        Ok(request) => request,
        Err(message) => panic!("turned down: {}", message),
    };
    assert_eq!(request.salt.len(), 22);
    assert!(request.salt.chars().all(|c| c.is_ascii_alphanumeric() || c == '+' || c == '/'));
}

#[test]
fn validate_reports_the_first_fault() {
    let policy = CostPolicy::Capped { memory: 0, iterations: 0 };
    assert_eq!(
        validate(submission("x", 17, Some("!")), policy).err(),
        Some("Invalid algorithm".to_string())
    );
    assert_eq!(
        validate(submission("i", 17, Some("!")), policy).err(),
        Some("Invalid version".to_string())
    );
    let mut parameters = submission("i", 16, Some("!"));
    parameters.memory = 7;
    assert_eq!(validate(parameters, policy).err(), Some("memory cost is too small".to_string()));
    assert_eq!(
        validate(submission("i", 16, Some("!")), policy).err(),
        Some("Memory cost exceeds the limit".to_string())
    );
    assert_eq!(
        validate(submission("i", 16, Some("!")), CostPolicy::AcceptCallerRisk).err(),
        Some("salt invalid: value to short".to_string())
    );
}

#[test]
fn derive_answers_for_a_validated_request() {
    let request = HashRequest {
        algorithm: Algorithm::Argon2id,
        version: Version::V0x13,
        memory: 256,
        iterations: 2,
        parallelism: 1,
        hash_length: None,
        password: "password".to_string(),
        salt: SOME_SALT.to_string(),
    };
    assert_eq!(
        request.derive(),
        success("$argon2id$v=19$m=256,t=2,p=1$c29tZXNhbHQ$nf65EOgLrQMR/uIPnA4rEsF5h7TKyQwu9U1bMCHGi/4")
    );
}

#[test]
fn answer_parses_the_derived_string_before_it_goes_out() {
    let encoded = "$argon2id$v=19$m=256,t=2,p=1$c29tZXNhbHQ$nf65EOgLrQMR/uIPnA4rEsF5h7TKyQwu9U1bMCHGi/4";
    assert_eq!(answer(Ok(encoded.to_string())), success(encoded));
    assert_eq!(answer(Ok("$argon2id".to_string())), success("$argon2id"));
    assert_eq!(
        answer(Ok("argon2id".to_string())),
        failure("password hash string missing field")
    );
    assert_eq!(answer(Ok(String::new())), failure("password hash string missing field"));
    assert_eq!(
        answer(Ok(format!("{}$more", encoded))),
        failure("password hash string contains trailing characters")
    );
    assert_eq!(
        answer(Ok("$argon2id$v=x$m=256,t=2,p=1$c29tZXNhbHQ".to_string())),
        failure("invalid parameter value: contains invalid character: 'x'")
    );
}

#[test]
fn answer_passes_a_failed_derivation_on() {
    assert_eq!(answer(Err("cryptographic error".to_string())), failure("cryptographic error"));
    assert_eq!(
        answer(Err("$argon2id$v=19$m=256,t=2,p=1".to_string())),
        failure("$argon2id$v=19$m=256,t=2,p=1")
    );
}

#[test]
fn a_cap_turns_down_what_costs_more() {
    let policy = CostPolicy::Capped { memory: 256, iterations: 2 };
    let mut parameters = submission("id", 19, Some(SOME_SALT));
    parameters.memory = 257;
    assert_eq!(hash_within(parameters, policy), rejection("Memory cost exceeds the limit"));
    let mut parameters = submission("id", 19, Some(SOME_SALT));
    parameters.iterations = 3;
    assert_eq!(hash_within(parameters, policy), rejection("Iteration count exceeds the limit"));
    let mut parameters = submission("id", 19, Some(SOME_SALT));
    parameters.memory = u32::MAX;
    parameters.iterations = u32::MAX;
    assert_eq!(hash_within(parameters, policy), rejection("Memory cost exceeds the limit"));
}

#[test]
fn a_cap_lets_pass_what_stays_within() {
    let policy = CostPolicy::Capped { memory: 256, iterations: 2 };
    assert_eq!(
        hash_within(submission("id", 19, Some(SOME_SALT)), policy),
        success("$argon2id$v=19$m=256,t=2,p=1$c29tZXNhbHQ$nf65EOgLrQMR/uIPnA4rEsF5h7TKyQwu9U1bMCHGi/4")
    );
    assert_eq!(
        hash_within(submission("id", 19, Some(SOME_SALT)), policy),
        hash(submission("id", 19, Some(SOME_SALT)))
    );
    let open = CostPolicy::Capped { memory: u32::MAX, iterations: u32::MAX };
    assert_eq!(
        hash_within(submission("i", 16, Some(SOME_SALT)), open),
        hash_within(submission("i", 16, Some(SOME_SALT)), CostPolicy::AcceptCallerRisk)
    );
}

#[test]
fn a_cap_is_judged_after_the_costs_and_before_the_salt() {
    let policy = CostPolicy::Capped { memory: 128, iterations: 1 };
    let mut parameters = submission("id", 19, Some("!"));
    parameters.parallelism = 0;
    assert_eq!(hash_within(parameters, policy), rejection("not enough threads"));
    assert_eq!(
        hash_within(submission("id", 19, Some("!")), policy),
        rejection("Memory cost exceeds the limit")
    );
    let mut parameters = submission("id", 19, Some("!"));
    parameters.memory = 128;
    assert_eq!(hash_within(parameters, policy), rejection("Iteration count exceeds the limit"));
    let mut parameters = submission("id", 19, Some("!"));
    parameters.memory = 128;
    parameters.iterations = 1;
    assert_eq!(hash_within(parameters, policy), rejection("salt invalid: value to short"));
}

#[test]
fn validate_takes_the_largest_costs_without_deriving() {
    let parameters = Argon2idParameters {
        algorithm: "id".to_string(),
        password: "password".to_string(),
        salt: Some(SOME_SALT.to_string()),
        version: 19,
        parallelism: 0xFF_FFFF,
        memory: u32::MAX,
        iterations: u32::MAX,
        hash_length: Some(0xFFFF_FFFF),
    };
    let request = match validate(parameters, CostPolicy::AcceptCallerRisk) {
        Ok(request) => request,
        Err(message) => panic!("turned down: {}", message),
    };
    assert_eq!(request.memory, u32::MAX);
    assert_eq!(request.iterations, u32::MAX);
    assert_eq!(request.parallelism, 0xFF_FFFF);
}
