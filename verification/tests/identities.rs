use action_hero::github::Config;
use action_hero::identity::{
    derive_trace_identity, form_identity_input, identity_from_digest, identity_hex,
};

fn config(devel: bool) -> Config {
    Config {
        owner: "octo".to_string(),
        repository: "hello".to_string(),
        workflow: "check.yaml".to_string(),
        devel,
    }
}

#[test]
fn identity_is_first_half_of_sha256() {
    let identity = derive_trace_identity(&config(false), 42, 7);
    assert_eq!(identity, 123062004483973339511106122155046673799u128);
    assert_eq!(identity_hex(identity), "5c94e14416b081602476da063dd71d87");
}

#[test]
fn identity_is_reproducible_outside_development() {
    let first = derive_trace_identity(&config(false), 42, 1);
    let second = derive_trace_identity(&config(false), 42, 2);
    assert_eq!(first, second);
    assert_ne!(first, derive_trace_identity(&config(false), 43, 1));
}

#[test]
fn identity_depends_on_process_in_development() {
    let first = derive_trace_identity(&config(true), 42, 1);
    let second = derive_trace_identity(&config(true), 42, 2);
    assert_ne!(first, second);
    assert_eq!(identity_hex(first), "db75801386be2a48dee2b654d306b7a4");
    assert_eq!(identity_hex(second), "6b980651f55564271e8fc97050ea6a71");
    assert_eq!(
        identity_hex(derive_trace_identity(&config(true), 42, 4242)),
        "f6fd150f3e7142e097ed97799068e96a"
    );
}

#[test]
fn identity_input_is_delimited_text() {
    assert_eq!(form_identity_input(&config(false), 42, 9), b"octo:hello:check.yaml:42".to_vec());
    let mut expected = b"octo:hello:check.yaml:42".to_vec();
    expected.extend_from_slice(&[0x92, 0x10, 0, 0]);
    assert_eq!(form_identity_input(&config(true), 42, 4242), expected);
}

#[test]
fn identity_hex_has_no_leading_zero() {
    let identity = derive_trace_identity(&config(false), 2, 0);
    assert_eq!(identity_hex(identity), "c530619cc746874bc30f161c2de0587");
    assert_eq!(identity_hex(0), "0");
    assert_eq!(identity_hex(255), "ff");
    assert_eq!(identity_hex(u128::MAX), "ffffffffffffffffffffffffffffffff");
}

#[test]
fn identity_reads_digest_high_byte_first() {
    let mut digest = [0u8; 32];
    digest[15] = 1;
    digest[16] = 0xff;
    assert_eq!(identity_from_digest(&digest), 1);
    digest[0] = 0x80;
    assert_eq!(identity_from_digest(&digest), (1u128 << 127) + 1);
}
