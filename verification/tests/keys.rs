use web_ops::api::new_idempotency_key;
use web_ops::api::service_accounts::{generate_service_account_bearer, service_account_bearer_from};

fn is_lower_hex(c: char) -> bool {
    c.is_ascii_digit() || ('a'..='f').contains(&c)
}

#[test]
fn idempotency_keys_are_hyphenated_version_four_uuids() {
    let key = new_idempotency_key();
    let chars: Vec<char> = key.chars().collect();
    assert_eq!(chars.len(), 36);
    for (i, c) in chars.iter().enumerate() {
        if [8, 13, 18, 23].contains(&i) {
            assert_eq!(*c, '-');
        } else {
            assert!(is_lower_hex(*c));
        }
    }
    assert_eq!(chars[14], '4');
    assert!(['8', '9', 'a', 'b'].contains(&chars[19]));
    assert_ne!(new_idempotency_key(), key);
}

#[test]
fn service_account_bearers_take_48_random_hex_digits() {
    let bearer = generate_service_account_bearer();
    assert_eq!(bearer.len(), 55);
    assert!(bearer.starts_with("wbs_sa_"));
    assert!(bearer[7..].chars().all(is_lower_hex));
    let chars: Vec<char> = bearer.chars().collect();
    assert_eq!(chars[19], '4');
    assert!(['8', '9', 'a', 'b'].contains(&chars[23]));
    assert_eq!(chars[51], '4');
    assert_ne!(generate_service_account_bearer(), bearer);
    assert_eq!(service_account_bearer_from("ab", "cd"), "wbs_sa_abcd");
    let long = "0123456789".repeat(6);
    assert_eq!(service_account_bearer_from(&long, "x"), format!("wbs_sa_{}", &long[..48]));
}
