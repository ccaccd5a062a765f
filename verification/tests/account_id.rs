use steam_webapi_rust_sdk::{convert_32bit_account_id_to_64bit, convert_64bit_account_id_to_32bit};

#[test]
fn test_steam_32bit_to_64bit_id_conversion() {
    let _32bit_id = 95816;

    let converted = convert_32bit_account_id_to_64bit(_32bit_id);

    let expected_id = 76561197960361544;
    assert_eq!(expected_id, converted);
}

#[test]
fn test_steam_64bit_to_32bit_id_conversion() {
    let _64bit_id = 76561199148118849;

    let converted = convert_64bit_account_id_to_32bit(_64bit_id);

    let expected_id = 1187853121;
    assert_eq!(expected_id, converted);
}

#[test]
fn test_steam_64bit_to_32bit_id_conversion_v2() {
    let _64bit_id = 76561197998367327;

    let converted = convert_64bit_account_id_to_32bit(_64bit_id);

    let expected_id = 38101599;
    assert_eq!(expected_id, converted);
}

#[test]
fn conversion_of_the_sample_id_goes_both_ways() {
    assert_eq!(convert_32bit_account_id_to_64bit(95816), 76561197960361544);
    assert_eq!(convert_64bit_account_id_to_32bit(76561197960361544), 95816);
}

#[test]
fn conversions_undo_each_other() {
    for account_id in [0_i64, 1, 95816, 38101599, 1187853121, 4294967295] {
        let long = convert_32bit_account_id_to_64bit(account_id);
        assert_eq!(convert_64bit_account_id_to_32bit(long), account_id);
    }
    for account_id in [76561197960265728_i64, 76561199148118849, 76561197998367327] {
        let short = convert_64bit_account_id_to_32bit(account_id);
        assert_eq!(convert_32bit_account_id_to_64bit(short), account_id);
    }
}

#[test]
fn conversion_reaches_the_ends_of_the_range() {
    assert_eq!(convert_32bit_account_id_to_64bit(0), 76561197960265728);
    assert_eq!(convert_64bit_account_id_to_32bit(76561197960265728), 0);
    assert_eq!(
        convert_32bit_account_id_to_64bit(i64::MAX - 76561197960265728),
        i64::MAX
    );
    assert_eq!(
        convert_64bit_account_id_to_32bit(i64::MIN + 76561197960265728),
        i64::MIN
    );
    assert_eq!(convert_32bit_account_id_to_64bit(-76561197960265728), 0);
}
