use voice_bot::guild_id::{guild_id_from, parse_u64, GuildIdError};

#[test]
fn accepts_plain_ids() {
    assert_eq!(guild_id_from("123456789012345678"), Ok(123456789012345678));
    assert_eq!(guild_id_from("1"), Ok(1));
    assert_eq!(guild_id_from("+5"), Ok(5));
    assert_eq!(guild_id_from("007"), Ok(7));
    assert_eq!(guild_id_from("18446744073709551615"), Ok(u64::MAX));
}

#[test]
fn refuses_zero() {
    assert_eq!(guild_id_from("0"), Err(GuildIdError::Zero));
    assert_eq!(guild_id_from("+000"), Err(GuildIdError::Zero));
}

#[test]
fn refuses_non_integers() {
    for text in ["", "+", "-5", "-0", " 12", "12 ", "1_000", "abc", "12a", "++1", "18446744073709551616", "99999999999999999999999", "１２"] {
        assert_eq!(guild_id_from(text), Err(GuildIdError::NotAnInteger), "{text:?}");
    }
}

#[test]
fn parse_agrees_with_std() {
    let samples = [
        "", "+", "-", "0", "+0", "42", "+42", "-42", "4 2", "18446744073709551615", "18446744073709551616",
        "00000000000000000000000001", "x1", "1x", "9", "10", "184467440737095516150",
    ];
    for text in samples {
        assert_eq!(parse_u64(text), text.parse::<u64>().ok(), "{text:?}");
    }
}
