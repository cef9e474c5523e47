use automated_fund_transfer::address::{Account, AddressError};

const SYSTEM_PROGRAM: &str = "11111111111111111111111111111111";

#[test]
fn parse_reads_the_system_program() {
    let account = Account::parse(SYSTEM_PROGRAM).unwrap();
    assert_eq!(account.key, [0u8; 32]);
    assert_eq!(account.text, SYSTEM_PROGRAM);
}

#[test]
fn parse_reads_the_bytes_of_an_address() {
    let account = Account::parse("14grJpemFaf88c8tiVb77W7TYg2W3ir6pfkKz3YjhhZ5").unwrap();
    assert_eq!(
        account.key,
        [
            0, 241, 205, 21, 98, 197, 161, 141, 68, 210, 12, 55, 236, 235, 224, 165, 76, 164,
            157, 119, 100, 117, 217, 202, 44, 199, 84, 239, 142, 185, 1, 36
        ]
    );
    assert_eq!(account.text, "14grJpemFaf88c8tiVb77W7TYg2W3ir6pfkKz3YjhhZ5");
}

#[test]
fn parse_reads_the_vote_program() {
    let account = Account::parse("Vote111111111111111111111111111111111111111").unwrap();
    assert_eq!(
        account.key,
        [
            7, 97, 72, 29, 53, 116, 116, 187, 124, 77, 118, 36, 235, 211, 189, 179, 216, 53, 94,
            115, 209, 16, 67, 252, 13, 163, 83, 128, 0, 0, 0, 0
        ]
    );
}

#[test]
fn from_key_writes_base58() {
    assert_eq!(Account::from_key([0u8; 32]).text, SYSTEM_PROGRAM);
    let mut one = [0u8; 32];
    one[31] = 1;
    assert_eq!(Account::from_key(one).text, "11111111111111111111111111111112");
    assert_eq!(
        Account::from_key([255u8; 32]).text,
        "JEKNVnkbo3jma5nREBBJCDoXFVeKkD56V3xKrvRmWxFG"
    );
    let mut counting = [0u8; 32];
    for (index, byte) in counting.iter_mut().enumerate() {
        *byte = index as u8 + 1;
    }
    let account = Account::from_key(counting);
    assert_eq!(account.key, counting);
    assert_eq!(account.text, "4wBqpZM9xaSheZzJSMawUKKwhdpChKbZ5eu5ky4Vigw");
}

#[test]
fn from_key_and_parse_undo_each_other() {
    let mut key = [0u8; 32];
    for (index, byte) in key.iter_mut().enumerate() {
        *byte = (index as u8).wrapping_mul(37).wrapping_add(11);
    }
    let shown = Account::from_key(key);
    let read = Account::parse(&shown.text).unwrap();
    assert_eq!(read, shown);
    assert_eq!(read.key, key);
}

#[test]
fn parse_refuses_characters_outside_base58() {
    assert_eq!(Account::parse("0"), Err(AddressError::Invalid));
    assert_eq!(Account::parse("not an address"), Err(AddressError::Invalid));
    assert_eq!(
        Account::parse("O1111111111111111111111111111111"),
        Err(AddressError::Invalid)
    );
    assert_eq!(
        Account::parse("1111111111111111111111111111111l"),
        Err(AddressError::Invalid)
    );
}

#[test]
fn parse_refuses_the_wrong_size() {
    assert_eq!(Account::parse(""), Err(AddressError::WrongSize));
    assert_eq!(Account::parse("1"), Err(AddressError::WrongSize));
    assert_eq!(Account::parse("1111111111111111111111111111111"), Err(AddressError::WrongSize));
    assert_eq!(
        Account::parse("111111111111111111111111111111111"),
        Err(AddressError::WrongSize)
    );
    // 45 characters: longer than any address.
    assert_eq!(
        Account::parse("JEKNVnkbo3jma5nREBBJCDoXFVeKkD56V3xKrvRmWxFGa"),
        Err(AddressError::WrongSize)
    );
    // 44 characters that decode to more than 32 bytes.
    assert_eq!(
        Account::parse("zzzzzzzzzzzzzzzzzzzzzzzzzzzzzzzzzzzzzzzzzzzz"),
        Err(AddressError::WrongSize)
    );
}
