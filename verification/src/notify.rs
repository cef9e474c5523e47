//! The message that reports a transfer, and how the reply to it is read.

use vstd::prelude::*;
use vstd::string::StringExecFns;

verus! {

/// Why a notification did not arrive.
#[derive(Clone, Copy, Debug, PartialEq, Eq, Structural)]
pub enum NotifyError {
    /// The endpoint answered with a status outside 200..=299.
    Status(u16),
    /// No answer came back.
    Transport,
}

/// The endpoint took the message: its status is one of 200..=299.
pub open spec fn is_success_status(status: u16) -> bool {
    200 <= status < 300
}

/// What [`delivery_result`] returns for a reply.
pub open spec fn delivery_result_spec(reply: Option<u16>) -> Result<(), NotifyError> {
    match reply {
        None => Err(NotifyError::Transport),
        Some(status) => if is_success_status(status) {
            Ok(())
        } else {
            Err(NotifyError::Status(status))
        },
    }
}

/// Reads the reply to a notification: the status that the endpoint answered
/// with, or `None` where the request brought no answer.
pub fn delivery_result(reply: Option<u16>) -> (result: Result<(), NotifyError>)
    ensures
        result == delivery_result_spec(reply),
{
    match reply {
        None => Err(NotifyError::Transport),
        Some(status) => if 200 <= status && status < 300 {
            Ok(())
        } else {
            Err(NotifyError::Status(status))
        },
    }
}

/// The character of one decimal digit.
pub open spec fn digit_char(digit: nat) -> char {
    if digit == 0 {
        '0'
    } else if digit == 1 {
        '1'
    } else if digit == 2 {
        '2'
    } else if digit == 3 {
        '3'
    } else if digit == 4 {
        '4'
    } else if digit == 5 {
        '5'
    } else if digit == 6 {
        '6'
    } else if digit == 7 {
        '7'
    } else if digit == 8 {
        '8'
    } else {
        '9'
    }
}

/// A number in decimal, without sign or leading zeros.
pub open spec fn decimal_digits(n: nat) -> Seq<char>
    decreases n,
{
    if n < 10 {
        seq![digit_char(n)]
    } else {
        decimal_digits(n / 10).push(digit_char(n % 10))
    }
}

/// The text that reports a confirmed transfer.
pub open spec fn transfer_text(
    lamports: u64,
    sender: Seq<char>,
    receiver: Seq<char>,
    signature: Seq<char>,
) -> Seq<char> {
    "Transferred "@ + decimal_digits(lamports as nat) + " Lamports from "@ + sender + " to "@
        + receiver + ". Signature: "@ + signature
}

fn digit_text(digit: u64) -> (text: &'static str)
    requires
        digit < 10,
    ensures
        text@ == seq![digit_char(digit as nat)],
{
    proof {
        reveal_strlit("0");
        reveal_strlit("1");
        reveal_strlit("2");
        reveal_strlit("3");
        reveal_strlit("4");
        reveal_strlit("5");
        reveal_strlit("6");
        reveal_strlit("7");
        reveal_strlit("8");
        reveal_strlit("9");
    }
    let text = if digit == 0 {
        "0"
    } else if digit == 1 {
        "1"
    } else if digit == 2 {
        "2"
    } else if digit == 3 {
        "3"
    } else if digit == 4 {
        "4"
    } else if digit == 5 {
        "5"
    } else if digit == 6 {
        "6"
    } else if digit == 7 {
        "7"
    } else if digit == 8 {
        "8"
    } else {
        "9"
    };
    assert(text@ =~= seq![digit_char(digit as nat)]);
    text
}

fn append_decimal(out: &mut String, n: u64)
    ensures
        final(out)@ == old(out)@ + decimal_digits(n as nat),
    decreases n,
{
    if n >= 10 {
        append_decimal(out, n / 10);
    }
    out.append(digit_text(n % 10));
    assert(out@ =~= old(out)@ + decimal_digits(n as nat));
}

/// Writes the message that reports a confirmed transfer: the amount in
/// lamports, who sent it, who received it, and the confirmation's signature.
pub fn transfer_message(lamports: u64, sender: &str, receiver: &str, signature: &str) -> (text:
    String)
    ensures
        text@ == transfer_text(lamports, sender@, receiver@, signature@),
{
    let mut text = String::new();
    text.append("Transferred ");
    append_decimal(&mut text, lamports);
    text.append(" Lamports from ");
    text.append(sender);
    text.append(" to ");
    text.append(receiver);
    text.append(". Signature: ");
    text.append(signature);
    assert(text@ =~= transfer_text(lamports, sender@, receiver@, signature@));
    text
}

/// The digit that a character stands for, and 0 for any other character.
pub open spec fn digit_value(c: char) -> nat {
    if c == '1' {
        1
    } else if c == '2' {
        2
    } else if c == '3' {
        3
    } else if c == '4' {
        4
    } else if c == '5' {
        5
    } else if c == '6' {
        6
    } else if c == '7' {
        7
    } else if c == '8' {
        8
    } else if c == '9' {
        9
    } else {
        0
    }
}

/// The number that a run of decimal digits stands for.
pub open spec fn decimal_value(digits: Seq<char>) -> nat
    decreases digits.len(),
{
    if digits.len() == 0 {
        0
    } else {
        10 * decimal_value(digits.drop_last()) + digit_value(digits.last())
    }
}

/// The decimal form of a number is made of digits, has no leading zero but
/// for zero itself, and reads back as the number.
pub proof fn lemma_decimal_digits_denote(n: nat)
    ensures
        decimal_digits(n).len() >= 1,
        forall|i: int|
            0 <= i < decimal_digits(n).len() ==> #[trigger] decimal_digits(n)[i] == digit_char(
                digit_value(decimal_digits(n)[i]),
            ),
        n > 0 ==> decimal_digits(n).first() != '0',
        decimal_value(decimal_digits(n)) == n,
    decreases n,
{
    if n < 10 {
        assert(decimal_digits(n).drop_last() =~= Seq::<char>::empty());
        assert(decimal_value(Seq::<char>::empty()) == 0);
    } else {
        lemma_decimal_digits_denote(n / 10);
        let front = decimal_digits(n / 10);
        assert(decimal_digits(n).drop_last() =~= front);
        assert(decimal_digits(n).first() == front.first());
    }
}

} // verus!
