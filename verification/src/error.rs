//! The ways in which a budgeted call fails, and their texts.
use vstd::prelude::*;
use vstd::string::StringExecFns;

verus! {

/// Why a budgeted call gave no response.
#[derive(Debug)]
pub enum BudgetedError {
    /// The call needed a reservation larger than the available budget.
    ReservationFailed { required: u64 },
    /// The usage that the provider reported costs more than was reserved (assumption
    /// A1: a reservation covers the call). The receipt is forfeited.
    A1Violation { reservation: u64, actual: u64 },
    /// The provider call failed, with its text. The receipt is forfeited.
    CallFailed(String),
    /// The unused part of the reservation could not be given back.
    RefundFailed,
}

/// The character of a decimal digit.
pub open spec fn digit_char(digit: nat) -> char {
    (('0' as u32) + digit) as char
}

/// The decimal digits of a number, without leading zeros.
pub open spec fn decimal_text(number: nat) -> Seq<char>
    decreases number,
{
    if number < 10 {
        seq![digit_char(number)]
    } else {
        decimal_text(number / 10).push(digit_char(number % 10))
    }
}

fn digit(value: u64) -> (text: &'static str)
    requires
        value < 10,
    ensures
        text@ == seq![digit_char(value as nat)],
{
    proof {
        reveal_strlit("0");
        reveal_strlit("1");
        reveal_strlit("2");
        reveal_strlit("3");
        reveal_strlit("4");
        reveal_strlit("5");
        reveal_strlit("6");
        reveal_strlit("7");
        reveal_strlit("8");
        reveal_strlit("9");
    }
    match value {
        0 => "0",
        1 => "1",
        2 => "2",
        3 => "3",
        4 => "4",
        5 => "5",
        6 => "6",
        7 => "7",
        8 => "8",
        _ => "9",
    }
}

fn decimal(number: u64) -> (text: String)
    ensures
        text@ == decimal_text(number as nat),
    decreases number,
{
    if number < 10 {
        String::from_str(digit(number))
    } else {
        decimal(number / 10).concat(digit(number % 10))
    }
}

impl BudgetedError {
    /// The text of the error.
    pub open spec fn text(self) -> Seq<char> {
        match self {
            BudgetedError::ReservationFailed { required } => {
                "budget reservation failed: required "@ + decimal_text(required as nat)
                    + " nano-cents"@
            },
            BudgetedError::A1Violation { reservation, actual } => {
                "A1 violation: reservation "@ + decimal_text(reservation as nat) + " < actual "@
                    + decimal_text(actual as nat)
            },
            BudgetedError::CallFailed(cause) => "provider call failed: "@ + cause@,
            BudgetedError::RefundFailed => "refund accounting failed"@,
        }
    }

    /// Writes out the text of the error.
    pub fn message(&self) -> (message: String)
        ensures
            message@ == self.text(),
    {
        match self {
            BudgetedError::ReservationFailed { required } => {
                String::from_str("budget reservation failed: required ").concat(
                    decimal(*required).as_str(),
                ).concat(" nano-cents")
            },
            BudgetedError::A1Violation { reservation, actual } => {
                String::from_str("A1 violation: reservation ").concat(
                    decimal(*reservation).as_str(),
                ).concat(" < actual ").concat(decimal(*actual).as_str())
            },
            BudgetedError::CallFailed(cause) => {
                String::from_str("provider call failed: ").concat(cause.as_str())
            },
            BudgetedError::RefundFailed => String::from_str("refund accounting failed"),
        }
    }
}

/// The decimal text of a number is made of digits, has no leading zero, and reads back as
/// the number.
pub proof fn law_decimal_text_reads_back(number: nat)
    ensures
        decimal_text(number).len() > 0,
        forall|i: int|
            0 <= i < decimal_text(number).len() ==> '0' as int <= (
            #[trigger] decimal_text(number)[i]) as int <= '9' as int,
        number > 0 ==> decimal_text(number)[0] != '0',
        number == 0 ==> decimal_text(number).len() == 1,
        decimal_text(number).fold_left(
            0int,
            |value: int, digit: char| 10 * value + (digit as int - '0' as int),
        ) == number,
    decreases number,
{
    let read = |value: int, digit: char| 10 * value + (digit as int - '0' as int);
    let text = decimal_text(number);
    if number < 10 {
        assert(text.drop_last() =~= Seq::<char>::empty());
        reveal_with_fuel(Seq::fold_left, 2);
    } else {
        law_decimal_text_reads_back(number / 10);
        assert(text.drop_last() =~= decimal_text(number / 10));
        assert(text.fold_left(0int, read) == read(
            decimal_text(number / 10).fold_left(0int, read),
            text.last(),
        ));
    }
}

/// The text of an error says what failed and carries the amounts of the error, or the text
/// of the provider's error, in full.
pub proof fn law_text_carries_what_failed(
    required: u64,
    reservation: u64,
    actual: u64,
    cause: String,
)
    ensures
        (BudgetedError::ReservationFailed { required }).text()
            == "budget reservation failed: required "@ + decimal_text(required as nat)
            + " nano-cents"@,
        (BudgetedError::A1Violation { reservation, actual }).text()
            == "A1 violation: reservation "@ + decimal_text(reservation as nat) + " < actual "@
            + decimal_text(actual as nat),
        BudgetedError::CallFailed(cause).text() == "provider call failed: "@ + cause@,
        BudgetedError::RefundFailed.text() == "refund accounting failed"@,
{
}

} // verus!
