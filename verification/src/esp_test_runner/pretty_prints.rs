use vstd::prelude::*;

verus! {

pub const BLUE_ANSI: &'static str = "\x1b[34m";
pub const RED_ANSI: &'static str = "\x1b[31m";
pub const GREEN_ANSI: &'static str = "\x1b[32m";
pub const YELLOW_ANSI: &'static str = "\x1b[33m";
pub const LIGHTBLUE_ANSI: &'static str = "\x1b[96m";
pub const RESET_ANSI: &'static str = "\x1b[0m";
pub const BROWN_ANSI: &'static str = "\x1b[38;5;94m";
pub const TEST_SEPARATOR: &'static str = "======================";

/// The character of a decimal digit.
pub open spec fn digit_char(d: int) -> char {
    if d == 0 {
        '0'
    } else if d == 1 {
        '1'
    } else if d == 2 {
        '2'
    } else if d == 3 {
        '3'
    } else if d == 4 {
        '4'
    } else if d == 5 {
        '5'
    } else if d == 6 {
        '6'
    } else if d == 7 {
        '7'
    } else if d == 8 {
        '8'
    } else {
        '9'
    }
}

/// The decimal digits of a number, without leading zeros.
pub open spec fn decimal(n: nat) -> Seq<char>
    decreases n,
{
    if n < 10 {
        seq![digit_char(n as int)]
    } else {
        decimal(n / 10).push(digit_char((n % 10) as int))
    }
}

/// The text of a decimal digit.
fn digit_str(d: u8) -> (res: &'static str)
    requires
        d < 10,
    ensures
        res@ == seq![digit_char(d as int)],
{
    proof {
        reveal_strlit("0");
        reveal_strlit("1");
        reveal_strlit("2");
        reveal_strlit("3");
        reveal_strlit("4");
        reveal_strlit("5");
        reveal_strlit("6");
        reveal_strlit("7");
        reveal_strlit("8");
        reveal_strlit("9");
    }
    match d {
        0 => "0",
        1 => "1",
        2 => "2",
        3 => "3",
        4 => "4",
        5 => "5",
        6 => "6",
        7 => "7",
        8 => "8",
        _ => "9",
    }
}

/// Appends the decimal digits of `n` to `s`.
pub fn push_decimal(s: &mut String, n: u8)
    ensures
        final(s)@ == old(s)@ + decimal(n as nat),
{
    if n >= 100 {
        s.append(digit_str(n / 100));
        s.append(digit_str((n / 10) % 10));
        s.append(digit_str(n % 10));
        assert(decimal(n as nat) =~= seq![
            digit_char((n / 100) as int),
            digit_char(((n / 10) % 10) as int),
            digit_char((n % 10) as int),
        ]) by {
            assert(decimal((n / 10) as nat) == decimal((n / 100) as nat).push(
                digit_char(((n / 10) % 10) as int),
            ));
        }
    } else if n >= 10 {
        s.append(digit_str(n / 10));
        s.append(digit_str(n % 10));
        assert(decimal(n as nat) =~= seq![
            digit_char((n / 10) as int),
            digit_char((n % 10) as int),
        ]) by {
            assert(decimal((n / 10) as nat) == seq![digit_char((n / 10) as int)]);
        }
    } else {
        s.append(digit_str(n));
    }
}

/// The decimal text of a number.
pub fn decimal_string(n: u8) -> (res: String)
    ensures
        res@ == decimal(n as nat),
{
    let mut s = String::new();
    push_decimal(&mut s, n);
    assert(s@ =~= decimal(n as nat));
    s
}

/// Text in the given color: the color code, the text, the reset code.
pub open spec fn colored(color: Seq<char>, text: Seq<char>) -> Seq<char> {
    color + text + RESET_ANSI@
}

/// The identification of a test in the given color: "Test: N " in the color,
/// then the test's name and a space.
pub open spec fn test_id(color: Seq<char>, test_number: u8, test_name: Seq<char>) -> Seq<char> {
    colored(color, "Test: "@ + decimal(test_number as nat) + " "@) + test_name + " "@
}

/// The identification of a test in the given color.
pub fn get_test_id(color: &str, test_number: u8, test_name: &str) -> (res: String)
    ensures
        res@ == test_id(color@, test_number, test_name@),
{
    let mut s = String::from_str(color);
    s.append("Test: ");
    push_decimal(&mut s, test_number);
    s.append(" ");
    s.append(RESET_ANSI);
    s.append(test_name);
    s.append(" ");
    assert(s@ =~= test_id(color@, test_number, test_name@));
    s
}

/// The line shown before a test runs.
pub fn executing_test_message(test_number: u8, test_name: &str) -> (res: String)
    ensures
        res@ == colored(BLUE_ANSI@, "Executing "@) + test_id(BLUE_ANSI@, test_number, test_name@)
            + " ..."@,
{
    let mut s = String::from_str(BLUE_ANSI);
    s.append("Executing ");
    s.append(RESET_ANSI);
    let id = get_test_id(BLUE_ANSI, test_number, test_name);
    s.append(id.as_str());
    s.append(" ...");
    assert(s@ =~= colored(BLUE_ANSI@, "Executing "@) + test_id(BLUE_ANSI@, test_number, test_name@)
        + " ..."@);
    s
}

/// The line shown for a test that failed, with the reason.
pub fn failing_test_message(test_number: u8, test_name: &str, reason: &str) -> (res: String)
    ensures
        res@ == test_id(BLUE_ANSI@, test_number, test_name@) + colored(
            RED_ANSI@,
            "failed, "@ + reason@,
        ),
{
    let mut s = get_test_id(BLUE_ANSI, test_number, test_name);
    s.append(RED_ANSI);
    s.append("failed, ");
    s.append(reason);
    s.append(RESET_ANSI);
    assert(s@ =~= test_id(BLUE_ANSI@, test_number, test_name@) + colored(
        RED_ANSI@,
        "failed, "@ + reason@,
    ));
    s
}

/// The line shown for a test that passed.
pub fn passing_test_message(test_number: u8, test_name: &str) -> (res: String)
    ensures
        res@ == test_id(BLUE_ANSI@, test_number, test_name@) + colored(
            GREEN_ANSI@,
            "was successfull"@,
        ),
{
    let mut s = get_test_id(BLUE_ANSI, test_number, test_name);
    s.append(GREEN_ANSI);
    s.append("was successfull");
    s.append(RESET_ANSI);
    assert(s@ =~= test_id(BLUE_ANSI@, test_number, test_name@) + colored(
        GREEN_ANSI@,
        "was successfull"@,
    ));
    s
}

/// The line shown for a test that was not executed, with the reason.
pub fn not_executed_test_message(test_number: u8, test_name: &str, reason: &str) -> (res: String)
    ensures
        res@ == test_id(BLUE_ANSI@, test_number, test_name@) + colored(
            YELLOW_ANSI@,
            "not executed due to: "@ + reason@,
        ),
{
    let mut s = get_test_id(BLUE_ANSI, test_number, test_name);
    s.append(YELLOW_ANSI);
    s.append("not executed due to: ");
    s.append(reason);
    s.append(RESET_ANSI);
    assert(s@ =~= test_id(BLUE_ANSI@, test_number, test_name@) + colored(
        YELLOW_ANSI@,
        "not executed due to: "@ + reason@,
    ));
    s
}

/// The line shown once all tests ran.
pub fn end_of_tests_message() -> (res: String)
    ensures
        res@ == colored(BROWN_ANSI@, "Finished Executing tests"@),
{
    let mut s = String::from_str(BROWN_ANSI);
    s.append("Finished Executing tests");
    s.append(RESET_ANSI);
    assert(s@ =~= colored(BROWN_ANSI@, "Finished Executing tests"@));
    s
}

/// The line that separates tests.
pub fn test_separator_message() -> (res: String)
    ensures
        res@ == colored(LIGHTBLUE_ANSI@, TEST_SEPARATOR@),
{
    let mut s = String::from_str(LIGHTBLUE_ANSI);
    s.append(TEST_SEPARATOR);
    s.append(RESET_ANSI);
    assert(s@ =~= colored(LIGHTBLUE_ANSI@, TEST_SEPARATOR@));
    s
}

/// The line with the statistics of a test run.
pub fn tests_statistics_message(
    test_quantity: u8,
    failed_tests: u8,
    skipped_tests: u8,
    successfull_tests: u8,
) -> (res: String)
    ensures
        res@ == colored(BROWN_ANSI@, "Test quantity "@ + decimal(test_quantity as nat)) + ": "@
            + colored(GREEN_ANSI@, "Successfull tests: "@ + decimal(successfull_tests as nat))
            + " | "@ + colored(RED_ANSI@, "Failed tests: "@ + decimal(failed_tests as nat))
            + " | "@ + colored(YELLOW_ANSI@, "Skipped tests: "@ + decimal(skipped_tests as nat)),
{
    let mut s = String::from_str(BROWN_ANSI);
    s.append("Test quantity ");
    push_decimal(&mut s, test_quantity);
    s.append(RESET_ANSI);
    s.append(": ");
    s.append(GREEN_ANSI);
    s.append("Successfull tests: ");
    push_decimal(&mut s, successfull_tests);
    s.append(RESET_ANSI);
    s.append(" | ");
    s.append(RED_ANSI);
    s.append("Failed tests: ");
    push_decimal(&mut s, failed_tests);
    s.append(RESET_ANSI);
    s.append(" | ");
    s.append(YELLOW_ANSI);
    s.append("Skipped tests: ");
    push_decimal(&mut s, skipped_tests);
    s.append(RESET_ANSI);
    assert(s@ =~= colored(BROWN_ANSI@, "Test quantity "@ + decimal(test_quantity as nat)) + ": "@
        + colored(GREEN_ANSI@, "Successfull tests: "@ + decimal(successfull_tests as nat)) + " | "@
        + colored(RED_ANSI@, "Failed tests: "@ + decimal(failed_tests as nat)) + " | "@ + colored(
        YELLOW_ANSI@,
        "Skipped tests: "@ + decimal(skipped_tests as nat),
    ));
    s
}

} // verus!
