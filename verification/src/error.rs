//! The ways a search, or the steps around it, can fail.

use vstd::prelude::*;
use vstd::string::StringExecFns;

verus! {

/// Why no key was delivered.
#[derive(Debug)]
pub enum SearchError {
    /// The algorithm identifier names no supported key family.
    Configuration { algorithm: String },
    /// The key generator failed. The search stops; it does not try again.
    Generation { detail: String },
    /// A public key could not be rendered as text. The search stops.
    Encoding { detail: String },
    /// The budget was used up without a match. The search itself went well.
    BudgetExhausted { attempts: u32 },
    /// No directory was named for the keys and no home directory is known.
    HomeDirectory,
}

/// The character of a decimal digit.
pub open spec fn digit_char(digit: nat) -> char
    recommends
        digit < 10,
{
    if digit == 0 {
        '0'
    } else if digit == 1 {
        '1'
    } else if digit == 2 {
        '2'
    } else if digit == 3 {
        '3'
    } else if digit == 4 {
        '4'
    } else if digit == 5 {
        '5'
    } else if digit == 6 {
        '6'
    } else if digit == 7 {
        '7'
    } else if digit == 8 {
        '8'
    } else {
        '9'
    }
}

/// A number written in decimal, without leading zeros.
pub open spec fn decimal(n: nat) -> Seq<char>
    decreases n,
{
    if n < 10 {
        seq![digit_char(n)]
    } else {
        decimal(n / 10).push(digit_char(n % 10))
    }
}

/// The message that stands for an error.
pub open spec fn message_of(error: SearchError) -> Seq<char> {
    match error {
        SearchError::Configuration { algorithm } => "Unsupported algorithm: "@ + algorithm@,
        SearchError::Generation { detail } => detail@,
        SearchError::Encoding { detail } => detail@,
        SearchError::BudgetExhausted { attempts } => "Failed to find matching key after "@
            + decimal(attempts as nat) + " attempts"@,
        SearchError::HomeDirectory => "Cannot find home directory"@,
    }
}

fn digit_text(digit: u32) -> (text: &'static str)
    requires
        digit < 10,
    ensures
        text@ == seq![digit_char(digit as nat)],
{
    proof {
        reveal_strlit("0");
        reveal_strlit("1");
        reveal_strlit("2");
        reveal_strlit("3");
        reveal_strlit("4");
        reveal_strlit("5");
        reveal_strlit("6");
        reveal_strlit("7");
        reveal_strlit("8");
        reveal_strlit("9");
    }
    let text = if digit == 0 {
        "0"
    } else if digit == 1 {
        "1"
    } else if digit == 2 {
        "2"
    } else if digit == 3 {
        "3"
    } else if digit == 4 {
        "4"
    } else if digit == 5 {
        "5"
    } else if digit == 6 {
        "6"
    } else if digit == 7 {
        "7"
    } else if digit == 8 {
        "8"
    } else {
        "9"
    };
    assert(text@ =~= seq![digit_char(digit as nat)]);
    text
}

/// Appends the decimal digits of `n` to `out`.
pub fn push_decimal(out: &mut String, n: u32)
    ensures
        final(out)@ == old(out)@ + decimal(n as nat),
    decreases n,
{
    if n >= 10 {
        push_decimal(out, n / 10);
    }
    out.append(digit_text(n % 10));
    assert(out@ =~= old(out)@ + decimal(n as nat));
}

impl SearchError {
    /// The text to show for this error.
    pub fn message(&self) -> (text: String)
        ensures
            text@ == message_of(*self),
    {
        match self {
            SearchError::Configuration { algorithm } => {
                String::from_str("Unsupported algorithm: ").concat(algorithm.as_str())
            },
            SearchError::Generation { detail } => detail.clone(),
            SearchError::Encoding { detail } => detail.clone(),
            SearchError::BudgetExhausted { attempts } => {
                let mut text = String::from_str("Failed to find matching key after ");
                push_decimal(&mut text, *attempts);
                text.append(" attempts");
                text
            },
            SearchError::HomeDirectory => String::from_str("Cannot find home directory"),
        }
    }
}

} // verus!
