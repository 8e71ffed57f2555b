//! The record by which an algorithm module announces itself.

use crate::text::{decimal_digits, decimal_text};
use vstd::prelude::*;
use vstd::string::StringExecFns;

verus! {

/// How much price history an algorithm asks for.
#[derive(Clone, Copy, Debug, PartialEq, Eq, Structural)]
pub enum DataLength {
    /// Exactly this many prices.
    Fixed(usize),
    /// Any number of prices.
    Variable,
}

impl DataLength {
    /// The text of a data length: `Variable`, or `Fixed(n)` with `n` in decimal.
    pub open spec fn text(self) -> Seq<char> {
        match self {
            DataLength::Fixed(n) => "Fixed("@ + decimal_digits(n as nat) + ")"@,
            DataLength::Variable => "Variable"@,
        }
    }

    /// Writes the data length as text.
    pub fn to_text(&self) -> (out: String)
        ensures
            out@ == self.text(),
    {
        match self {
            DataLength::Fixed(n) => {
                let mut out = String::from_str("Fixed(");
                let digits = decimal_text(*n);
                out.append(digits.as_str());
                out.append(")");
                out
            },
            DataLength::Variable => String::from_str("Variable"),
        }
    }
}

/// Whether a pair of bounds is one a module may declare: the maximum is
/// `Variable`, or it is fixed, above zero and not below a fixed minimum.
pub open spec fn data_lengths_valid(min: DataLength, max: DataLength) -> bool {
    match max {
        DataLength::Variable => true,
        DataLength::Fixed(m) => m > 0 && match min {
            DataLength::Fixed(n) => m >= n,
            DataLength::Variable => true,
        },
    }
}

/// Decides [`data_lengths_valid`].
pub fn check_data_lengths(min: DataLength, max: DataLength) -> (valid: bool)
    ensures
        valid == data_lengths_valid(min, max),
{
    match max {
        DataLength::Variable => true,
        DataLength::Fixed(m) => m > 0 && match min {
            DataLength::Fixed(n) => m >= n,
            DataLength::Variable => true,
        },
    }
}

/// Two fixed bounds with a maximum above zero are valid exactly when the
/// maximum is not below the minimum; a fixed maximum of zero is never valid,
/// whatever the minimum.
pub proof fn law_fixed_bounds(n: usize, m: usize)
    ensures
        m > 0 ==> (data_lengths_valid(DataLength::Fixed(n), DataLength::Fixed(m)) <==> m >= n),
        m == 0 ==> !data_lengths_valid(DataLength::Fixed(n), DataLength::Fixed(m)),
        m == 0 ==> !data_lengths_valid(DataLength::Variable, DataLength::Fixed(m)),
{
}

/// What a module declares about itself: the versions it was built with, its
/// name and description, and the price history it needs.
#[derive(Clone, Debug)]
pub struct AlgorithmRegistration {
    pub rustc_version: String,
    pub utils_version: String,
    pub name: String,
    pub description: String,
    pub min_data_length: DataLength,
    pub max_data_length: DataLength,
}

impl AlgorithmRegistration {
    /// Both recorded versions equal the host's, character for character.
    pub open spec fn versions_match(&self, host_rustc: Seq<char>, host_utils: Seq<char>) -> bool {
        self.rustc_version@ == host_rustc && self.utils_version@ == host_utils
    }

    /// The declared bounds are a valid pair.
    pub open spec fn lengths_valid(&self) -> bool {
        data_lengths_valid(self.min_data_length, self.max_data_length)
    }
}

} // verus!
