use vstd::prelude::*;

use crate::error::GNVerifyError;
use crate::text::str_eq;

verus! {

/// Indicates desired format for the output.
#[derive(Debug, Clone, Copy, PartialEq, Eq, Structural)]
pub enum Format {
    /// Outputs verification results in CSV format.
    CSV,
    /// Outputs verification results as a compact JSON format.
    Compact,
    /// Outputs verification results in a prettyfied JSON format.
    Pretty,
}

impl Default for Format {
    fn default() -> (r: Self)
        ensures
            r == Format::CSV,
    {
        Format::CSV
    }
}

impl Format {
    /// Creates a new format entity out of a string: "csv", "compact" and
    /// "pretty" are accepted; anything else is an error.
    pub fn new(f: &str) -> (r: Result<Self, GNVerifyError>)
        ensures
            f@ == "pretty"@ ==> r == Ok::<Format, GNVerifyError>(Format::Pretty),
            f@ == "compact"@ ==> r == Ok::<Format, GNVerifyError>(Format::Compact),
            f@ == "csv"@ ==> r == Ok::<Format, GNVerifyError>(Format::CSV),
            f@ != "pretty"@ && f@ != "compact"@ && f@ != "csv"@ ==> (r matches Err(
                GNVerifyError::InvalidFormatString { format },
            ) && format@ == f@),
    {
        proof {
            reveal_strlit("pretty");
            reveal_strlit("compact");
            reveal_strlit("csv");
            assert("pretty"@.len() == 6);
            assert("compact"@.len() == 7);
            assert("csv"@.len() == 3);
        }
        if str_eq(f, "pretty") {
            Ok(Format::Pretty)
        } else if str_eq(f, "compact") {
            Ok(Format::Compact)
        } else if str_eq(f, "csv") {
            Ok(Format::CSV)
        } else {
            Err(GNVerifyError::InvalidFormatString { format: f.to_owned() })
        }
    }

    /// The name of the format, as it is shown to the user.
    pub fn to_string(&self) -> (r: String)
        ensures
            *self == Format::CSV ==> r@ == "CSV"@,
            *self == Format::Compact ==> r@ == "Compact"@,
            *self == Format::Pretty ==> r@ == "Pretty"@,
    {
        match self {
            Format::CSV => String::from_str("CSV"),
            Format::Compact => String::from_str("Compact"),
            Format::Pretty => String::from_str("Pretty"),
        }
    }
}

} // verus!
