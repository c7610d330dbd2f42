use vstd::prelude::*;

verus! {

/// List of error types used in the library.
#[derive(Debug)]
pub enum GNVerifyError {
    /// Indicates that a user entered a string that cannot be
    /// converted to a Format type. In such case the default format
    /// (Format::CSV) will be used.
    InvalidFormatString { format: String },
    /// Raised by the batcher when far more rows are malformed than
    /// valid, which points at a misconfigured name-field index.
    ConfigurationSuspect,
}

impl GNVerifyError {
    /// A short description of the error, suitable for printing.
    pub fn message(&self) -> (r: String)
        ensures
            *self matches GNVerifyError::InvalidFormatString { format } ==> r@ == "cannot convert '"@
                + format@ + "' to an output format value"@,
            *self is ConfigurationSuspect ==> r@
                == "too many bad rows; make sure name_field is set to the right column"@,
    {
        match self {
            GNVerifyError::InvalidFormatString { format } => {
                let mut m = String::from_str("cannot convert '");
                m.append(format.as_str());
                m.append("' to an output format value");
                m
            },
            GNVerifyError::ConfigurationSuspect => {
                String::from_str("too many bad rows; make sure name_field is set to the right column")
            },
        }
    }
}

} // verus!
