use vstd::prelude::*;

verus! {

/// Errors of the rules engine.
#[derive(Debug, Clone)]
pub enum RulesError {
    /// A dice expression could not be parsed or rolled.
    DiceParse(String),
    /// A calculation could not be carried out.
    Calculation(String),
    /// An argument is outside what the rules allow.
    InvalidInput(String),
}

impl RulesError {
    /// The text carried by the error.
    pub open spec fn message(self) -> Seq<char> {
        match self {
            RulesError::DiceParse(m) => m@,
            RulesError::Calculation(m) => m@,
            RulesError::InvalidInput(m) => m@,
        }
    }

    /// How the error reads: its kind, then its message.
    pub open spec fn text_spec(self) -> Seq<char> {
        match self {
            RulesError::DiceParse(m) => "Dice parsing error: "@ + m@,
            RulesError::Calculation(m) => "Calculation error: "@ + m@,
            RulesError::InvalidInput(m) => "Invalid input: "@ + m@,
        }
    }

    /// How the error reads: its kind, then its message.
    pub fn text(&self) -> (t: String)
        ensures
            t@ == self.text_spec(),
    {
        match self {
            RulesError::DiceParse(m) => {
                let mut t = String::from_str("Dice parsing error: ");
                t.append(m.as_str());
                t
            },
            RulesError::Calculation(m) => {
                let mut t = String::from_str("Calculation error: ");
                t.append(m.as_str());
                t
            },
            RulesError::InvalidInput(m) => {
                let mut t = String::from_str("Invalid input: ");
                t.append(m.as_str());
                t
            },
        }
    }
}

} // verus!
