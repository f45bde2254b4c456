//! The diagnostic record of a guest failure.
use vstd::prelude::*;
use crate::text::{decimal, decimal_string};

verus! {

/// Where in the guest's source a failure happened.
#[derive(Clone, Debug, PartialEq, Eq)]
pub struct PanicLocation {
    pub file: String,
    pub line: u32,
    pub column: u32,
}

/// A failure caught inside the guest: its message and, when the guest knew
/// it, its location.
#[derive(Clone, Debug, PartialEq, Eq)]
pub struct PanicInfo {
    /// The failure's message
    pub message: String,
    /// The failure's location, if available
    pub location: Option<PanicLocation>,
}

impl View for PanicInfo {
    /// The message's text, and the location as file text, line and column.
    type V = (Seq<char>, Option<(Seq<char>, u32, u32)>);

    open spec fn view(&self) -> Self::V {
        (
            self.message@,
            match self.location {
                Some(loc) => Some((loc.file@, loc.line, loc.column)),
                None => None,
            },
        )
    }
}

/// `file:line:column`
pub open spec fn location_text(loc: PanicLocation) -> Seq<char> {
    loc.file@ + seq![':'] + decimal(loc.line as nat) + seq![':'] + decimal(loc.column as nat)
}

/// The message, followed by `, file:line:column` when the location is known.
pub open spec fn report_text(info: PanicInfo) -> Seq<char> {
    match info.location {
        Some(loc) => info.message@ + seq![',', ' '] + location_text(loc),
        None => info.message@,
    }
}

impl PanicInfo {
    /// The report line for this failure: see `report_text`.
    pub fn to_string(&self) -> (r: String)
        ensures
            r@ == report_text(*self),
    {
        let mut s = self.message.clone();
        match &self.location {
            Some(loc) => {
                proof {
                    reveal_strlit(", ");
                    reveal_strlit(":");
                }
                s.append(", ");
                s.append(loc.file.as_str());
                s.append(":");
                let line = decimal_string(loc.line as u64);
                s.append(line.as_str());
                s.append(":");
                let column = decimal_string(loc.column as u64);
                s.append(column.as_str());
                assert(s@ =~= report_text(*self));
            },
            None => {},
        }
        s
    }
}

} // verus!
