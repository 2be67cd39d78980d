//! The fault-reporting client behind the tool service.

use vstd::prelude::*;

verus! {

/// Errors of the fault-reporting client.
#[derive(Debug, Clone, Copy, Default, PartialEq, Eq, Structural)]
pub enum Error {
    #[default]
    Unimplemented,
}

impl Error {
    /// The message of this error.
    pub fn message(&self) -> (r: &'static str)
        ensures
            r@ == "unimplemented"@,
    {
        "unimplemented"
    }
}

/// A reported fault.
#[derive(Debug, Clone, Default, PartialEq, Eq)]
pub struct Fault {
    summary: String,
}

impl View for Fault {
    type V = Seq<char>;

    closed spec fn view(&self) -> Seq<char> {
        self.summary@
    }
}

impl Fault {
    /// A fault with the given summary.
    pub fn new(summary: String) -> (r: Fault)
        ensures
            r@ == summary@,
    {
        Fault { summary }
    }

    /// The fault's summary.
    pub fn summary(&self) -> (r: String)
        ensures
            r@ == self@,
    {
        self.summary.clone()
    }
}

/// The summaries of the faults the client knows of.
pub open spec fn known_faults() -> Seq<Seq<char>> {
    seq!["this is an example summary"@, "this is another example summary"@]
}

/// A client of the fault-reporting service.
#[derive(Debug, Clone, Copy, Default)]
pub struct Client {}

impl Client {
    /// The faults on record, in order.
    pub fn list_faults(&self) -> (r: Result<Vec<Fault>, Error>)
        ensures
            r matches Ok(v) && v@.map_values(|f: Fault| f@) == known_faults(),
    {
        let mut v: Vec<Fault> = Vec::new();
        v.push(Fault::new("this is an example summary".to_owned()));
        v.push(Fault::new("this is another example summary".to_owned()));
        assert(v@.map_values(|f: Fault| f@) =~= known_faults());
        Ok(v)
    }
}

} // verus!
