//! The status report that a sender posts.

use vstd::prelude::*;

verus! {

/// A status report: the appliance it is about and the status it is in. The
/// first field keeps the spelling that senders use on the wire.
#[derive(Clone, Debug, PartialEq, Eq)]
pub struct Info {
    pub applianace: String,
    pub status: String,
}

impl Info {
    /// The report of `status` for `applianace`.
    pub fn new(applianace: String, status: String) -> (info: Info)
        ensures
            info.applianace@ == applianace@,
            info.status@ == status@,
    {
        Info { applianace, status }
    }

    /// The line that records the report in the log.
    pub open spec fn log_text(&self) -> Seq<char> {
        "applianace: "@ + self.applianace@ + " status: "@ + self.status@
    }

    /// Writes the line that records the report in the log.
    pub fn log_line(&self) -> (s: String)
        ensures
            s@ == self.log_text(),
    {
        let mut s = String::from_str("applianace: ");
        s.append(self.applianace.as_str());
        s.append(" status: ");
        s.append(self.status.as_str());
        s
    }
}

} // verus!
